//! DIDComm message types understood by LKMV, their human friendly names and
//! the type URLs that identify them on the wire.

use crate::errors::LKMVError;
use vstd::prelude::*;

verus! {

/// Defined Message Types for LKMV
#[derive(Clone, Copy, Debug, PartialEq, Eq, Structural)]
#[non_exhaustive]
pub enum MessageType {
    RelationshipRequest,
    RelationshipRequestRejected,
    RelationshipRequestAccepted,
    RelationshipRequestFinalize,
    TrustPing,
    TrustPong,
    VRCRequest,
    VRCRequestRejected,
    VRCIssued,
    MaintainersListRequest,
    MaintainersListResponse,
}

/// The human friendly name shown for a message type.
pub open spec fn friendly_name_of(m: MessageType) -> Seq<char> {
    match m {
        MessageType::RelationshipRequest => "Relationship Request"@,
        MessageType::RelationshipRequestRejected => "Relationship Request Rejected"@,
        MessageType::RelationshipRequestAccepted => "Relationship Request Accepted"@,
        MessageType::RelationshipRequestFinalize => "Relationship Request Finalize"@,
        MessageType::TrustPing => "Trust Ping (Send)"@,
        MessageType::TrustPong => "Trust Pong (Receive)"@,
        MessageType::VRCRequest => "VRC Request"@,
        MessageType::VRCRequestRejected => "VRC Request Rejected"@,
        MessageType::VRCIssued => "VRC Issued"@,
        MessageType::MaintainersListRequest => "List Known Maintainers (request)"@,
        MessageType::MaintainersListResponse => "List Known Maintainers (response)"@,
    }
}

/// The DIDComm type URL that identifies a message type.
pub open spec fn type_url_of(m: MessageType) -> Seq<char> {
    match m {
        MessageType::RelationshipRequest => "https://linuxfoundation.org/lkmv/1.0/relationship-request"@,
        MessageType::RelationshipRequestRejected => "https://linuxfoundation.org/lkmv/1.0/relationship-request-reject"@,
        MessageType::RelationshipRequestAccepted => "https://linuxfoundation.org/lkmv/1.0/relationship-request-accept"@,
        MessageType::RelationshipRequestFinalize => "https://linuxfoundation.org/lkmv/1.0/relationship-request-finalize"@,
        MessageType::TrustPing => "https://didcomm.org/trust-ping/2.0/ping"@,
        MessageType::TrustPong => "https://didcomm.org/trust-ping/2.0/ping-response"@,
        MessageType::VRCRequest => "https://firstperson.network/vrc/1.0/request"@,
        MessageType::VRCRequestRejected => "https://firstperson.network/vrc/1.0/rejected"@,
        MessageType::VRCIssued => "https://firstperson.network/vrc/1.0/issued"@,
        MessageType::MaintainersListRequest => "https://kernel.org/maintainers/1.0/list"@,
        MessageType::MaintainersListResponse => "https://kernel.org/maintainers/1.0/list/response"@,
    }
}

/// The message type whose type URL is `url`, if any.
pub open spec fn message_type_of_url(url: Seq<char>) -> Option<MessageType> {
    if url == "https://linuxfoundation.org/lkmv/1.0/relationship-request"@ {
        Some(MessageType::RelationshipRequest)
    } else if url == "https://linuxfoundation.org/lkmv/1.0/relationship-request-reject"@ {
        Some(MessageType::RelationshipRequestRejected)
    } else if url == "https://linuxfoundation.org/lkmv/1.0/relationship-request-accept"@ {
        Some(MessageType::RelationshipRequestAccepted)
    } else if url == "https://linuxfoundation.org/lkmv/1.0/relationship-request-finalize"@ {
        Some(MessageType::RelationshipRequestFinalize)
    } else if url == "https://didcomm.org/trust-ping/2.0/ping"@ {
        Some(MessageType::TrustPing)
    } else if url == "https://didcomm.org/trust-ping/2.0/ping-response"@ {
        Some(MessageType::TrustPong)
    } else if url == "https://firstperson.network/vrc/1.0/request"@ {
        Some(MessageType::VRCRequest)
    } else if url == "https://firstperson.network/vrc/1.0/rejected"@ {
        Some(MessageType::VRCRequestRejected)
    } else if url == "https://firstperson.network/vrc/1.0/issued"@ {
        Some(MessageType::VRCIssued)
    } else if url == "https://kernel.org/maintainers/1.0/list"@ {
        Some(MessageType::MaintainersListRequest)
    } else if url == "https://kernel.org/maintainers/1.0/list/response"@ {
        Some(MessageType::MaintainersListResponse)
    } else {
        None
    }
}

impl MessageType {
    /// The type URL of this message type.
    pub fn type_url(&self) -> (url: String)
        ensures
            url@ == type_url_of(*self),
    {
        let s = match self {
            MessageType::RelationshipRequest => "https://linuxfoundation.org/lkmv/1.0/relationship-request",
            MessageType::RelationshipRequestRejected => "https://linuxfoundation.org/lkmv/1.0/relationship-request-reject",
            MessageType::RelationshipRequestAccepted => "https://linuxfoundation.org/lkmv/1.0/relationship-request-accept",
            MessageType::RelationshipRequestFinalize => "https://linuxfoundation.org/lkmv/1.0/relationship-request-finalize",
            MessageType::TrustPing => "https://didcomm.org/trust-ping/2.0/ping",
            MessageType::TrustPong => "https://didcomm.org/trust-ping/2.0/ping-response",
            MessageType::VRCRequest => "https://firstperson.network/vrc/1.0/request",
            MessageType::VRCRequestRejected => "https://firstperson.network/vrc/1.0/rejected",
            MessageType::VRCIssued => "https://firstperson.network/vrc/1.0/issued",
            MessageType::MaintainersListRequest => "https://kernel.org/maintainers/1.0/list",
            MessageType::MaintainersListResponse => "https://kernel.org/maintainers/1.0/list/response",
        };
        s.to_owned()
    }

    /// Finds the message type that a type URL identifies.
    pub fn from_type_url(value: &str) -> (res: Result<MessageType, LKMVError>)
        ensures
            match res {
                Ok(m) => message_type_of_url(value@) == Some(m),
                Err(e) => message_type_of_url(value@) is None
                    && (e matches LKMVError::InvalidMessage(msg) && msg@ == value@),
            },
    {
        let v = value.to_owned();
        if v == "https://linuxfoundation.org/lkmv/1.0/relationship-request".to_owned() {
            Ok(MessageType::RelationshipRequest)
        } else if v == "https://linuxfoundation.org/lkmv/1.0/relationship-request-reject".to_owned() {
            Ok(MessageType::RelationshipRequestRejected)
        } else if v == "https://linuxfoundation.org/lkmv/1.0/relationship-request-accept".to_owned() {
            Ok(MessageType::RelationshipRequestAccepted)
        } else if v == "https://linuxfoundation.org/lkmv/1.0/relationship-request-finalize".to_owned() {
            Ok(MessageType::RelationshipRequestFinalize)
        } else if v == "https://didcomm.org/trust-ping/2.0/ping".to_owned() {
            Ok(MessageType::TrustPing)
        } else if v == "https://didcomm.org/trust-ping/2.0/ping-response".to_owned() {
            Ok(MessageType::TrustPong)
        } else if v == "https://firstperson.network/vrc/1.0/request".to_owned() {
            Ok(MessageType::VRCRequest)
        } else if v == "https://firstperson.network/vrc/1.0/rejected".to_owned() {
            Ok(MessageType::VRCRequestRejected)
        } else if v == "https://firstperson.network/vrc/1.0/issued".to_owned() {
            Ok(MessageType::VRCIssued)
        } else if v == "https://kernel.org/maintainers/1.0/list".to_owned() {
            Ok(MessageType::MaintainersListRequest)
        } else if v == "https://kernel.org/maintainers/1.0/list/response".to_owned() {
            Ok(MessageType::MaintainersListResponse)
        } else {
            Err(LKMVError::InvalidMessage(v))
        }
    }

    pub fn friendly_name(&self) -> (name: String)
        ensures
            name@ == friendly_name_of(*self),
    {
        let s = match self {
            MessageType::RelationshipRequest => "Relationship Request",
            MessageType::RelationshipRequestRejected => "Relationship Request Rejected",
            MessageType::RelationshipRequestAccepted => "Relationship Request Accepted",
            MessageType::RelationshipRequestFinalize => "Relationship Request Finalize",
            MessageType::TrustPing => "Trust Ping (Send)",
            MessageType::TrustPong => "Trust Pong (Receive)",
            MessageType::VRCRequest => "VRC Request",
            MessageType::VRCRequestRejected => "VRC Request Rejected",
            MessageType::VRCIssued => "VRC Issued",
            MessageType::MaintainersListRequest => "List Known Maintainers (request)",
            MessageType::MaintainersListResponse => "List Known Maintainers (response)",
        };
        s.to_owned()
    }
}

/// Every message type is recognised again from its own type URL: reading the
/// type URL that a message type is sent under gives back that message type.
pub proof fn lemma_type_url_round_trip(m: MessageType)
    ensures
        message_type_of_url(type_url_of(m)) == Some(m),
{
    reveal_strlit("https://linuxfoundation.org/lkmv/1.0/relationship-request");
    reveal_strlit("https://linuxfoundation.org/lkmv/1.0/relationship-request-reject");
    reveal_strlit("https://linuxfoundation.org/lkmv/1.0/relationship-request-accept");
    reveal_strlit("https://linuxfoundation.org/lkmv/1.0/relationship-request-finalize");
    reveal_strlit("https://didcomm.org/trust-ping/2.0/ping");
    reveal_strlit("https://didcomm.org/trust-ping/2.0/ping-response");
    reveal_strlit("https://firstperson.network/vrc/1.0/request");
    reveal_strlit("https://firstperson.network/vrc/1.0/rejected");
    reveal_strlit("https://firstperson.network/vrc/1.0/issued");
    reveal_strlit("https://kernel.org/maintainers/1.0/list");
    reveal_strlit("https://kernel.org/maintainers/1.0/list/response");
    // The URLs of equal length differ at a known position.
    assert("https://linuxfoundation.org/lkmv/1.0/relationship-request-accept"@[58]
        != "https://linuxfoundation.org/lkmv/1.0/relationship-request-reject"@[58]);
    assert("https://kernel.org/maintainers/1.0/list"@[8]
        != "https://didcomm.org/trust-ping/2.0/ping"@[8]);
    assert("https://kernel.org/maintainers/1.0/list/response"@[8]
        != "https://didcomm.org/trust-ping/2.0/ping-response"@[8]);
    // All the others differ in length.
    assert("https://linuxfoundation.org/lkmv/1.0/relationship-request"@.len() == 57);
    assert("https://linuxfoundation.org/lkmv/1.0/relationship-request-reject"@.len() == 64);
    assert("https://linuxfoundation.org/lkmv/1.0/relationship-request-accept"@.len() == 64);
    assert("https://linuxfoundation.org/lkmv/1.0/relationship-request-finalize"@.len() == 66);
    assert("https://didcomm.org/trust-ping/2.0/ping"@.len() == 39);
    assert("https://didcomm.org/trust-ping/2.0/ping-response"@.len() == 48);
    assert("https://firstperson.network/vrc/1.0/request"@.len() == 43);
    assert("https://firstperson.network/vrc/1.0/rejected"@.len() == 44);
    assert("https://firstperson.network/vrc/1.0/issued"@.len() == 42);
    assert("https://kernel.org/maintainers/1.0/list"@.len() == 39);
    assert("https://kernel.org/maintainers/1.0/list/response"@.len() == 48);
}

/// Distinct message types are sent under distinct type URLs.
pub proof fn lemma_type_url_injective(a: MessageType, b: MessageType)
    ensures
        type_url_of(a) == type_url_of(b) ==> a == b,
{
    lemma_type_url_round_trip(a);
    lemma_type_url_round_trip(b);
}

/// A URL is recognised only if it is exactly the type URL of the message type
/// it is recognised as.
pub proof fn lemma_recognised_url_is_type_url(url: Seq<char>)
    ensures
        message_type_of_url(url) matches Some(m) ==> type_url_of(m) == url,
{
}

/// The protocol base URL and the action that make up the type URL of each
/// message type on the wire.
pub proof fn lemma_type_url_table(m: MessageType)
    ensures
        match m {
            MessageType::RelationshipRequest => type_url_of(m)
                == "https://linuxfoundation.org/lkmv/1.0/relationship-request"@,
            MessageType::RelationshipRequestRejected => type_url_of(m)
                == "https://linuxfoundation.org/lkmv/1.0/relationship-request-reject"@,
            MessageType::RelationshipRequestAccepted => type_url_of(m)
                == "https://linuxfoundation.org/lkmv/1.0/relationship-request-accept"@,
            MessageType::RelationshipRequestFinalize => type_url_of(m)
                == "https://linuxfoundation.org/lkmv/1.0/relationship-request-finalize"@,
            MessageType::TrustPing => type_url_of(m) == "https://didcomm.org/trust-ping/2.0/ping"@,
            MessageType::TrustPong => type_url_of(m)
                == "https://didcomm.org/trust-ping/2.0/ping-response"@,
            MessageType::VRCRequest => type_url_of(m)
                == "https://firstperson.network/vrc/1.0/request"@,
            MessageType::VRCRequestRejected => type_url_of(m)
                == "https://firstperson.network/vrc/1.0/rejected"@,
            MessageType::VRCIssued => type_url_of(m) == "https://firstperson.network/vrc/1.0/issued"@,
            MessageType::MaintainersListRequest => type_url_of(m)
                == "https://kernel.org/maintainers/1.0/list"@,
            MessageType::MaintainersListResponse => type_url_of(m)
                == "https://kernel.org/maintainers/1.0/list/response"@,
        },
{
}

/// The three VRC message types are sent under the VRC protocol's base URL,
/// followed by what the message does: a request is read back as a request,
/// a rejection as a rejection and an issued VRC as an issued VRC.
pub proof fn lemma_vrc_type_urls()
    ensures
        type_url_of(MessageType::VRCRequest) == "https://firstperson.network/vrc/1.0/"@
            + "request"@,
        type_url_of(MessageType::VRCRequestRejected) == "https://firstperson.network/vrc/1.0/"@
            + "rejected"@,
        type_url_of(MessageType::VRCIssued) == "https://firstperson.network/vrc/1.0/"@
            + "issued"@,
        message_type_of_url("https://firstperson.network/vrc/1.0/"@ + "request"@) == Some(
            MessageType::VRCRequest,
        ),
        message_type_of_url("https://firstperson.network/vrc/1.0/"@ + "rejected"@) == Some(
            MessageType::VRCRequestRejected,
        ),
        message_type_of_url("https://firstperson.network/vrc/1.0/"@ + "issued"@) == Some(
            MessageType::VRCIssued,
        ),
{
    reveal_strlit("https://firstperson.network/vrc/1.0/");
    reveal_strlit("request");
    reveal_strlit("rejected");
    reveal_strlit("issued");
    reveal_strlit("https://firstperson.network/vrc/1.0/request");
    reveal_strlit("https://firstperson.network/vrc/1.0/rejected");
    reveal_strlit("https://firstperson.network/vrc/1.0/issued");
    assert("https://firstperson.network/vrc/1.0/request"@ =~= "https://firstperson.network/vrc/1.0/"@
        + "request"@);
    assert("https://firstperson.network/vrc/1.0/rejected"@ =~= "https://firstperson.network/vrc/1.0/"@
        + "rejected"@);
    assert("https://firstperson.network/vrc/1.0/issued"@ =~= "https://firstperson.network/vrc/1.0/"@
        + "issued"@);
    lemma_type_url_round_trip(MessageType::VRCRequest);
    lemma_type_url_round_trip(MessageType::VRCRequestRejected);
    lemma_type_url_round_trip(MessageType::VRCIssued);
}

} // verus!
