//! Bodies of the DIDComm messages that set up relationships, and how an
//! automated maintainer answers relationship requests.

use crate::keyed::KeyedList;
use crate::logs::UtcTimestamp;
use crate::message_type::{message_type_of_url, MessageType};
use vstd::prelude::*;

verus! {

// ****************************************************************************
// Message Body Structure types
// ****************************************************************************

/// DIDComm message body sent to the remote party when requesting a relationship
#[derive(Debug)]
pub struct RelationshipRequestBody {
    pub reason: Option<String>,
    pub did: String,
}

impl Clone for RelationshipRequestBody {
    fn clone(&self) -> (copy: Self)
        ensures
            copy == *self,
    {
        let reason = match &self.reason {
            Some(reason) => Some(reason.clone()),
            None => None,
        };
        RelationshipRequestBody { reason, did: self.did.clone() }
    }
}

/// DIDComm message body sent to the initiator of a relationship request when the request is
/// rejected
#[derive(Clone, Debug)]
pub struct RelationshipRejectBody {
    pub reason: Option<String>,
}

/// Body of a Relationship Rquest accept message
#[derive(Clone, Debug)]
pub struct RelationshipAcceptBody {
    pub did: String,
}

/// How long relationship messages stay valid: 48 hours, in seconds.
pub const RELATIONSHIP_MESSAGE_EXPIRY_SECS: u64 = 172800;

// ****************************************************************************
// Automated answers to relationship requests
// ****************************************************************************

/// The type URL of the message pickup status messages that a mediator sends.
pub open spec fn pickup_status_type_url() -> Seq<char> {
    "https://didcomm.org/messagepickup/3.0/status"@
}

/// Is this a message pickup status message (which needs no answer)?
pub fn is_pickup_status(type_url: &str) -> (status: bool)
    ensures
        status == (type_url@ == pickup_status_type_url()),
{
    type_url.to_owned() == "https://didcomm.org/messagepickup/3.0/status".to_owned()
}

/// How an automated maintainer answers a relationship request.
#[derive(Clone, Copy, Debug, PartialEq, Eq, Structural)]
pub enum RelationshipDecision {
    /// Accept, relating the requestor's persona DID with ours.
    Accept,
    /// Reject: the requestor asked for a relationship DID of its own, which is
    /// not supported.
    RejectRelationshipDid,
}

/// Decides a relationship request received from `from_did`: only requests
/// whose requested DID is the sender's own (persona) DID are accepted.
pub fn decide_relationship_request(from_did: &str, request: &RelationshipRequestBody) -> (decision:
    RelationshipDecision)
    ensures
        decision == (if request.did@ == from_did@ {
            RelationshipDecision::Accept
        } else {
            RelationshipDecision::RejectRelationshipDid
        }),
{
    if request.did == from_did.to_owned() {
        RelationshipDecision::Accept
    } else {
        RelationshipDecision::RejectRelationshipDid
    }
}

/// The reason sent with a rejection by the maintainer known as `alias`.
pub open spec fn rejection_reason_text(alias: Seq<char>) -> Seq<char> {
    "Sorry, "@ + alias
        + " doesn't accept r-did based relationships. Only Persona-DID level relationships are allowed!"@
}

/// The reason sent with a rejection by the maintainer known as `alias`.
pub fn rejection_reason(alias: &str) -> (reason: String)
    ensures
        reason@ == rejection_reason_text(alias@),
{
    "Sorry, ".to_owned().concat(alias).concat(
        " doesn't accept r-did based relationships. Only Persona-DID level relationships are allowed!",
    )
}

/// What the automated maintainer does with an inbound message.
#[derive(Debug)]
pub enum InboundAction {
    /// Nothing to do.
    Ignore,
    /// Reject the relationship request of `from`, which asked for a
    /// relationship DID of its own.
    RejectRelationship { from: String },
    /// Accept the relationship request of `from` and remember the
    /// relationship.
    AcceptRelationship { from: String },
    /// The relationship with `from` is fully set up.
    RelationshipCompleted { from: String },
}

/// Decides what the automated maintainer does with an inbound message of
/// type `type_url`: `recipient_known` tells whether the message is addressed
/// to one of its profiles, `from` is the sender's DID if the message names
/// one, and `request` the body of a relationship request if it parsed.
///
/// Pickup status messages, messages for no local profile or without a sender,
/// relationship requests whose body does not parse, and message types other
/// than relationship requests and their finalisation are ignored.
pub fn inbound_message_action(
    type_url: &str,
    recipient_known: bool,
    from: Option<String>,
    request: Option<RelationshipRequestBody>,
) -> (action: InboundAction)
    ensures
        action == (if type_url@ == pickup_status_type_url() || !recipient_known || from is None {
            InboundAction::Ignore
        } else {
            match message_type_of_url(type_url@) {
                Some(MessageType::RelationshipRequest) => match request {
                    Some(body) => if body.did@ == from->Some_0@ {
                        InboundAction::AcceptRelationship { from: from->Some_0 }
                    } else {
                        InboundAction::RejectRelationship { from: from->Some_0 }
                    },
                    None => InboundAction::Ignore,
                },
                Some(MessageType::RelationshipRequestFinalize) => InboundAction::RelationshipCompleted {
                    from: from->Some_0,
                },
                _ => InboundAction::Ignore,
            }
        }),
{
    if is_pickup_status(type_url) || !recipient_known {
        return InboundAction::Ignore;
    }
    let from = match from {
        Some(from) => from,
        None => return InboundAction::Ignore,
    };
    match MessageType::from_type_url(type_url) {
        Ok(MessageType::RelationshipRequest) => match request {
            Some(body) => match decide_relationship_request(from.as_str(), &body) {
                RelationshipDecision::Accept => InboundAction::AcceptRelationship { from },
                RelationshipDecision::RejectRelationshipDid => InboundAction::RejectRelationship {
                    from,
                },
            },
            None => InboundAction::Ignore,
        },
        Ok(MessageType::RelationshipRequestFinalize) => InboundAction::RelationshipCompleted { from },
        _ => InboundAction::Ignore,
    }
}

/// The created and expiry times (seconds since the Unix epoch) of a
/// relationship message sent at `now`: it expires 48 hours later.
pub fn message_times(now: u64) -> (times: (u64, u64))
    requires
        now + RELATIONSHIP_MESSAGE_EXPIRY_SECS <= u64::MAX,
    ensures
        times == (now, (now + RELATIONSHIP_MESSAGE_EXPIRY_SECS) as u64),
{
    (now, now + RELATIONSHIP_MESSAGE_EXPIRY_SECS)
}

/// The relationships of the automated maintainer: when each was set up, by
/// the remote persona DID.
pub type RelationshipBook = KeyedList<UtcTimestamp>;

/// Records what an inbound message did to the maintainer's relationships:
/// an accepted request sets up the relationship with the sender at `now`;
/// nothing else changes them.
pub fn record_relationship(relationships: &mut RelationshipBook, action: &InboundAction, now: UtcTimestamp)
    ensures
        match *action {
            InboundAction::AcceptRelationship { from } => final(relationships)@ == old(
                relationships,
            )@.insert(from@, now),
            _ => final(relationships)@ == old(relationships)@,
        },
{
    if let InboundAction::AcceptRelationship { from } = action {
        relationships.insert(from.as_str(), now);
    }
}

} // verus!
