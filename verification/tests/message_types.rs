use lkmv::errors::LKMVError;
use lkmv::message_type::MessageType;

const ALL: [MessageType; 11] = [
    MessageType::RelationshipRequest,
    MessageType::RelationshipRequestRejected,
    MessageType::RelationshipRequestAccepted,
    MessageType::RelationshipRequestFinalize,
    MessageType::TrustPing,
    MessageType::TrustPong,
    MessageType::VRCRequest,
    MessageType::VRCRequestRejected,
    MessageType::VRCIssued,
    MessageType::MaintainersListRequest,
    MessageType::MaintainersListResponse,
];

#[test]
fn friendly_names_are_as_shown_to_users() {
    assert_eq!(MessageType::RelationshipRequest.friendly_name(), "Relationship Request");
    assert_eq!(MessageType::RelationshipRequestRejected.friendly_name(), "Relationship Request Rejected");
    assert_eq!(MessageType::RelationshipRequestAccepted.friendly_name(), "Relationship Request Accepted");
    assert_eq!(MessageType::RelationshipRequestFinalize.friendly_name(), "Relationship Request Finalize");
    assert_eq!(MessageType::TrustPing.friendly_name(), "Trust Ping (Send)");
    assert_eq!(MessageType::TrustPong.friendly_name(), "Trust Pong (Receive)");
    assert_eq!(MessageType::VRCRequest.friendly_name(), "VRC Request");
    assert_eq!(MessageType::VRCRequestRejected.friendly_name(), "VRC Request Rejected");
    assert_eq!(MessageType::VRCIssued.friendly_name(), "VRC Issued");
    assert_eq!(MessageType::MaintainersListRequest.friendly_name(), "List Known Maintainers (request)");
    assert_eq!(MessageType::MaintainersListResponse.friendly_name(), "List Known Maintainers (response)");
}

#[test]
fn type_urls_are_the_wire_identifiers() {
    assert_eq!(
        MessageType::RelationshipRequest.type_url(),
        "https://linuxfoundation.org/lkmv/1.0/relationship-request"
    );
    assert_eq!(
        MessageType::RelationshipRequestRejected.type_url(),
        "https://linuxfoundation.org/lkmv/1.0/relationship-request-reject"
    );
    assert_eq!(MessageType::TrustPing.type_url(), "https://didcomm.org/trust-ping/2.0/ping");
    assert_eq!(MessageType::TrustPong.type_url(), "https://didcomm.org/trust-ping/2.0/ping-response");
    assert_eq!(MessageType::VRCIssued.type_url(), "https://firstperson.network/vrc/1.0/issued");
    assert_eq!(
        MessageType::MaintainersListResponse.type_url(),
        "https://kernel.org/maintainers/1.0/list/response"
    );
}

#[test]
fn every_type_url_reads_back_as_its_message_type() {
    for m in ALL {
        let url = m.type_url();
        assert_eq!(MessageType::from_type_url(&url).unwrap(), m);
    }
}

#[test]
fn type_urls_are_distinct() {
    for (i, a) in ALL.iter().enumerate() {
        for b in ALL.iter().skip(i + 1) {
            assert_ne!(a.type_url(), b.type_url());
        }
    }
}

#[test]
fn unknown_type_url_is_an_invalid_message() {
    match MessageType::from_type_url("https://didcomm.org/messagepickup/3.0/status") {
        Err(LKMVError::InvalidMessage(msg)) => {
            assert_eq!(msg, "https://didcomm.org/messagepickup/3.0/status")
        }
        other => panic!("unexpected result {:?}", other),
    }
    // A prefix of a known URL is not that URL.
    assert!(matches!(
        MessageType::from_type_url("https://kernel.org/maintainers/1.0/list/"),
        Err(LKMVError::InvalidMessage(_))
    ));
    assert!(matches!(MessageType::from_type_url(""), Err(LKMVError::InvalidMessage(_))));
}
