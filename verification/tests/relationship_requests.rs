use lkmv::relationships::{
    decide_relationship_request, inbound_message_action, is_pickup_status, rejection_reason,
    InboundAction, RelationshipDecision, RelationshipRequestBody, RELATIONSHIP_MESSAGE_EXPIRY_SECS,
};

#[test]
fn persona_did_requests_are_accepted() {
    let body = RelationshipRequestBody { reason: None, did: "did:web:ada".to_string() };
    assert_eq!(decide_relationship_request("did:web:ada", &body), RelationshipDecision::Accept);
}

#[test]
fn relationship_did_requests_are_rejected() {
    let body = RelationshipRequestBody {
        reason: Some("hello".to_string()),
        did: "did:peer:2.xyz".to_string(),
    };
    assert_eq!(
        decide_relationship_request("did:web:ada", &body),
        RelationshipDecision::RejectRelationshipDid
    );
    assert_eq!(
        rejection_reason("Ada"),
        "Sorry, Ada doesn't accept r-did based relationships. Only Persona-DID level relationships are allowed!"
    );
}

#[test]
fn pickup_status_messages_are_recognised() {
    assert!(is_pickup_status("https://didcomm.org/messagepickup/3.0/status"));
    assert!(!is_pickup_status("https://didcomm.org/trust-ping/2.0/ping"));
    assert_eq!(RELATIONSHIP_MESSAGE_EXPIRY_SECS, 48 * 60 * 60);
}

const REQUEST_URL: &str = "https://linuxfoundation.org/lkmv/1.0/relationship-request";
const FINALIZE_URL: &str = "https://linuxfoundation.org/lkmv/1.0/relationship-request-finalize";

fn body(did: &str) -> Option<RelationshipRequestBody> {
    Some(RelationshipRequestBody { reason: None, did: did.to_string() })
}

#[test]
fn inbound_persona_request_is_accepted() {
    match inbound_message_action(REQUEST_URL, true, Some("did:example:alice".to_string()), body("did:example:alice")) {
        InboundAction::AcceptRelationship { from } => assert_eq!(from, "did:example:alice"),
        other => panic!("unexpected {:?}", other),
    }
}

#[test]
fn inbound_relationship_did_request_is_rejected() {
    match inbound_message_action(REQUEST_URL, true, Some("did:example:alice".to_string()), body("did:example:r-did")) {
        InboundAction::RejectRelationship { from } => assert_eq!(from, "did:example:alice"),
        other => panic!("unexpected {:?}", other),
    }
}

#[test]
fn inbound_finalize_completes_the_relationship() {
    match inbound_message_action(FINALIZE_URL, true, Some("did:example:bob".to_string()), None) {
        InboundAction::RelationshipCompleted { from } => assert_eq!(from, "did:example:bob"),
        other => panic!("unexpected {:?}", other),
    }
}

#[test]
fn inbound_messages_that_are_ignored() {
    let alice = || Some("did:example:alice".to_string());
    assert!(matches!(
        inbound_message_action("https://didcomm.org/messagepickup/3.0/status", true, alice(), None),
        InboundAction::Ignore
    ));
    assert!(matches!(inbound_message_action(REQUEST_URL, false, alice(), body("did:example:alice")), InboundAction::Ignore));
    assert!(matches!(inbound_message_action(REQUEST_URL, true, None, body("did:example:alice")), InboundAction::Ignore));
    assert!(matches!(inbound_message_action(REQUEST_URL, true, alice(), None), InboundAction::Ignore));
    assert!(matches!(
        inbound_message_action("https://didcomm.org/trust-ping/2.0/ping", true, alice(), None),
        InboundAction::Ignore
    ));
    assert!(matches!(inbound_message_action("not a type", true, alice(), None), InboundAction::Ignore));
}

#[test]
fn accepted_requests_are_recorded_as_relationships() {
    use_relationship_book();
}

fn use_relationship_book() {
    let mut book: lkmv::relationships::RelationshipBook = lkmv::keyed::KeyedList::new();
    let now = lkmv::logs::UtcTimestamp { secs: 7, nanos: 0 };
    let accept = InboundAction::AcceptRelationship { from: "did:example:alice".to_string() };
    lkmv::relationships::record_relationship(&mut book, &accept, now);
    assert_eq!(book.get("did:example:alice").map(|t| t.secs), Some(7));
    lkmv::relationships::record_relationship(&mut book, &InboundAction::Ignore, now);
    assert_eq!(book.len(), 1);
    assert_eq!(lkmv::relationships::message_times(1000), (1000, 1000 + 172800));
}
