use lkmv::logs::{LogFamily, Logs};
use lkmv::relationships::RelationshipRequestBody;
use lkmv::tasks::{handle_vrc_reject, TaskType, Tasks};

#[test]
fn new_task_can_be_found_by_id() {
    let mut tasks = Tasks::default();
    let task = tasks.new_task("task-1", TaskType::TrustPong);
    assert_eq!(task.id, "task-1");
    assert!(matches!(task.type_, TaskType::TrustPong));
    let found = tasks.get_by_id("task-1").unwrap();
    assert_eq!(found.id, "task-1");
    assert!(matches!(found.type_, TaskType::TrustPong));
    assert!(tasks.get_by_id("task-2").is_none());
    assert_eq!(tasks.len(), 1);
}

#[test]
fn new_task_under_used_id_replaces_the_task() {
    let mut tasks = Tasks::default();
    tasks.new_task("t", TaskType::VRCRequestRejected);
    tasks.new_task(
        "t",
        TaskType::VRCRequestOutbound { relationship: "did:example:bob".to_string() },
    );
    assert_eq!(tasks.len(), 1);
    match &tasks.get_by_id("t").unwrap().type_ {
        TaskType::VRCRequestOutbound { relationship } => assert_eq!(relationship, "did:example:bob"),
        other => panic!("unexpected task type {:?}", other),
    }
}

#[test]
fn remove_reports_whether_the_task_existed() {
    let mut tasks = Tasks::default();
    tasks.new_task("a", TaskType::TrustPong);
    tasks.new_task("b", TaskType::RelationshipRequestOutbound);
    assert!(tasks.remove("a"));
    assert!(!tasks.remove("a"));
    assert!(tasks.get_by_id("a").is_none());
    assert!(tasks.get_by_id("b").is_some());
    assert_eq!(tasks.len(), 1);
}

#[test]
fn get_by_pos_walks_every_task_once() {
    let mut tasks = Tasks::default();
    tasks.new_task("a", TaskType::TrustPong);
    tasks.new_task("b", TaskType::TrustPong);
    tasks.new_task("c", TaskType::TrustPong);
    let mut ids: Vec<String> = (0..3).map(|i| tasks.get_by_pos(i).unwrap().id.clone()).collect();
    ids.sort();
    assert_eq!(ids, vec!["a", "b", "c"]);
    assert!(tasks.get_by_pos(3).is_none());
}

#[test]
fn clear_reports_whether_anything_was_removed() {
    let mut tasks = Tasks::default();
    assert!(!tasks.clear());
    tasks.new_task("a", TaskType::TrustPong);
    assert!(tasks.clear());
    assert_eq!(tasks.len(), 0);
    assert!(tasks.get_by_id("a").is_none());
}

#[test]
fn task_type_names() {
    let request = RelationshipRequestBody { reason: None, did: "did:example:alice".to_string() };
    let inbound = TaskType::RelationshipRequestInbound {
        from: "did:example:alice".to_string(),
        to: "did:example:bob".to_string(),
        request,
    };
    assert_eq!(inbound.to_string(), "Relationship Request (Inbound)");
    assert_eq!(inbound.clone().to_string(), "Relationship Request (Inbound)");
    assert_eq!(TaskType::RelationshipRequestOutbound.to_string(), "Relationship Request (Outbound)");
    assert_eq!(TaskType::TrustPong.to_string(), "Trust Pong Received");
    assert_eq!(TaskType::VRCIssued { vrc: "{}".to_string() }.to_string(), "VRC Issued");
    assert_eq!(TaskType::VRCRequestRejected.to_string(), "VRC Request Rejected");
}

#[test]
fn rejected_vrc_request_removes_the_task_and_logs_twice() {
    let mut logs = Logs::default();
    let mut tasks = Tasks::default();
    tasks.new_task(
        "vrc-1",
        TaskType::VRCRequestOutbound { relationship: "did:example:bob".to_string() },
    );
    handle_vrc_reject(&mut logs, &mut tasks, "vrc-1", Some("busy"), "did:example:bob").unwrap();
    assert!(tasks.get_by_id("vrc-1").is_none());
    assert_eq!(logs.messages.len(), 2);
    assert_eq!(logs.messages[0].type_, LogFamily::Relationship);
    assert_eq!(
        logs.messages[0].message,
        "Removed VRC (vrc-1) request as rejected by remote entity Reason: busy"
    );
    assert_eq!(logs.messages[1].type_, LogFamily::Task);
    assert_eq!(
        logs.messages[1].message,
        "VRC request rejected by remote DID(did:example:bob) Task ID(vrc-1) Reason(busy)"
    );
}

#[test]
fn rejected_vrc_request_without_reason() {
    let mut logs = Logs::default();
    let mut tasks = Tasks::default();
    handle_vrc_reject(&mut logs, &mut tasks, "vrc-2", None, "did:example:carol").unwrap();
    assert_eq!(
        logs.messages[1].message,
        "VRC request rejected by remote DID(did:example:carol) Task ID(vrc-2) Reason(NO REASON PROVIDED)"
    );
}
