use lkmv::errors::LKMVError;
use lkmv::logs::{LogFamily, Logs, UtcTimestamp};
use lkmv::tasks::{TaskType, Tasks};
use lkmv::keyed::KeyedList;
use lkmv::vrc_tasks::{
    inbound_vrc_request_step, inbound_vrc_step, record_inbound_vrc, record_issued_vrc,
    record_vrc_request_rejected, remove_vrc_by_id, vrc_accept_fields, EndDateChoice,
    IssuedVrcChoice, IssuerName, RelationshipDids, RelationshipTypeChoice, RequestorName,
    StartDateChoice, ValidFromChoice, VrcAcceptAnswers, VrcIndex, VrcRequest, VrcRequestAction,
    VrcRequestChoice,
};

fn ts(secs: i64) -> UtcTimestamp {
    UtcTimestamp { secs, nanos: 0 }
}

fn relationship() -> RelationshipDids {
    RelationshipDids {
        our_did: "did:peer:ours".to_string(),
        remote_did: "did:peer:theirs".to_string(),
        remote_p_did: "did:web:bob".to_string(),
        created: ts(100),
    }
}

fn request() -> VrcRequest {
    VrcRequest {
        reason: Some("we work together".to_string()),
        type_: Some("Coworker".to_string()),
        name: Some("Bob".to_string()),
        include_r_did: true,
        start_date: true,
        end_date: false,
    }
}

fn answers() -> VrcAcceptAnswers {
    VrcAcceptAnswers {
        issuer_name: IssuerName::Keep,
        include_our_r_did: true,
        requestor_name: RequestorName::Suggested,
        include_their_r_did: true,
        description: String::new(),
        vrc_name: "Kernel work".to_string(),
        relationship_type: RelationshipTypeChoice::Suggested,
        start_date: StartDateChoice::Relationship,
        end_date: EndDateChoice::Omit,
        valid_from: ValidFromChoice::Now,
    }
}

fn tasks_with(id: &str) -> Tasks {
    let mut tasks = Tasks::default();
    tasks.new_task(id, TaskType::VRCRequestRejected);
    tasks
}

#[test]
fn accepted_vrc_fields_follow_the_answers() {
    let d = vrc_accept_fields(answers(), &request(), &relationship(), "did:web:ada", "Ada", ts(500));
    assert_eq!(d.issuer, "did:web:ada");
    assert_eq!(d.from_did, "did:web:ada");
    assert_eq!(d.to_did, "did:web:bob");
    assert_eq!(d.from_name.as_deref(), Some("Ada"));
    assert_eq!(d.from_also_known_as, vec!["did:peer:ours".to_string()]);
    assert_eq!(d.to_name.as_deref(), Some("Bob"));
    assert_eq!(d.to_also_known_as, Some(vec!["did:peer:theirs".to_string()]));
    assert_eq!(d.name.as_deref(), Some("Kernel work"));
    assert_eq!(d.description, None);
    assert_eq!(d.relationship_type.as_deref(), Some("Coworker"));
    assert_eq!(d.start_date.map(|t| t.secs), Some(100));
    assert!(d.end_date.is_none());
    assert_eq!(d.valid_from.secs, 500);
}

#[test]
fn blank_answers_and_persona_relationships_leave_fields_out() {
    let mut a = answers();
    a.issuer_name = IssuerName::Change("Ada L.".to_string());
    a.requestor_name = RequestorName::Typed(String::new());
    a.relationship_type = RelationshipTypeChoice::Omit;
    a.start_date = StartDateChoice::Now;
    a.end_date = EndDateChoice::Custom(ts(900));
    a.valid_from = ValidFromChoice::Custom(ts(42));
    let mut r = relationship();
    r.our_did = "did:web:ada".to_string();
    r.remote_did = "did:web:bob".to_string();
    let d = vrc_accept_fields(a, &request(), &r, "did:web:ada", "Ada", ts(500));
    assert_eq!(d.from_name.as_deref(), Some("Ada L."));
    assert!(d.from_also_known_as.is_empty());
    assert_eq!(d.to_name, None);
    assert_eq!(d.to_also_known_as, None);
    assert_eq!(d.relationship_type, None);
    assert_eq!(d.start_date.map(|t| t.secs), Some(500));
    assert_eq!(d.end_date.map(|t| t.secs), Some(900));
    assert_eq!(d.valid_from.secs, 42);
}

#[test]
fn issuing_a_vrc_stores_it_logs_and_removes_the_task() {
    let mut tasks = tasks_with("t1");
    let mut logs = Logs::default();
    let mut vrcs: VrcIndex = KeyedList::new();
    record_issued_vrc(&mut tasks, &mut logs, &mut vrcs, "t1", "did:web:bob".to_string(), "urn:vrc:1", "{\"vrc\":1}".to_string());
    let kept = vrcs.get("urn:vrc:1").unwrap();
    assert_eq!(kept.p_did, "did:web:bob");
    assert!(kept.issued);
    assert_eq!(vrcs.len(), 1);
    assert!(tasks.get_by_id("t1").is_none());
    assert_eq!(logs.messages[0].message, "Issued VRC for remote P-DID(did:web:bob) Task ID(t1)");
    assert_eq!(logs.messages[0].type_, LogFamily::Task);
}

#[test]
fn inbound_request_choices() {
    let mut tasks = tasks_with("t2");
    let mut logs = Logs::default();
    assert!(matches!(
        inbound_vrc_request_step(&mut tasks, &mut logs, "t2", "did:web:bob", VrcRequestChoice::Accept),
        VrcRequestAction::IssueVrc
    ));
    match inbound_vrc_request_step(
        &mut tasks,
        &mut logs,
        "t2",
        "did:web:bob",
        VrcRequestChoice::Reject { reason: String::new(), confirmed: true },
    ) {
        VrcRequestAction::SendRejection { reason } => assert_eq!(reason, None),
        other => panic!("unexpected {:?}", other),
    }
    assert!(matches!(
        inbound_vrc_request_step(&mut tasks, &mut logs, "t2", "did:web:bob", VrcRequestChoice::Delete { confirmed: false }),
        VrcRequestAction::Unchanged
    ));
    assert!(tasks.get_by_id("t2").is_some());
    assert!(logs.messages.is_empty());
    assert!(matches!(
        inbound_vrc_request_step(&mut tasks, &mut logs, "t2", "did:web:bob", VrcRequestChoice::Delete { confirmed: true }),
        VrcRequestAction::Deleted
    ));
    assert!(tasks.get_by_id("t2").is_none());
    assert_eq!(logs.messages[0].message, "Deleted VRC request from remote DID(did:web:bob) Task ID(t2)");
}

#[test]
fn rejection_is_recorded_with_its_reason() {
    let mut tasks = tasks_with("t3");
    let mut logs = Logs::default();
    record_vrc_request_rejected(&mut tasks, &mut logs, "t3", "did:peer:theirs", None);
    assert!(tasks.get_by_id("t3").is_none());
    assert_eq!(
        logs.messages[0].message,
        "Rejected VRC request from remote DID(did:peer:theirs) Task ID(t3) Reason: NO REASON PROVIDED"
    );
}

#[test]
fn accepting_an_issued_vrc() {
    let mut tasks = tasks_with("t4");
    let mut logs = Logs::default();
    let mut vrcs: VrcIndex = KeyedList::new();
    let rels = vec![relationship()];
    let res = inbound_vrc_step(&mut tasks, &mut logs, &mut vrcs, &rels, "t4", "did:peer:theirs", "urn:vrc:4", "vrc".to_string(), IssuedVrcChoice::Accept);
    assert_eq!(res.unwrap(), true);
    let kept = vrcs.get("urn:vrc:4").unwrap();
    assert_eq!((kept.p_did.as_str(), kept.vrc.as_str(), kept.issued), ("did:web:bob", "vrc", false));
    assert!(tasks.get_by_id("t4").is_none());
    assert_eq!(logs.messages[0].message, "User accepted inbound VRC issued Task ID(t4)");
    assert_eq!(logs.messages[1].message, "Removing Task ID(t4)");
}

#[test]
fn issued_vrc_without_relationship_is_refused() {
    let mut tasks = tasks_with("t5");
    let mut logs = Logs::default();
    let mut vrcs: VrcIndex = KeyedList::new();
    let res = inbound_vrc_step(&mut tasks, &mut logs, &mut vrcs, &vec![], "t5", "did:peer:x", "urn:vrc:5", "vrc".to_string(), IssuedVrcChoice::Accept);
    assert!(matches!(res, Err(LKMVError::Config(m)) if m == "Couldn't find relationship for VRC Task"));
    assert!(tasks.get_by_id("t5").is_some());
    assert_eq!(vrcs.len(), 0);
    let res = inbound_vrc_step(&mut tasks, &mut logs, &mut vrcs, &vec![], "t5", "did:peer:x", "urn:vrc:5", "vrc".to_string(), IssuedVrcChoice::Delete { confirmed: true });
    assert_eq!(res.unwrap(), true);
    assert_eq!(logs.messages[0].message, "User deleted inbound VRC issued Task ID(t5)");
}

#[test]
fn typed_answers_are_trimmed() {
    let mut a = answers();
    a.issuer_name = IssuerName::Change("   ".to_string());
    a.requestor_name = RequestorName::Typed("  Bobby \t".to_string());
    a.description = " \u{3000}".to_string();
    a.vrc_name = "  Kernel work  ".to_string();
    a.relationship_type = RelationshipTypeChoice::Custom("  Peer ".to_string());
    let d = vrc_accept_fields(a, &request(), &relationship(), "did:web:ada", "Ada", ts(500));
    assert_eq!(d.from_name, None);
    assert_eq!(d.to_name.as_deref(), Some("Bobby"));
    assert_eq!(d.description, None);
    assert_eq!(d.name.as_deref(), Some("Kernel work"));
    assert_eq!(d.relationship_type.as_deref(), Some("Peer"));
    let mut a = answers();
    a.issuer_name = IssuerName::Omit;
    let d = vrc_accept_fields(a, &request(), &relationship(), "did:web:ada", "Ada", ts(500));
    assert_eq!(d.from_name, None);
}

#[test]
fn blank_rejection_reason_is_no_reason() {
    let mut tasks = tasks_with("t6");
    let mut logs = Logs::default();
    match inbound_vrc_request_step(&mut tasks, &mut logs, "t6", "did:web:bob", VrcRequestChoice::Reject { reason: " ".to_string(), confirmed: true }) {
        VrcRequestAction::SendRejection { reason } => assert_eq!(reason, None),
        other => panic!("unexpected {:?}", other),
    }
    match inbound_vrc_request_step(&mut tasks, &mut logs, "t6", "did:web:bob", VrcRequestChoice::Reject { reason: " busy ".to_string(), confirmed: true }) {
        VrcRequestAction::SendRejection { reason } => assert_eq!(reason.as_deref(), Some("busy")),
        other => panic!("unexpected {:?}", other),
    }
}

#[test]
fn removing_a_vrc_by_id() {
    let mut tasks = tasks_with("t7");
    let mut logs = Logs::default();
    let mut vrcs: VrcIndex = KeyedList::new();
    record_issued_vrc(&mut tasks, &mut logs, &mut vrcs, "t7", "did:web:bob".to_string(), "urn:vrc:7", "{}".to_string());
    assert!(!remove_vrc_by_id(&mut vrcs, &mut logs, "urn:vrc:7", false));
    assert!(!remove_vrc_by_id(&mut vrcs, &mut logs, "urn:vrc:8", true));
    assert_eq!(logs.messages.len(), 1);
    assert!(remove_vrc_by_id(&mut vrcs, &mut logs, "urn:vrc:7", true));
    assert!(vrcs.get("urn:vrc:7").is_none());
    assert_eq!(logs.messages[1].message, "User removed VRC ID: urn:vrc:7");
}

#[test]
fn inbound_vrc_updates_its_task_or_creates_one() {
    let mut tasks = tasks_with("t9");
    let mut logs = Logs::default();
    assert!(record_inbound_vrc(&mut tasks, &mut logs, Some("t9"), "msg-1", "vrc-a".to_string()));
    assert!(matches!(&tasks.get_by_id("t9").unwrap().type_, TaskType::VRCIssued { vrc } if vrc == "vrc-a"));
    assert_eq!(logs.messages[0].message, "Inbound VRC issued updated Task ID(t9)");
    assert!(!record_inbound_vrc(&mut tasks, &mut logs, Some("unknown"), "msg-2", "vrc-b".to_string()));
    assert!(matches!(&tasks.get_by_id("msg-2").unwrap().type_, TaskType::VRCIssued { vrc } if vrc == "vrc-b"));
    assert_eq!(logs.messages.len(), 1);
}
