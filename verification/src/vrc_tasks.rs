//! Verifiable Relationship Credential (VRC) tasks: what the user's answers
//! do to an inbound VRC request or to a VRC issued to us, the fields of a VRC
//! issued in answer to a request, and the bookkeeping once an answer was
//! sent.
//!
//! Asking the questions, signing a VRC and sending DIDComm messages are done
//! by the caller. Typed text is trimmed of surrounding white space; a text
//! with nothing left stands for no answer.

use crate::errors::LKMVError;
use crate::logs::{log_texts, texts_after_insert, LogFamily, Logs, UtcTimestamp};
use crate::keyed::KeyedList;
use crate::tasks::{Task, TaskType, Tasks};
use crate::text::{optional_view, trim, trimmed, typed_answer, typed_text};
use vstd::prelude::*;

verus! {

/// A request for a VRC, as received.
#[derive(Clone, Debug)]
pub struct VrcRequest {
    /// Why the requestor asks for a VRC
    pub reason: Option<String>,
    /// Suggested relationship type
    pub type_: Option<String>,
    /// Suggested human-readable name of the requestor
    pub name: Option<String>,
    /// Does the requestor ask to include its relationship DID in alsoKnownAs?
    pub include_r_did: bool,
    /// Does the requestor ask for a relationship start date?
    pub start_date: bool,
    /// Does the requestor ask for a relationship end date?
    pub end_date: bool,
}

/// The DIDs of a relationship and when it started.
#[derive(Clone, Debug)]
pub struct RelationshipDids {
    /// Our DID in this relationship
    pub our_did: String,
    /// The remote party's DID in this relationship
    pub remote_did: String,
    /// The remote party's persona DID
    pub remote_p_did: String,
    /// When the relationship was created
    pub created: UtcTimestamp,
}

/// Our name in a VRC we issue.
#[derive(Debug)]
pub enum IssuerName {
    /// Keep our human-readable name.
    Keep,
    /// Use this name instead (as typed; a blank name means no name).
    Change(String),
    /// Do not include a name.
    Omit,
}

/// The requestor's name in a VRC we issue.
#[derive(Debug)]
pub enum RequestorName {
    /// Use the name the requestor suggested.
    Suggested,
    /// Use the name typed in (none when it is blank).
    Typed(String),
}

/// The relationship type of a VRC we issue.
#[derive(Debug)]
pub enum RelationshipTypeChoice {
    Omit,
    Custom(String),
    /// Use the type the requestor suggested.
    Suggested,
}

/// The relationship start date of a VRC we issue.
#[derive(Clone, Copy, Debug)]
pub enum StartDateChoice {
    /// When the relationship was created.
    Relationship,
    Now,
    Custom(UtcTimestamp),
    Omit,
}

/// The relationship end date of a VRC we issue.
#[derive(Clone, Copy, Debug)]
pub enum EndDateChoice {
    Now,
    Custom(UtcTimestamp),
    Omit,
}

/// From when a VRC we issue is valid.
#[derive(Clone, Copy, Debug)]
pub enum ValidFromChoice {
    Now,
    Custom(UtcTimestamp),
}

/// The user's answers when accepting a VRC request.
#[derive(Debug)]
pub struct VrcAcceptAnswers {
    pub issuer_name: IssuerName,
    /// Include our relationship DID in our alsoKnownAs (asked only when it
    /// differs from our persona DID)?
    pub include_our_r_did: bool,
    pub requestor_name: RequestorName,
    /// Include the requestor's relationship DID in its alsoKnownAs (asked only
    /// when it differs from its persona DID)?
    pub include_their_r_did: bool,
    /// Description of the VRC (none when blank)
    pub description: String,
    /// Human-readable name of the VRC (none when blank)
    pub vrc_name: String,
    pub relationship_type: RelationshipTypeChoice,
    pub start_date: StartDateChoice,
    pub end_date: EndDateChoice,
    pub valid_from: ValidFromChoice,
}

/// The fields of a VRC issued in answer to a request, before it is signed.
#[derive(Debug)]
pub struct VrcDraft {
    pub issuer: String,
    pub valid_from: UtcTimestamp,
    pub name: Option<String>,
    pub description: Option<String>,
    /// Our persona DID
    pub from_did: String,
    pub from_name: Option<String>,
    pub from_also_known_as: Vec<String>,
    /// The requestor's persona DID
    pub to_did: String,
    pub to_name: Option<String>,
    pub to_also_known_as: Option<Vec<String>>,
    pub relationship_type: Option<String>,
    pub start_date: Option<UtcTimestamp>,
    pub end_date: Option<UtcTimestamp>,
}

fn clone_optional(t: &Option<String>) -> (res: Option<String>)
    ensures
        res == *t,
{
    match t {
        Some(s) => Some(s.clone()),
        None => None,
    }
}

/// The fields of the VRC issued for `request` over `relationship` by the
/// persona `persona_did` known as `friendly_name`, from the user's answers;
/// `now` is the time at which "now" answers are taken.
pub fn vrc_accept_fields(
    answers: VrcAcceptAnswers,
    request: &VrcRequest,
    relationship: &RelationshipDids,
    persona_did: &str,
    friendly_name: &str,
    now: UtcTimestamp,
) -> (draft: VrcDraft)
    requires
        answers.requestor_name is Suggested ==> request.name is Some,
        answers.relationship_type is Suggested ==> request.type_ is Some,
    ensures
        draft.issuer@ == persona_did@,
        draft.from_did@ == persona_did@,
        draft.to_did@ == relationship.remote_p_did@,
        draft.valid_from == (match answers.valid_from {
            ValidFromChoice::Now => now,
            ValidFromChoice::Custom(t) => t,
        }),
        optional_view(draft.name) == typed_answer(answers.vrc_name@),
        optional_view(draft.description) == typed_answer(answers.description@),
        optional_view(draft.from_name) == (match answers.issuer_name {
            IssuerName::Keep => Some(friendly_name@),
            IssuerName::Change(n) => typed_answer(n@),
            IssuerName::Omit => None,
        }),
        draft.from_also_known_as@.map_values(|d: String| d@) == (if relationship.our_did@
            != persona_did@ && answers.include_our_r_did {
            seq![relationship.our_did@]
        } else {
            Seq::<Seq<char>>::empty()
        }),
        optional_view(draft.to_name) == (match answers.requestor_name {
            RequestorName::Suggested => optional_view(request.name),
            RequestorName::Typed(n) => typed_answer(n@),
        }),
        (relationship.remote_did@ != relationship.remote_p_did@ && answers.include_their_r_did)
            ==> (draft.to_also_known_as matches Some(v) && v@.map_values(|d: String| d@)
            == seq![relationship.remote_did@]),
        !(relationship.remote_did@ != relationship.remote_p_did@ && answers.include_their_r_did)
            ==> draft.to_also_known_as is None,
        optional_view(draft.relationship_type) == (match answers.relationship_type {
            RelationshipTypeChoice::Omit => None,
            RelationshipTypeChoice::Custom(t) => Some(trimmed(t@)),
            RelationshipTypeChoice::Suggested => optional_view(request.type_),
        }),
        draft.start_date == (match answers.start_date {
            StartDateChoice::Relationship => Some(relationship.created),
            StartDateChoice::Now => Some(now),
            StartDateChoice::Custom(t) => Some(t),
            StartDateChoice::Omit => None,
        }),
        draft.end_date == (match answers.end_date {
            EndDateChoice::Now => Some(now),
            EndDateChoice::Custom(t) => Some(t),
            EndDateChoice::Omit => None,
        }),
{
    let from_name = match answers.issuer_name {
        IssuerName::Keep => Some(friendly_name.to_owned()),
        IssuerName::Change(name) => typed_text(name.as_str()),
        IssuerName::Omit => None,
    };
    let mut from_also_known_as: Vec<String> = Vec::new();
    if relationship.our_did != persona_did.to_owned() && answers.include_our_r_did {
        from_also_known_as.push(relationship.our_did.clone());
    }
    let to_name = match answers.requestor_name {
        RequestorName::Suggested => clone_optional(&request.name),
        RequestorName::Typed(name) => typed_text(name.as_str()),
    };
    let to_also_known_as = if relationship.remote_did != relationship.remote_p_did
        && answers.include_their_r_did {
        let mut v: Vec<String> = Vec::new();
        v.push(relationship.remote_did.clone());
        Some(v)
    } else {
        None
    };
    let relationship_type = match answers.relationship_type {
        RelationshipTypeChoice::Omit => None,
        RelationshipTypeChoice::Custom(t) => Some(trim(t.as_str())),
        RelationshipTypeChoice::Suggested => clone_optional(&request.type_),
    };
    let start_date = match answers.start_date {
        StartDateChoice::Relationship => Some(relationship.created),
        StartDateChoice::Now => Some(now),
        StartDateChoice::Custom(t) => Some(t),
        StartDateChoice::Omit => None,
    };
    let end_date = match answers.end_date {
        EndDateChoice::Now => Some(now),
        EndDateChoice::Custom(t) => Some(t),
        EndDateChoice::Omit => None,
    };
    let valid_from = match answers.valid_from {
        ValidFromChoice::Now => now,
        ValidFromChoice::Custom(t) => t,
    };
    proof {
        if from_also_known_as@.len() == 1 {
            assert(from_also_known_as@.map_values(|d: String| d@) =~= seq![relationship.our_did@]);
        } else {
            assert(from_also_known_as@.map_values(|d: String| d@) =~= Seq::<Seq<char>>::empty());
        }
        if let Some(v) = &to_also_known_as {
            assert(v@.map_values(|d: String| d@) =~= seq![relationship.remote_did@]);
        }
    }
    VrcDraft {
        issuer: persona_did.to_owned(),
        valid_from,
        name: typed_text(answers.vrc_name.as_str()),
        description: typed_text(answers.description.as_str()),
        from_did: persona_did.to_owned(),
        from_name,
        from_also_known_as,
        to_did: relationship.remote_p_did.clone(),
        to_name,
        to_also_known_as,
        relationship_type,
        start_date,
        end_date,
    }
}

/// A VRC kept by the profile: the persona DID of the other party, the VRC
/// as its JSON text, and whether we issued it (or received it).
#[derive(Clone, Debug)]
pub struct VrcRecord {
    pub p_did: String,
    pub vrc: String,
    pub issued: bool,
}

/// The VRCs the profile issued and received, by VRC ID.
pub type VrcIndex = KeyedList<VrcRecord>;

/// The relationship log entry written when the user removed a VRC.
pub open spec fn removed_vrc_text(id: Seq<char>) -> Seq<char> {
    "User removed VRC ID: "@ + id
}

/// Removes the VRC with ID `id`, once the user confirmed it. Returns whether
/// a VRC was removed; only then is the removal logged.
pub fn remove_vrc_by_id(vrcs: &mut VrcIndex, logs: &mut Logs, id: &str, confirmed: bool) -> (removed:
    bool)
    ensures
        removed == (confirmed && old(vrcs)@.contains_key(id@)),
        removed ==> final(vrcs)@ == old(vrcs)@.remove(id@) && log_texts(final(logs).messages@)
            == texts_after_insert(
            log_texts(old(logs).messages@),
            LogFamily::Relationship,
            removed_vrc_text(id@),
            old(logs).limit as nat,
        ),
        !removed ==> final(vrcs)@ == old(vrcs)@ && final(logs).messages@ == old(logs).messages@,
        final(logs).limit == old(logs).limit,
{
    if !confirmed || vrcs.get(id).is_none() {
        return false;
    }
    vrcs.remove(id);
    logs.insert(LogFamily::Relationship, "User removed VRC ID: ".to_owned().concat(id));
    true
}

/// The task log entry written when we issued a VRC.
pub open spec fn issued_vrc_text(p_did: Seq<char>, task_id: Seq<char>) -> Seq<char> {
    "Issued VRC for remote P-DID("@ + p_did + ") Task ID("@ + task_id + ")"@
}

/// After the VRC `vrc_id` answering the request of task `task_id` was signed
/// and sent to `their_p_did`: the VRC is kept as issued, the issue is logged
/// and the task removed.
pub fn record_issued_vrc(
    tasks: &mut Tasks,
    logs: &mut Logs,
    vrcs: &mut VrcIndex,
    task_id: &str,
    their_p_did: String,
    vrc_id: &str,
    vrc: String,
)
    ensures
        final(vrcs)@ == old(vrcs)@.insert(
            vrc_id@,
            VrcRecord { p_did: their_p_did, vrc, issued: true },
        ),
        final(tasks)@ == old(tasks)@.remove(task_id@),
        final(logs).limit == old(logs).limit,
        log_texts(final(logs).messages@) == texts_after_insert(
            log_texts(old(logs).messages@),
            LogFamily::Task,
            issued_vrc_text(their_p_did@, task_id@),
            old(logs).limit as nat,
        ),
{
    let text = "Issued VRC for remote P-DID(".to_owned().concat(their_p_did.as_str()).concat(
        ") Task ID(",
    ).concat(task_id).concat(")");
    vrcs.insert(vrc_id, VrcRecord { p_did: their_p_did, vrc, issued: true });
    logs.insert(LogFamily::Task, text);
    tasks.remove(task_id);
}

// ****************************************************************************
// Inbound VRC requests
// ****************************************************************************

/// The user's answer to an inbound VRC request.
#[derive(Debug)]
pub enum VrcRequestChoice {
    Accept,
    /// Reject, giving the reason typed in (none when blank), if confirmed.
    Reject { reason: String, confirmed: bool },
    /// Delete the request without answering, if confirmed.
    Delete { confirmed: bool },
    Back,
}

/// What follows the user's answer to an inbound VRC request.
#[derive(Debug)]
pub enum VrcRequestAction {
    /// Ask for the fields of the VRC to issue ([vrc_accept_fields]).
    IssueVrc,
    /// Send the rejection, then record it ([record_vrc_request_rejected]).
    SendRejection { reason: Option<String> },
    /// The request was deleted.
    Deleted,
    /// Nothing changed.
    Unchanged,
}

/// The task log entry written when a VRC request was deleted.
pub open spec fn deleted_request_text(from_p_did: Seq<char>, task_id: Seq<char>) -> Seq<char> {
    "Deleted VRC request from remote DID("@ + from_p_did + ") Task ID("@ + task_id + ")"@
}

/// Applies the user's answer to the VRC request of task `task_id` from the
/// persona `from_p_did`: a confirmed deletion removes the task and logs it;
/// accepting and a confirmed rejection lead to further steps; anything else
/// changes nothing.
pub fn inbound_vrc_request_step(
    tasks: &mut Tasks,
    logs: &mut Logs,
    task_id: &str,
    from_p_did: &str,
    choice: VrcRequestChoice,
) -> (action: VrcRequestAction)
    ensures
        match choice {
            VrcRequestChoice::Accept => action is IssueVrc,
            VrcRequestChoice::Reject { reason, confirmed } => if confirmed {
                action matches VrcRequestAction::SendRejection { reason: r } && optional_view(r)
                    == typed_answer(reason@)
            } else {
                action is Unchanged
            },
            VrcRequestChoice::Delete { confirmed } => if confirmed {
                action is Deleted
            } else {
                action is Unchanged
            },
            VrcRequestChoice::Back => action is Unchanged,
        },
        action is Deleted ==> {
            &&& final(tasks)@ == old(tasks)@.remove(task_id@)
            &&& final(logs).limit == old(logs).limit
            &&& log_texts(final(logs).messages@) == texts_after_insert(
                log_texts(old(logs).messages@),
                LogFamily::Task,
                deleted_request_text(from_p_did@, task_id@),
                old(logs).limit as nat,
            )
        },
        !(action is Deleted) ==> final(tasks)@ == old(tasks)@ && final(logs).messages@ == old(
            logs,
        ).messages@ && final(logs).limit == old(logs).limit,
{
    match choice {
        VrcRequestChoice::Accept => VrcRequestAction::IssueVrc,
        VrcRequestChoice::Reject { reason, confirmed } => {
            if confirmed {
                VrcRequestAction::SendRejection { reason: typed_text(reason.as_str()) }
            } else {
                VrcRequestAction::Unchanged
            }
        },
        VrcRequestChoice::Delete { confirmed } => {
            if confirmed {
                tasks.remove(task_id);
                logs.insert(
                    LogFamily::Task,
                    "Deleted VRC request from remote DID(".to_owned().concat(from_p_did).concat(
                        ") Task ID(",
                    ).concat(task_id).concat(")"),
                );
                VrcRequestAction::Deleted
            } else {
                VrcRequestAction::Unchanged
            }
        },
        VrcRequestChoice::Back => VrcRequestAction::Unchanged,
    }
}

/// The reason logged for a rejection.
pub open spec fn rejection_reason_or_none(reason: Option<&str>) -> Seq<char> {
    match reason {
        Some(r) => r@,
        None => "NO REASON PROVIDED"@,
    }
}

/// The task log entry written when we rejected a VRC request.
pub open spec fn rejected_request_text(from: Seq<char>, task_id: Seq<char>, reason: Seq<char>) -> Seq<
    char,
> {
    "Rejected VRC request from remote DID("@ + from + ") Task ID("@ + task_id + ") Reason: "@
        + reason
}

/// After the rejection of the VRC request of task `task_id` was sent to
/// `from`: the task is removed and the rejection logged.
pub fn record_vrc_request_rejected(
    tasks: &mut Tasks,
    logs: &mut Logs,
    task_id: &str,
    from: &str,
    reason: Option<&str>,
)
    ensures
        final(tasks)@ == old(tasks)@.remove(task_id@),
        final(logs).limit == old(logs).limit,
        log_texts(final(logs).messages@) == texts_after_insert(
            log_texts(old(logs).messages@),
            LogFamily::Task,
            rejected_request_text(from@, task_id@, rejection_reason_or_none(reason)),
            old(logs).limit as nat,
        ),
{
    tasks.remove(task_id);
    let reason_text = match reason {
        Some(r) => r.to_owned(),
        None => "NO REASON PROVIDED".to_owned(),
    };
    logs.insert(
        LogFamily::Task,
        "Rejected VRC request from remote DID(".to_owned().concat(from).concat(") Task ID(").concat(
            task_id,
        ).concat(") Reason: ").concat(reason_text.as_str()),
    );
}

// ****************************************************************************
// VRCs issued to us
// ****************************************************************************

/// The user's answer to a VRC issued to us.
#[derive(Debug)]
pub enum IssuedVrcChoice {
    Accept,
    /// Delete the VRC, if confirmed.
    Delete { confirmed: bool },
    Back,
}

/// The persona DID of the first relationship whose remote DID is `remote`.
pub open spec fn relationship_p_did(rels: Seq<RelationshipDids>, remote: Seq<char>) -> Option<String>
    decreases rels.len(),
{
    if rels.len() == 0 {
        None
    } else if rels[0].remote_did@ == remote {
        Some(rels[0].remote_p_did)
    } else {
        relationship_p_did(rels.drop_first(), remote)
    }
}

fn find_relationship_p_did(rels: &Vec<RelationshipDids>, remote: &str) -> (res: Option<String>)
    ensures
        res == relationship_p_did(rels@, remote@),
{
    let key = remote.to_owned();
    let mut i: usize = 0;
    assert(rels@.subrange(0, rels@.len() as int) =~= rels@);
    while i < rels.len()
        invariant
            i <= rels@.len(),
            key@ == remote@,
            relationship_p_did(rels@, remote@) == relationship_p_did(
                rels@.subrange(i as int, rels@.len() as int),
                remote@,
            ),
        decreases rels@.len() - i,
    {
        let ghost rest = rels@.subrange(i as int, rels@.len() as int);
        assert(rest[0] == rels@[i as int]);
        if rels[i].remote_did == key {
            return Some(rels[i].remote_p_did.clone());
        }
        assert(rest.drop_first() =~= rels@.subrange(i + 1, rels@.len() as int));
        i = i + 1;
    }
    None
}

/// The relationship log entry written when we accepted a VRC.
pub open spec fn accepted_vrc_text(task_id: Seq<char>) -> Seq<char> {
    "User accepted inbound VRC issued Task ID("@ + task_id + ")"@
}

/// The task log entry written when the task of an accepted VRC is removed.
pub open spec fn removing_task_text(task_id: Seq<char>) -> Seq<char> {
    "Removing Task ID("@ + task_id + ")"@
}

/// The task log entry written when we deleted a VRC issued to us.
pub open spec fn deleted_vrc_text(task_id: Seq<char>) -> Seq<char> {
    "User deleted inbound VRC issued Task ID("@ + task_id + ")"@
}

/// Applies the user's answer to the VRC `vrc` issued by `issuer`, of task
/// `task_id`, with VRC ID `vrc_id`. Accepting keeps it as received from the
/// persona DID of the relationship with the issuer (refused when there is
/// none), removes the task and logs;
/// a confirmed deletion removes the task and logs. Returns whether anything
/// changed.
pub fn inbound_vrc_step(
    tasks: &mut Tasks,
    logs: &mut Logs,
    vrcs: &mut VrcIndex,
    relationships: &Vec<RelationshipDids>,
    task_id: &str,
    issuer: &str,
    vrc_id: &str,
    vrc: String,
    choice: IssuedVrcChoice,
) -> (res: Result<bool, LKMVError>)
    ensures
        final(logs).limit == old(logs).limit,
        match choice {
            IssuedVrcChoice::Accept => match relationship_p_did(relationships@, issuer@) {
                None => {
                    &&& res matches Err(LKMVError::Config(m)) && m@
                        == "Couldn't find relationship for VRC Task"@
                    &&& final(tasks)@ == old(tasks)@
                    &&& final(logs).messages@ == old(logs).messages@
                    &&& final(vrcs)@ == old(vrcs)@
                },
                Some(p_did) => {
                    &&& res == Ok::<bool, LKMVError>(true)
                    &&& final(vrcs)@ == old(vrcs)@.insert(
                        vrc_id@,
                        VrcRecord { p_did, vrc, issued: false },
                    )
                    &&& final(tasks)@ == old(tasks)@.remove(task_id@)
                    &&& log_texts(final(logs).messages@) == texts_after_insert(
                        texts_after_insert(
                            log_texts(old(logs).messages@),
                            LogFamily::Relationship,
                            accepted_vrc_text(task_id@),
                            old(logs).limit as nat,
                        ),
                        LogFamily::Task,
                        removing_task_text(task_id@),
                        old(logs).limit as nat,
                    )
                },
            },
            IssuedVrcChoice::Delete { confirmed } => if confirmed {
                &&& res == Ok::<bool, LKMVError>(true)
                &&& final(vrcs)@ == old(vrcs)@
                &&& final(tasks)@ == old(tasks)@.remove(task_id@)
                &&& log_texts(final(logs).messages@) == texts_after_insert(
                    log_texts(old(logs).messages@),
                    LogFamily::Task,
                    deleted_vrc_text(task_id@),
                    old(logs).limit as nat,
                )
            } else {
                &&& res == Ok::<bool, LKMVError>(false)
                &&& final(vrcs)@ == old(vrcs)@
                &&& final(tasks)@ == old(tasks)@
                &&& final(logs).messages@ == old(logs).messages@
            },
            IssuedVrcChoice::Back => {
                &&& res == Ok::<bool, LKMVError>(false)
                &&& final(vrcs)@ == old(vrcs)@
                &&& final(tasks)@ == old(tasks)@
                &&& final(logs).messages@ == old(logs).messages@
            },
        },
{
    match choice {
        IssuedVrcChoice::Accept => {
            let p_did = match find_relationship_p_did(relationships, issuer) {
                Some(p_did) => p_did,
                None => {
                    return Err(LKMVError::Config("Couldn't find relationship for VRC Task".to_owned()));
                },
            };
            vrcs.insert(vrc_id, VrcRecord { p_did, vrc, issued: false });
            tasks.remove(task_id);
            logs.insert(
                LogFamily::Relationship,
                "User accepted inbound VRC issued Task ID(".to_owned().concat(task_id).concat(")"),
            );
            logs.insert(LogFamily::Task, "Removing Task ID(".to_owned().concat(task_id).concat(")"));
            Ok(true)
        },
        IssuedVrcChoice::Delete { confirmed } => {
            if confirmed {
                tasks.remove(task_id);
                logs.insert(
                    LogFamily::Task,
                    "User deleted inbound VRC issued Task ID(".to_owned().concat(task_id).concat(
                        ")",
                    ),
                );
                Ok(true)
            } else {
                Ok(false)
            }
        },
        IssuedVrcChoice::Back => Ok(false),
    }
}

/// The relationship log entry written when an issued VRC arrived for a
/// known task.
pub open spec fn vrc_updated_task_text(thid: Seq<char>) -> Seq<char> {
    "Inbound VRC issued updated Task ID("@ + thid + ")"@
}

/// Records a verified VRC `vrc` that arrived in message `message_id`: when
/// the message's thread ID names a known task, that task now holds the VRC
/// (and this is logged); otherwise a new task for the VRC is created under
/// the message ID. Returns whether a known task was updated.
pub fn record_inbound_vrc(
    tasks: &mut Tasks,
    logs: &mut Logs,
    thid: Option<&str>,
    message_id: &str,
    vrc: String,
) -> (updated: bool)
    ensures
        updated == (thid matches Some(t) && old(tasks)@.contains_key(t@)),
        final(logs).limit == old(logs).limit,
        updated ==> {
            let t = thid->Some_0@;
            &&& final(tasks)@ == old(tasks)@.insert(
                t,
                Task { type_: TaskType::VRCIssued { vrc }, ..old(tasks)@[t] },
            )
            &&& log_texts(final(logs).messages@) == texts_after_insert(
                log_texts(old(logs).messages@),
                LogFamily::Relationship,
                vrc_updated_task_text(t),
                old(logs).limit as nat,
            )
        },
        !updated ==> {
            &&& final(tasks)@ == old(tasks)@.insert(message_id@, final(tasks)@[message_id@])
            &&& final(tasks)@[message_id@].id@ == message_id@
            &&& final(tasks)@[message_id@].type_ == TaskType::VRCIssued { vrc }
            &&& final(logs).messages@ == old(logs).messages@
        },
{
    if let Some(t) = thid {
        if tasks.get_by_id(t).is_some() {
            tasks.set_type(t, TaskType::VRCIssued { vrc });
            logs.insert(
                LogFamily::Relationship,
                "Inbound VRC issued updated Task ID(".to_owned().concat(t).concat(")"),
            );
            return true;
        }
    }
    tasks.new_task(message_id, TaskType::VRCIssued { vrc });
    false
}

} // verus!
