//! Tasks: things that require action on behalf of the user, such as an
//! inbound relationship request or a VRC request, kept by task ID.
//!
//! A task list holds at most one task per ID: creating a task under an ID
//! that is already in use replaces the task stored under it.

use crate::errors::LKMVError;
use crate::logs::{log_after_insert, utc_now, LogFamily, LogMessage, Logs, UtcTimestamp};
use crate::relationships::RelationshipRequestBody;
use vstd::prelude::*;

verus! {

/// Defined Task Types for LKMV.
///
/// A relationship that a task belongs to is named by the persona DID of the
/// remote party; VRC requests and issued VRCs are held as the JSON message
/// bodies they arrived in.
#[derive(Debug)]
pub enum TaskType {
    RelationshipRequestOutbound,
    RelationshipRequestInbound { from: String, to: String, request: RelationshipRequestBody },
    RelationshipRequestRejected,
    RelationshipRequestAccepted,
    RelationshipRequestFinalized,
    TrustPing { from: String, to: String, relationship: String },
    TrustPong,
    VRCRequestOutbound { relationship: String },
    VRCRequestInbound { request: String, relationship: String },
    VRCRequestRejected,
    VRCIssued { vrc: String },
}

impl Clone for TaskType {
    fn clone(&self) -> (copy: Self)
        ensures
            copy == *self,
    {
        match self {
            TaskType::RelationshipRequestOutbound => TaskType::RelationshipRequestOutbound,
            TaskType::RelationshipRequestInbound { from, to, request } => {
                TaskType::RelationshipRequestInbound {
                    from: from.clone(),
                    to: to.clone(),
                    request: request.clone(),
                }
            },
            TaskType::RelationshipRequestRejected => TaskType::RelationshipRequestRejected,
            TaskType::RelationshipRequestAccepted => TaskType::RelationshipRequestAccepted,
            TaskType::RelationshipRequestFinalized => TaskType::RelationshipRequestFinalized,
            TaskType::TrustPing { from, to, relationship } => TaskType::TrustPing {
                from: from.clone(),
                to: to.clone(),
                relationship: relationship.clone(),
            },
            TaskType::TrustPong => TaskType::TrustPong,
            TaskType::VRCRequestOutbound { relationship } => TaskType::VRCRequestOutbound {
                relationship: relationship.clone(),
            },
            TaskType::VRCRequestInbound { request, relationship } => TaskType::VRCRequestInbound {
                request: request.clone(),
                relationship: relationship.clone(),
            },
            TaskType::VRCRequestRejected => TaskType::VRCRequestRejected,
            TaskType::VRCIssued { vrc } => TaskType::VRCIssued { vrc: vrc.clone() },
        }
    }
}

/// The friendly name shown for a task type.
pub open spec fn task_type_text(t: TaskType) -> Seq<char> {
    match t {
        TaskType::RelationshipRequestOutbound => "Relationship Request (Outbound)"@,
        TaskType::RelationshipRequestInbound { .. } => "Relationship Request (Inbound)"@,
        TaskType::RelationshipRequestRejected => "Relationship Request Rejected"@,
        TaskType::RelationshipRequestAccepted => "Relationship Request Accepted"@,
        TaskType::RelationshipRequestFinalized => "Relationship Request Finalized"@,
        TaskType::TrustPing { .. } => "Trust Ping Sent"@,
        TaskType::TrustPong => "Trust Pong Received"@,
        TaskType::VRCRequestOutbound { .. } => "VRC Request Sent"@,
        TaskType::VRCRequestInbound { .. } => "VRC Request Received"@,
        TaskType::VRCRequestRejected => "VRC Request Rejected"@,
        TaskType::VRCIssued { .. } => "VRC Issued"@,
    }
}

/// The name shown for each kind of task, whatever the task's details: the
/// direction of a request (inbound: received; outbound: sent) is part of it.
pub proof fn lemma_task_type_names(t: TaskType)
    ensures
        match t {
            TaskType::RelationshipRequestOutbound => task_type_text(t)
                == "Relationship Request (Outbound)"@,
            TaskType::RelationshipRequestInbound { .. } => task_type_text(t)
                == "Relationship Request (Inbound)"@,
            TaskType::RelationshipRequestRejected => task_type_text(t)
                == "Relationship Request Rejected"@,
            TaskType::RelationshipRequestAccepted => task_type_text(t)
                == "Relationship Request Accepted"@,
            TaskType::RelationshipRequestFinalized => task_type_text(t)
                == "Relationship Request Finalized"@,
            TaskType::TrustPing { .. } => task_type_text(t) == "Trust Ping Sent"@,
            TaskType::TrustPong => task_type_text(t) == "Trust Pong Received"@,
            TaskType::VRCRequestOutbound { .. } => task_type_text(t) == "VRC Request Sent"@,
            TaskType::VRCRequestInbound { .. } => task_type_text(t) == "VRC Request Received"@,
            TaskType::VRCRequestRejected => task_type_text(t) == "VRC Request Rejected"@,
            TaskType::VRCIssued { .. } => task_type_text(t) == "VRC Issued"@,
        },
{
}

/// A VRC request task's name tells its direction: an inbound request ends
/// with "Received", an outbound one with "Sent", for any request and
/// relationship.
pub proof fn lemma_vrc_request_direction(request: String, relationship: String)
    ensures
        task_type_text(TaskType::VRCRequestInbound { request, relationship }) == "VRC Request "@
            + "Received"@,
        task_type_text(TaskType::VRCRequestOutbound { relationship }) == "VRC Request "@
            + "Sent"@,
{
    reveal_strlit("VRC Request ");
    reveal_strlit("Received");
    reveal_strlit("Sent");
    reveal_strlit("VRC Request Received");
    reveal_strlit("VRC Request Sent");
    assert("VRC Request Received"@ =~= "VRC Request "@ + "Received"@);
    assert("VRC Request Sent"@ =~= "VRC Request "@ + "Sent"@);
}

impl TaskType {
    /// The friendly name shown for the task type.
    pub fn to_string(&self) -> (s: String)
        ensures
            s@ == task_type_text(*self),
    {
        let s = match self {
            TaskType::RelationshipRequestOutbound => "Relationship Request (Outbound)",
            TaskType::RelationshipRequestInbound { .. } => "Relationship Request (Inbound)",
            TaskType::RelationshipRequestRejected => "Relationship Request Rejected",
            TaskType::RelationshipRequestAccepted => "Relationship Request Accepted",
            TaskType::RelationshipRequestFinalized => "Relationship Request Finalized",
            TaskType::TrustPing { .. } => "Trust Ping Sent",
            TaskType::TrustPong => "Trust Pong Received",
            TaskType::VRCRequestOutbound { .. } => "VRC Request Sent",
            TaskType::VRCRequestInbound { .. } => "VRC Request Received",
            TaskType::VRCRequestRejected => "VRC Request Rejected",
            TaskType::VRCIssued { .. } => "VRC Issued",
        };
        s.to_owned()
    }
}

/// LKMV Task
#[derive(Debug)]
pub struct Task {
    /// ID of task
    pub id: String,
    /// Type of Task
    pub type_: TaskType,
    /// When the task was created
    pub created: UtcTimestamp,
}

impl Clone for Task {
    fn clone(&self) -> (copy: Self)
        ensures
            copy == *self,
    {
        Task { id: self.id.clone(), type_: self.type_.clone(), created: self.created }
    }
}

/// The tasks of a list, by ID.
pub open spec fn task_map(tasks: Seq<Task>) -> Map<Seq<char>, Task>
    decreases tasks.len(),
{
    if tasks.len() == 0 {
        Map::empty()
    } else {
        task_map(tasks.drop_last()).insert(tasks.last().id@, tasks.last())
    }
}

/// No two tasks of the list have the same ID.
pub open spec fn ids_unique(tasks: Seq<Task>) -> bool {
    forall|i: int, j: int| 0 <= i < j < tasks.len() ==> tasks[i].id@ != tasks[j].id@
}

/// With IDs unique, the map of a list holds exactly the list's tasks, each
/// under its own ID, and has as many entries as the list.
proof fn lemma_task_map(tasks: Seq<Task>)
    requires
        ids_unique(tasks),
    ensures
        task_map(tasks).dom().finite(),
        task_map(tasks).len() == tasks.len(),
        forall|i: int|
            0 <= i < tasks.len() ==> #[trigger] task_map(tasks).contains_key(tasks[i].id@)
                && task_map(tasks)[tasks[i].id@] == tasks[i],
        forall|k: Seq<char>|
            #[trigger] task_map(tasks).contains_key(k) ==> exists|i: int|
                0 <= i < tasks.len() && tasks[i].id@ == k,
    decreases tasks.len(),
{
    if tasks.len() > 0 {
        let rest = tasks.drop_last();
        assert(ids_unique(rest));
        lemma_task_map(rest);
        let last = tasks.last();
        assert(!task_map(rest).contains_key(last.id@)) by {
            if task_map(rest).contains_key(last.id@) {
                let i = choose|i: int| 0 <= i < rest.len() && rest[i].id@ == last.id@;
                assert(tasks[i].id@ == tasks[tasks.len() - 1].id@);
            }
        }
        assert forall|i: int| 0 <= i < tasks.len() implies #[trigger] task_map(
            tasks,
        ).contains_key(tasks[i].id@) && task_map(tasks)[tasks[i].id@] == tasks[i] by {
            if i < tasks.len() - 1 {
                assert(rest[i] == tasks[i]);
                assert(tasks[i].id@ != last.id@);
            }
        }
        assert forall|k: Seq<char>| #[trigger] task_map(tasks).contains_key(k) implies exists|
            i: int,
        | 0 <= i < tasks.len() && tasks[i].id@ == k by {
            if k == last.id@ {
                assert(tasks[tasks.len() - 1].id@ == k);
            } else {
                assert(task_map(rest).contains_key(k));
                let i = choose|i: int| 0 <= i < rest.len() && rest[i].id@ == k;
                assert(tasks[i] == rest[i]);
            }
        }
    }
}

/// Replacing the task at a position by one with the same ID replaces the
/// task stored under that ID.
proof fn lemma_task_map_update(tasks: Seq<Task>, i: int, task: Task)
    requires
        ids_unique(tasks),
        0 <= i < tasks.len(),
        task.id@ == tasks[i].id@,
    ensures
        ids_unique(tasks.update(i, task)),
        task_map(tasks.update(i, task)) == task_map(tasks).insert(task.id@, task),
{
    let updated = tasks.update(i, task);
    assert(ids_unique(updated)) by {
        assert forall|a: int, b: int| 0 <= a < b < updated.len() implies updated[a].id@
            != updated[b].id@ by {
            assert(updated[a].id@ == tasks[a].id@);
            assert(updated[b].id@ == tasks[b].id@);
        }
    }
    lemma_task_map(tasks);
    lemma_task_map(updated);
    let lhs = task_map(updated);
    let rhs = task_map(tasks).insert(task.id@, task);
    assert forall|k: Seq<char>| #[trigger] lhs.contains_key(k) == rhs.contains_key(k) by {
        if lhs.contains_key(k) {
            let j = choose|j: int| 0 <= j < updated.len() && updated[j].id@ == k;
            assert(tasks[j].id@ == k);
            assert(task_map(tasks).contains_key(tasks[j].id@));
        }
        if task_map(tasks).contains_key(k) {
            let j = choose|j: int| 0 <= j < tasks.len() && tasks[j].id@ == k;
            assert(updated[j].id@ == k);
            assert(lhs.contains_key(updated[j].id@));
        }
        if k == task.id@ {
            assert(lhs.contains_key(updated[i].id@));
        }
    }
    assert forall|k: Seq<char>| #[trigger] lhs.contains_key(k) implies lhs[k] == rhs[k] by {
        let j = choose|j: int| 0 <= j < updated.len() && updated[j].id@ == k;
        assert(lhs[updated[j].id@] == updated[j]);
        if j == i {
            assert(k == task.id@);
        } else {
            assert(tasks[j].id@ == k);
            assert(task_map(tasks)[tasks[j].id@] == tasks[j]);
            assert(k != task.id@) by {
                assert(tasks[i].id@ != tasks[j].id@);
            }
        }
    }
    assert(lhs =~= rhs);
}

/// Removing the task at a position removes its ID from the map.
proof fn lemma_task_map_remove(tasks: Seq<Task>, i: int)
    requires
        ids_unique(tasks),
        0 <= i < tasks.len(),
    ensures
        ids_unique(tasks.remove(i)),
        task_map(tasks.remove(i)) == task_map(tasks).remove(tasks[i].id@),
{
    let removed = tasks.remove(i);
    assert(ids_unique(removed)) by {
        assert forall|a: int, b: int| 0 <= a < b < removed.len() implies removed[a].id@
            != removed[b].id@ by {
            let ta = if a < i { a } else { a + 1 };
            let tb = if b < i { b } else { b + 1 };
            assert(removed[a] == tasks[ta]);
            assert(removed[b] == tasks[tb]);
        }
    }
    lemma_task_map(tasks);
    lemma_task_map(removed);
    let gone = tasks[i].id@;
    let lhs = task_map(removed);
    let rhs = task_map(tasks).remove(gone);
    assert forall|k: Seq<char>| #[trigger] lhs.contains_key(k) == rhs.contains_key(k) by {
        if lhs.contains_key(k) {
            let j = choose|j: int| 0 <= j < removed.len() && removed[j].id@ == k;
            let tj = if j < i { j } else { j + 1 };
            assert(removed[j] == tasks[tj]);
            assert(task_map(tasks).contains_key(tasks[tj].id@));
            assert(tasks[tj].id@ != gone);
        }
        if rhs.contains_key(k) {
            let j = choose|j: int| 0 <= j < tasks.len() && tasks[j].id@ == k;
            assert(j != i);
            let rj = if j < i { j } else { j - 1 };
            assert(removed[rj] == tasks[j]);
            assert(lhs.contains_key(removed[rj].id@));
        }
    }
    assert forall|k: Seq<char>| #[trigger] lhs.contains_key(k) implies lhs[k] == rhs[k] by {
        let j = choose|j: int| 0 <= j < removed.len() && removed[j].id@ == k;
        let tj = if j < i { j } else { j + 1 };
        assert(removed[j] == tasks[tj]);
        assert(lhs[removed[j].id@] == removed[j]);
        assert(task_map(tasks)[tasks[tj].id@] == tasks[tj]);
    }
    assert(lhs =~= rhs);
}

/// Appending a task with a new ID adds it to the map.
proof fn lemma_task_map_push(tasks: Seq<Task>, task: Task)
    requires
        ids_unique(tasks),
        forall|j: int| 0 <= j < tasks.len() ==> tasks[j].id@ != task.id@,
    ensures
        ids_unique(tasks.push(task)),
        task_map(tasks.push(task)) == task_map(tasks).insert(task.id@, task),
{
    assert(tasks.push(task).drop_last() =~= tasks);
    assert(ids_unique(tasks.push(task))) by {
        assert forall|a: int, b: int| 0 <= a < b < tasks.push(task).len() implies tasks.push(
            task,
        )[a].id@ != tasks.push(task)[b].id@ by {
            if b == tasks.len() {
                assert(tasks.push(task)[a] == tasks[a]);
            } else {
                assert(tasks.push(task)[a] == tasks[a]);
                assert(tasks.push(task)[b] == tasks[b]);
            }
        }
    }
}

/// The position of the task with ID `id`, if the list holds one.
fn find_task(tasks: &Vec<Task>, id: &String) -> (pos: Option<usize>)
    ensures
        match pos {
            Some(i) => i < tasks@.len() && tasks@[i as int].id@ == id@,
            None => forall|j: int| 0 <= j < tasks@.len() ==> tasks@[j].id@ != id@,
        },
{
    let mut i: usize = 0;
    while i < tasks.len()
        invariant
            i <= tasks@.len(),
            forall|j: int| 0 <= j < i ==> tasks@[j].id@ != id@,
        decreases tasks@.len() - i,
    {
        if tasks[i].id == *id {
            return Some(i);
        }
        i = i + 1;
    }
    None
}

/// Known Tasks that are in progress, by task ID.
#[derive(Debug)]
pub struct Tasks {
    tasks: Vec<Task>,
}

impl View for Tasks {
    type V = Map<Seq<char>, Task>;

    closed spec fn view(&self) -> Map<Seq<char>, Task> {
        task_map(self.tasks@)
    }
}

impl Default for Tasks {
    fn default() -> (tasks: Self)
        ensures
            tasks@ == Map::<Seq<char>, Task>::empty(),
    {
        Tasks { tasks: Vec::new() }
    }
}

impl Tasks {
    #[verifier::type_invariant]
    spec fn one_task_per_id(self) -> bool {
        ids_unique(self.tasks@)
    }

    /// The order in which the tasks are listed.
    pub closed spec fn listing(&self) -> Seq<Task> {
        self.tasks@
    }

    /// Creates and adds a new Task to list of tasks, replacing the task
    /// stored under the same ID if there is one. Returns the new task.
    pub fn new_task(&mut self, id: &str, type_: TaskType) -> (task: Task)
        ensures
            task.id@ == id@,
            task.type_ == type_,
            final(self)@ == old(self)@.insert(id@, task),
    {
        proof {
            use_type_invariant(&*self);
        }
        let task = Task { id: id.to_owned(), type_, created: utc_now() };
        let copy = task.clone();
        let mut tasks: Vec<Task> = Vec::new();
        std::mem::swap(&mut tasks, &mut self.tasks);
        match find_task(&tasks, &task.id) {
            Some(i) => {
                proof {
                    lemma_task_map_update(tasks@, i as int, task);
                }
                tasks.set(i, task);
            },
            None => {
                proof {
                    lemma_task_map_push(tasks@, task);
                }
                tasks.push(task);
            },
        }
        self.tasks = tasks;
        copy
    }

    /// Changes the type of the task stored under `id`, if there is one,
    /// keeping its ID and creation time. Returns whether there was one.
    pub fn set_type(&mut self, id: &str, type_: TaskType) -> (found: bool)
        ensures
            found == old(self)@.contains_key(id@),
            found ==> final(self)@ == old(self)@.insert(id@, Task { type_, ..old(self)@[id@] }),
            !found ==> final(self)@ == old(self)@,
    {
        proof {
            use_type_invariant(&*self);
            lemma_task_map(self.tasks@);
        }
        let key = id.to_owned();
        let mut tasks: Vec<Task> = Vec::new();
        std::mem::swap(&mut tasks, &mut self.tasks);
        let found = match find_task(&tasks, &key) {
            Some(i) => {
                let task = Task { id: tasks[i].id.clone(), type_, created: tasks[i].created };
                proof {
                    assert(task_map(tasks@).contains_key(tasks@[i as int].id@));
                    assert(task_map(tasks@)[tasks@[i as int].id@] == tasks@[i as int]);
                    lemma_task_map_update(tasks@, i as int, task);
                }
                tasks.set(i, task);
                true
            },
            None => false,
        };
        self.tasks = tasks;
        found
    }

    /// Removes a task by ID. Returns whether there was one.
    pub fn remove(&mut self, id: &str) -> (removed: bool)
        ensures
            removed == old(self)@.contains_key(id@),
            final(self)@ == old(self)@.remove(id@),
    {
        proof {
            use_type_invariant(&*self);
            lemma_task_map(self.tasks@);
        }
        let key = id.to_owned();
        let mut tasks: Vec<Task> = Vec::new();
        std::mem::swap(&mut tasks, &mut self.tasks);
        let removed = match find_task(&tasks, &key) {
            Some(i) => {
                proof {
                    lemma_task_map_remove(tasks@, i as int);
                }
                tasks.remove(i);
                true
            },
            None => {
                assert(task_map(tasks@).remove(id@) =~= task_map(tasks@));
                false
            },
        };
        self.tasks = tasks;
        removed
    }

    /// Returns the task at position `pos` of the listing, if there is one.
    /// Insertions and removals can change which task stands at a position.
    pub fn get_by_pos(&self, pos: usize) -> (task: Option<&Task>)
        ensures
            task is Some <==> pos < self@.len(),
            task == (if pos < self.listing().len() {
                Some(&self.listing()[pos as int])
            } else {
                None
            }),
            task matches Some(t) ==> self@.contains_key(t.id@) && self@[t.id@] == *t,
    {
        proof {
            use_type_invariant(self);
            lemma_task_map(self.tasks@);
        }
        if pos < self.tasks.len() {
            Some(&self.tasks[pos])
        } else {
            None
        }
    }

    /// Retrieves a task by ID or returns None
    pub fn get_by_id(&self, id: &str) -> (task: Option<&Task>)
        ensures
            task == (if self@.contains_key(id@) {
                Some(&self@[id@])
            } else {
                None
            }),
    {
        proof {
            use_type_invariant(self);
            lemma_task_map(self.tasks@);
        }
        let key = id.to_owned();
        match find_task(&self.tasks, &key) {
            Some(i) => Some(&self.tasks[i]),
            None => None,
        }
    }

    /// Clears all tasks. Returns true if any tasks were removed, false if no
    /// changes were made.
    pub fn clear(&mut self) -> (changed: bool)
        ensures
            changed == (old(self)@.len() > 0),
            final(self)@ == Map::<Seq<char>, Task>::empty(),
    {
        proof {
            use_type_invariant(&*self);
            lemma_task_map(self.tasks@);
        }
        let changed = self.tasks.len() > 0;
        self.tasks = Vec::new();
        changed
    }

    /// The number of tasks.
    pub fn len(&self) -> (count: usize)
        ensures
            count == self@.len(),
            count == self.listing().len(),
    {
        proof {
            use_type_invariant(self);
            lemma_task_map(self.tasks@);
        }
        self.tasks.len()
    }
}

/// Looking up an ID right after a task was created under it gives that task,
/// and the tasks under other IDs are what they were.
pub proof fn lemma_lookup_after_new_task(before: Map<Seq<char>, Task>, id: Seq<char>, task: Task)
    ensures
        before.insert(id, task).contains_key(id),
        before.insert(id, task)[id] == task,
        forall|k: Seq<char>|
            k != id ==> (#[trigger] before.insert(id, task).contains_key(k) == before.contains_key(
                k,
            )) && (before.contains_key(k) ==> before.insert(id, task)[k] == before[k]),
{
}

/// Creating a task under an unused ID and then removing that ID gives back
/// the tasks as they were; a second removal of the ID finds nothing.
pub proof fn lemma_remove_undoes_new_task(before: Map<Seq<char>, Task>, id: Seq<char>, task: Task)
    requires
        !before.contains_key(id),
    ensures
        before.insert(id, task).contains_key(id),
        before.insert(id, task).remove(id) == before,
        !before.insert(id, task).remove(id).contains_key(id),
{
    assert(before.insert(id, task).remove(id) =~= before);
}

// ****************************************************************************
// Rejected VRC requests
// ****************************************************************************

/// The reason recorded when a VRC request was rejected: the one the remote
/// party gave, or a placeholder when it gave none.
pub open spec fn vrc_reject_reason(reason: Option<&str>) -> Seq<char> {
    match reason {
        Some(reason) => reason@,
        None => "NO REASON PROVIDED"@,
    }
}

/// The relationship log entry written when a VRC request was rejected.
pub open spec fn vrc_reject_relationship_text(task_id: Seq<char>, reason: Seq<char>) -> Seq<char> {
    "Removed VRC ("@ + task_id + ") request as rejected by remote entity Reason: "@ + reason
}

/// The task log entry written when a VRC request was rejected.
pub open spec fn vrc_reject_task_text(from: Seq<char>, task_id: Seq<char>, reason: Seq<char>) -> Seq<
    char,
> {
    "VRC request rejected by remote DID("@ + from + ") Task ID("@ + task_id + ") Reason("@ + reason
        + ")"@
}

/// Handles rejection of a VRC request by the remote party `from`: the
/// request's task is removed, and a relationship entry and then a task entry
/// are logged, both with the reason.
pub fn handle_vrc_reject(
    logs: &mut Logs,
    tasks: &mut Tasks,
    task_id: &str,
    reason: Option<&str>,
    from: &str,
) -> (res: Result<(), LKMVError>)
    ensures
        res is Ok,
        final(tasks)@ == old(tasks)@.remove(task_id@),
        final(logs).limit == old(logs).limit,
        exists|first: LogMessage, second: LogMessage|
            {
                &&& first.type_ == LogFamily::Relationship
                &&& first.message@ == vrc_reject_relationship_text(
                    task_id@,
                    vrc_reject_reason(reason),
                )
                &&& second.type_ == LogFamily::Task
                &&& second.message@ == vrc_reject_task_text(
                    from@,
                    task_id@,
                    vrc_reject_reason(reason),
                )
                &&& final(logs).messages@ == log_after_insert(
                    log_after_insert(old(logs).messages@, first, old(logs).limit as nat),
                    second,
                    old(logs).limit as nat,
                )
            },
{
    let reason_text: String = match reason {
        Some(reason) => reason.to_owned(),
        None => "NO REASON PROVIDED".to_owned(),
    };
    let first_text = "Removed VRC (".to_owned().concat(task_id).concat(
        ") request as rejected by remote entity Reason: ",
    ).concat(reason_text.as_str());
    let ghost first_view = first_text@;
    let ghost before = logs.messages@;
    logs.insert(LogFamily::Relationship, first_text);
    let ghost first = choose|entry: LogMessage|
        entry.type_ == LogFamily::Relationship && entry.message@ == first_view
            && logs.messages@ == log_after_insert(before, entry, logs.limit as nat);
    tasks.remove(task_id);
    let second_text = "VRC request rejected by remote DID(".to_owned().concat(from).concat(
        ") Task ID(",
    ).concat(task_id).concat(") Reason(").concat(reason_text.as_str()).concat(")");
    let ghost second_view = second_text@;
    let ghost middle = logs.messages@;
    logs.insert(LogFamily::Task, second_text);
    let ghost second = choose|entry: LogMessage|
        entry.type_ == LogFamily::Task && entry.message@ == second_view
            && logs.messages@ == log_after_insert(middle, entry, logs.limit as nat);
    assert(first.message@ == vrc_reject_relationship_text(task_id@, vrc_reject_reason(reason)));
    assert(second.message@ == vrc_reject_task_text(from@, task_id@, vrc_reject_reason(reason)));
    Ok(())
}

} // verus!
