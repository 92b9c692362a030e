//! Manages a log of messages that can be helpful to see what has happened in the past.
//!
//! The log keeps at most `limit` entries: inserting into a full log drops the
//! oldest entry.

use chrono::Utc;
use std::collections::VecDeque;
use vstd::prelude::*;

verus! {

/// A point in UTC time: whole seconds since the Unix epoch and the
/// nanoseconds within that second.
#[derive(Clone, Copy, Debug, PartialEq, Eq, Structural)]
pub struct UtcTimestamp {
    pub secs: i64,
    pub nanos: u32,
}

/// Calls `chrono::Utc::now` and reads its seconds and sub-second nanoseconds.
/// Nothing is claimed of the time it returns.
#[verifier::external_body]
pub fn utc_now() -> UtcTimestamp {
    let now = Utc::now();
    UtcTimestamp { secs: now.timestamp(), nanos: now.timestamp_subsec_nanos() }
}

/// What a log entry is related to.
#[derive(Clone, Copy, Debug, PartialEq, Eq, Structural)]
pub enum LogFamily {
    Relationship,
    Contact,
    Task,
    Config,
}

/// The text shown for a log family.
pub open spec fn log_family_text(f: LogFamily) -> Seq<char> {
    match f {
        LogFamily::Relationship => "RELATIONSHIP"@,
        LogFamily::Contact => "CONTACT"@,
        LogFamily::Task => "TASK"@,
        LogFamily::Config => "CONFIG"@,
    }
}

impl LogFamily {
    /// The text shown for this log family.
    pub fn to_string(&self) -> (s: String)
        ensures
            s@ == log_family_text(*self),
    {
        let s = match self {
            LogFamily::Relationship => "RELATIONSHIP",
            LogFamily::Contact => "CONTACT",
            LogFamily::Task => "TASK",
            LogFamily::Config => "CONFIG",
        };
        s.to_owned()
    }
}

/// Log Messages
#[derive(Clone, Debug)]
pub struct LogMessage {
    /// When the log message was created
    pub created: UtcTimestamp,
    /// What type of log is this related to?
    pub type_: LogFamily,
    /// Log Message
    pub message: String,
}

/// Ordered log of messages, oldest first.
#[derive(Clone, Debug)]
pub struct Logs {
    pub messages: VecDeque<LogMessage>,
    /// Max number of entries to keep
    pub limit: usize,
}

impl Default for Logs {
    fn default() -> (logs: Self)
        ensures
            logs.messages@.len() == 0,
            logs.limit == 100,
    {
        Self { messages: VecDeque::new(), limit: 100 }
    }
}

/// The `limit` most recent of `entries` (all of them when there are fewer).
pub open spec fn most_recent<T>(entries: Seq<T>, limit: nat) -> Seq<T> {
    if entries.len() > limit {
        entries.subrange(entries.len() - limit, entries.len() as int)
    } else {
        entries
    }
}

/// The entries of a log after `entry` was inserted into a log holding
/// `entries`, with room for `limit` entries: the `limit` most recent of the
/// old entries and the new one.
pub open spec fn log_after_insert(entries: Seq<LogMessage>, entry: LogMessage, limit: nat) -> Seq<
    LogMessage,
> {
    most_recent(entries.push(entry), limit)
}

/// What the entries of a log say: the family and text of each, oldest first.
pub open spec fn log_texts(entries: Seq<LogMessage>) -> Seq<(LogFamily, Seq<char>)> {
    entries.map_values(|m: LogMessage| (m.type_, m.message@))
}

/// What a log says after an entry of family `family` and text `text` was
/// inserted into a log that said `texts`, with room for `limit` entries.
pub open spec fn texts_after_insert(
    texts: Seq<(LogFamily, Seq<char>)>,
    family: LogFamily,
    text: Seq<char>,
    limit: nat,
) -> Seq<(LogFamily, Seq<char>)> {
    most_recent(texts.push((family, text)), limit)
}

proof fn lemma_texts_after_insert(entries: Seq<LogMessage>, entry: LogMessage, limit: nat)
    ensures
        log_texts(log_after_insert(entries, entry, limit)) == texts_after_insert(
            log_texts(entries),
            entry.type_,
            entry.message@,
            limit,
        ),
{
    let all = entries.push(entry);
    assert(log_texts(all) =~= log_texts(entries).push((entry.type_, entry.message@)));
    if all.len() > limit {
        assert(log_texts(all.subrange(all.len() - limit, all.len() as int)) =~= log_texts(
            all,
        ).subrange(all.len() - limit, all.len() as int));
    }
}

impl Logs {
    /// Insert a new log entry message to the log
    /// Handles keeping the log messages within the limit
    pub fn insert(&mut self, type_: LogFamily, message: String)
        ensures
            final(self).limit == old(self).limit,
            exists|entry: LogMessage|
                entry.type_ == type_ && entry.message == message && final(self).messages@
                    == log_after_insert(old(self).messages@, entry, old(self).limit as nat),
            log_texts(final(self).messages@) == texts_after_insert(
                log_texts(old(self).messages@),
                type_,
                message@,
                old(self).limit as nat,
            ),
    {
        let created = utc_now();
        let ghost entry = LogMessage { created, type_, message };
        self.insert_at(created, type_, message);
        assert(entry.type_ == type_ && entry.message == message);
    }

    /// Inserts a new log entry created at `created`: the new entry is the
    /// newest of the log, and it carries `created`, `type_` and `message`.
    /// Handles keeping the log messages within the limit.
    pub fn insert_at(&mut self, created: UtcTimestamp, type_: LogFamily, message: String)
        ensures
            final(self).limit == old(self).limit,
            final(self).messages@ == log_after_insert(
                old(self).messages@,
                (LogMessage { created, type_, message }),
                old(self).limit as nat,
            ),
            old(self).limit > 0 ==> final(self).messages@.last().created == created
                && final(self).messages@.last().type_ == type_
                && final(self).messages@.last().message == message,
            log_texts(final(self).messages@) == texts_after_insert(
                log_texts(old(self).messages@),
                type_,
                message@,
                old(self).limit as nat,
            ),
    {
        let entry = LogMessage { created, type_, message };
        let ghost before = self.messages@;
        self.push_entry(entry);
        proof {
            lemma_texts_after_insert(before, entry, self.limit as nat);
            lemma_insert_keeps_most_recent(before, entry, self.limit as nat);
        }
    }

    /// Appends an entry to the log, then drops the oldest entries while the
    /// log holds more than `limit` entries.
    pub fn push_entry(&mut self, entry: LogMessage)
        ensures
            final(self).limit == old(self).limit,
            final(self).messages@ == log_after_insert(
                old(self).messages@,
                entry,
                old(self).limit as nat,
            ),
    {
        let ghost all = self.messages@.push(entry);
        self.messages.push_back(entry);
        assert(self.messages@ =~= all.subrange(0, all.len() as int));
        while self.messages.len() > self.limit
            invariant
                self.messages@.len() <= all.len(),
                self.messages@ == all.subrange(
                    all.len() - self.messages@.len(),
                    all.len() as int,
                ),
                self.messages@.len() >= self.limit || self.messages@.len() == all.len(),
                self.limit == old(self).limit,
                all == old(self).messages@.push(entry),
            decreases self.messages@.len(),
        {
            let ghost before = self.messages@;
            self.messages.pop_front();
            assert(self.messages@ =~= all.subrange(
                all.len() - self.messages@.len(),
                all.len() as int,
            ));
        }
        proof {
            if all.len() <= self.limit {
                assert(self.messages@ =~= all);
            }
        }
    }
}

/// Inserting into a log leaves it holding at most `limit` entries, exactly
/// the `limit` most recent of its entries and the new one: the newest entry
/// is always kept (when there is room for any), the oldest dropped first.
pub proof fn lemma_insert_keeps_most_recent(entries: Seq<LogMessage>, entry: LogMessage, limit: nat)
    ensures
        log_after_insert(entries, entry, limit).len() <= limit,
        log_after_insert(entries, entry, limit).len() == (if entries.len() + 1 <= limit {
            entries.len() + 1
        } else {
            limit
        }),
        limit > 0 ==> log_after_insert(entries, entry, limit).last() == entry,
        entries.len() < limit ==> log_after_insert(entries, entry, limit) == entries.push(entry),
{
}

} // verus!
