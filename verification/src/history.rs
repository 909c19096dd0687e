//! Message history tracking for debugging and diagnostics.

use vstd::prelude::*;
use crate::json::json_method;
use crate::json::json_method_of;
use crate::table::StrMap;

verus! {

/// Type of message in the history.
#[derive(Debug, Clone, Copy, PartialEq, Eq, Hash, Structural)]
pub enum MessageType {
    Send,
    Receive,
    Push,
}

/// A recorded message in the history.
#[derive(Debug, Clone)]
pub struct HistoryEntry {
    pub msg_type: MessageType,
    pub method: String,
    pub message: String,
    /// Milliseconds on the caller's clock when the message was recorded.
    pub timestamp_ms: u64,
}

/// Tracks message history for debugging: the last message per method for
/// each message type, a bounded entry list, and the last error text.
#[derive(Debug, Clone)]
pub struct MessageHistory {
    pub send_log: StrMap<String>,
    pub receive_log: StrMap<String>,
    pub push_log: StrMap<String>,
    pub last_error: Option<String>,
    pub entries: Vec<HistoryEntry>,
    pub max_entries: usize,
}

/// Summary of message history for diagnostics.
#[derive(Debug, Clone)]
pub struct HistorySummary {
    pub send_count: usize,
    pub receive_count: usize,
    pub push_count: usize,
    pub total_entries: usize,
    pub last_error: Option<String>,
}

impl MessageHistory {
    /// The default bound on the entry list.
    pub const DEFAULT_MAX_ENTRIES: usize = 100;

    /// The last message recorded under each method name, for one type.
    pub open spec fn log_of(self, t: MessageType) -> Map<Seq<char>, String> {
        match t {
            MessageType::Send => self.send_log@,
            MessageType::Receive => self.receive_log@,
            MessageType::Push => self.push_log@,
        }
    }

    /// The recorded entries, oldest first.
    pub open spec fn spec_entries(self) -> Seq<HistoryEntry> {
        self.entries@
    }

    /// The last recorded error text.
    pub open spec fn spec_last_error(self) -> Option<String> {
        self.last_error
    }

    /// The bound on the entry list.
    pub open spec fn spec_max_entries(self) -> usize {
        self.max_entries
    }

    pub open spec fn wf(self) -> bool {
        self.send_log.wf() && self.receive_log.wf() && self.push_log.wf()
    }

    /// An empty history with the default entry bound.
    pub fn new() -> (r: Self)
        ensures
            r.wf(),
            r.log_of(MessageType::Send) == Map::<Seq<char>, String>::empty(),
            r.log_of(MessageType::Receive) == Map::<Seq<char>, String>::empty(),
            r.log_of(MessageType::Push) == Map::<Seq<char>, String>::empty(),
            r.spec_last_error() is None,
            r.spec_entries() == Seq::<HistoryEntry>::empty(),
            r.spec_max_entries() == 100,
    {
        MessageHistory {
            send_log: StrMap::new(),
            receive_log: StrMap::new(),
            push_log: StrMap::new(),
            last_error: None,
            entries: Vec::new(),
            max_entries: 100,
        }
    }

    /// An empty history bounded to `max_entries` entries.
    pub fn with_max_entries(max_entries: usize) -> (r: Self)
        ensures
            r.wf(),
            r.log_of(MessageType::Send) == Map::<Seq<char>, String>::empty(),
            r.log_of(MessageType::Receive) == Map::<Seq<char>, String>::empty(),
            r.log_of(MessageType::Push) == Map::<Seq<char>, String>::empty(),
            r.spec_last_error() is None,
            r.spec_entries() == Seq::<HistoryEntry>::empty(),
            r.spec_max_entries() == max_entries,
    {
        MessageHistory {
            send_log: StrMap::new(),
            receive_log: StrMap::new(),
            push_log: StrMap::new(),
            last_error: None,
            entries: Vec::new(),
            max_entries,
        }
    }

    /// Record a message. A message without a top-level `method` string is
    /// ignored. Otherwise the message becomes the last one of its method for
    /// its type, and joins the entry list; when the list outgrows the bound,
    /// the oldest entry leaves.
    pub fn record(&mut self, msg_type: MessageType, message: &str, now_ms: u64)
        requires
            old(self).wf(),
        ensures
            final (self).wf(),
            final (self).spec_max_entries() == old(self).spec_max_entries(),
            final (self).spec_last_error() == old(self).spec_last_error(),
            json_method_of(message@) is None ==> *final (self) == *old(self),
            json_method_of(message@) matches Some(m) ==> exists|e: HistoryEntry|
                #![auto]
                {
                    &&& e.message@ == message@
                    &&& e.method@ == m
                    &&& e.msg_type == msg_type
                    &&& e.timestamp_ms == now_ms
                    &&& final (self).log_of(msg_type) == old(self).log_of(msg_type).insert(
                        m,
                        e.message,
                    )
                    &&& forall|t: MessageType|
                        t != msg_type ==> final (self).log_of(t) == old(self).log_of(t)
                    &&& final (self).spec_entries() == if old(self).spec_entries().len() + 1 > old(
                        self,
                    ).spec_max_entries() {
                        old(self).spec_entries().push(e).skip(1)
                    } else {
                        old(self).spec_entries().push(e)
                    }
                },
    {
        let Some(method) = json_method(message) else { return };
        let owned = message.to_owned();
        let entry = HistoryEntry {
            msg_type,
            method: method.clone(),
            message: owned.clone(),
            timestamp_ms: now_ms,
        };
        let ghost gentry = entry;
        match msg_type {
            MessageType::Send => self.send_log.insert(method, owned),
            MessageType::Receive => self.receive_log.insert(method, owned),
            MessageType::Push => self.push_log.insert(method, owned),
        }
        self.entries.push(entry);
        if self.entries.len() > self.max_entries {
            self.entries.remove(0);
            proof {
                assert(self.entries@ =~= old(self).entries@.push(gentry).skip(1));
            }
        }
        proof {
            let m = json_method_of(message@)->Some_0;
            assert({
                &&& gentry.message@ == message@
                &&& gentry.method@ == m
                &&& gentry.msg_type == msg_type
                &&& gentry.timestamp_ms == now_ms
                &&& self.log_of(msg_type) == old(self).log_of(msg_type).insert(m, gentry.message)
                &&& forall|t: MessageType| t != msg_type ==> self.log_of(t) == old(self).log_of(t)
                &&& self.spec_entries() == if old(self).spec_entries().len() + 1 > old(
                    self,
                ).spec_max_entries() {
                    old(self).spec_entries().push(gentry).skip(1)
                } else {
                    old(self).spec_entries().push(gentry)
                }
            });
        }
    }

    /// Record an error, keeping only the most recent one.
    pub fn record_error(&mut self, error: &str)
        ensures
            *final (self) == (MessageHistory {
                last_error: final (self).last_error,
                ..*old(self)
            }),
            final (self).spec_last_error() matches Some(e) && e@ == error@,
    {
        self.last_error = Some(error.to_owned());
    }

    /// The last recorded error text, if any.
    pub fn last_error(&self) -> (r: Option<&String>)
        ensures
            r == match self.spec_last_error() {
                Some(e) => Some(&e),
                None => None,
            },
    {
        self.last_error.as_ref()
    }

    /// The recorded entries, oldest first.
    pub fn entries(&self) -> (r: &Vec<HistoryEntry>)
        ensures
            r@ == self.spec_entries(),
    {
        &self.entries
    }

    /// The number of recorded entries.
    pub fn len(&self) -> (r: usize)
        ensures
            r == self.spec_entries().len(),
    {
        self.entries.len()
    }

    /// Whether the history holds no entries.
    pub fn is_empty(&self) -> (r: bool)
        ensures
            r == (self.spec_entries().len() == 0),
    {
        self.entries.is_empty()
    }

    /// Forget all messages and the last error.
    pub fn clear(&mut self)
        ensures
            final (self).wf(),
            final (self).log_of(MessageType::Send) == Map::<Seq<char>, String>::empty(),
            final (self).log_of(MessageType::Receive) == Map::<Seq<char>, String>::empty(),
            final (self).log_of(MessageType::Push) == Map::<Seq<char>, String>::empty(),
            final (self).spec_last_error() is None,
            final (self).spec_entries() == Seq::<HistoryEntry>::empty(),
            final (self).spec_max_entries() == old(self).spec_max_entries(),
    {
        self.send_log.clear();
        self.receive_log.clear();
        self.push_log.clear();
        self.entries.clear();
        self.last_error = None;
    }

    /// Counts of distinct methods seen per type, the total entry count, and
    /// the last error.
    pub fn summary(&self) -> (r: HistorySummary)
        requires
            self.wf(),
        ensures
            r.send_count == self.log_of(MessageType::Send).dom().len(),
            r.receive_count == self.log_of(MessageType::Receive).dom().len(),
            r.push_count == self.log_of(MessageType::Push).dom().len(),
            r.total_entries == self.spec_entries().len(),
            r.last_error == self.spec_last_error(),
    {
        HistorySummary {
            send_count: self.send_log.len(),
            receive_count: self.receive_log.len(),
            push_count: self.push_log.len(),
            total_entries: self.entries.len(),
            last_error: match &self.last_error {
                Some(e) => Some(e.clone()),
                None => None,
            },
        }
    }
}

impl Default for MessageHistory {
    /// An empty history with the default entry bound.
    fn default() -> (r: Self)
        ensures
            r.wf(),
            r.spec_entries() == Seq::<HistoryEntry>::empty(),
            r.spec_max_entries() == 100,
    {
        MessageHistory::new()
    }
}

} // verus!
