use std::collections::VecDeque;
use vstd::prelude::*;

verus! {

/// Upper bound on the number of log entries kept for one server.
pub const MAX_LOG_ENTRIES: usize = 1000;

/// Severity or origin of one log line.
#[derive(Debug, Clone, Copy, PartialEq, Eq, Structural)]
pub enum McpLogLevel {
    Info,
    Error,
    Stdout,
    Stderr,
}

impl McpLogLevel {
    /// The lowercase name under which the level is reported to observers.
    pub fn as_str(&self) -> (r: &'static str)
        ensures
            r@ == level_name(*self),
    {
        match self {
            McpLogLevel::Info => "info",
            McpLogLevel::Error => "error",
            McpLogLevel::Stdout => "stdout",
            McpLogLevel::Stderr => "stderr",
        }
    }
}

/// The lowercase name of a level.
pub open spec fn level_name(level: McpLogLevel) -> Seq<char> {
    match level {
        McpLogLevel::Info => "info"@,
        McpLogLevel::Error => "error"@,
        McpLogLevel::Stdout => "stdout"@,
        McpLogLevel::Stderr => "stderr"@,
    }
}

/// One diagnostic line of a server, stamped in milliseconds since the Unix epoch.
#[derive(Debug, PartialEq, Eq)]
pub struct McpLogEntry {
    pub timestamp: i64,
    pub level: McpLogLevel,
    pub message: String,
}

impl Clone for McpLogEntry {
    fn clone(&self) -> (r: Self)
        ensures
            r == *self,
    {
        McpLogEntry { timestamp: self.timestamp, level: self.level, message: self.message.clone() }
    }
}

/// `s` with `e` appended, keeping only the newest `MAX_LOG_ENTRIES` entries.
pub open spec fn bounded_push<T>(s: Seq<T>, e: T) -> Seq<T> {
    let t = s.push(e);
    if t.len() > MAX_LOG_ENTRIES {
        t.subrange(t.len() - MAX_LOG_ENTRIES, t.len() as int)
    } else {
        t
    }
}

/// What a buffer holding `s` holds after each entry of `es` is appended in order.
pub open spec fn bounded_push_all<T>(s: Seq<T>, es: Seq<T>) -> Seq<T>
    decreases es.len(),
{
    if es.len() == 0 {
        s
    } else {
        bounded_push(bounded_push_all(s, es.drop_last()), es.last())
    }
}

/// The newest `MAX_LOG_ENTRIES` entries of `es` (all of them when there are fewer).
pub open spec fn newest<T>(es: Seq<T>) -> Seq<T> {
    if es.len() > MAX_LOG_ENTRIES {
        es.subrange(es.len() - MAX_LOG_ENTRIES, es.len() as int)
    } else {
        es
    }
}

/// FIFO eviction: appending the entries `es` one by one to an empty log leaves exactly
/// the newest `MAX_LOG_ENTRIES` of them, oldest first, so the log never grows past that
/// bound and entry `k` is evicted only once `MAX_LOG_ENTRIES` newer entries have arrived.
pub proof fn lemma_log_keeps_newest<T>(es: Seq<T>)
    ensures
        bounded_push_all(Seq::<T>::empty(), es) == newest(es),
        bounded_push_all(Seq::<T>::empty(), es).len() <= MAX_LOG_ENTRIES,
    decreases es.len(),
{
    if es.len() > 0 {
        let init = es.drop_last();
        lemma_log_keeps_newest(init);
        let t = newest(init).push(es.last());
        if init.len() >= MAX_LOG_ENTRIES {
            assert(t.subrange(t.len() - MAX_LOG_ENTRIES, t.len() as int) =~= newest(es));
        } else {
            assert(t =~= newest(es));
        }
    } else {
        assert(newest(es) =~= es);
    }
}

/// The log of one server: a FIFO of at most `MAX_LOG_ENTRIES` entries, oldest first.
pub struct LogBuffer {
    entries: VecDeque<McpLogEntry>,
}

impl View for LogBuffer {
    type V = Seq<McpLogEntry>;

    closed spec fn view(&self) -> Seq<McpLogEntry> {
        self.entries@
    }
}

impl LogBuffer {
    #[verifier::type_invariant]
    spec fn bounded(self) -> bool {
        self.entries@.len() <= MAX_LOG_ENTRIES
    }

    pub fn new() -> (r: LogBuffer)
        ensures
            r@ == Seq::<McpLogEntry>::empty(),
    {
        LogBuffer { entries: VecDeque::new() }
    }

    pub fn len(&self) -> (n: usize)
        ensures
            n == self@.len(),
            n <= MAX_LOG_ENTRIES,
    {
        proof {
            use_type_invariant(self);
        }
        self.entries.len()
    }

    /// Appends `entry`, evicting the oldest entry when the buffer is full.
    pub fn push(&mut self, entry: McpLogEntry)
        ensures
            final(self)@ == bounded_push(old(self)@, entry),
            final(self)@.len() <= MAX_LOG_ENTRIES,
    {
        proof {
            use_type_invariant(&*self);
        }
        let mut entries = VecDeque::new();
        std::mem::swap(&mut entries, &mut self.entries);
        if entries.len() >= MAX_LOG_ENTRIES {
            entries.pop_front();
        }
        entries.push_back(entry);
        proof {
            let t = old(self)@.push(entry);
            if t.len() > MAX_LOG_ENTRIES {
                assert(entries@ =~= t.subrange(t.len() - MAX_LOG_ENTRIES, t.len() as int));
            }
        }
        self.entries = entries;
    }

    /// A copy of the entries, oldest first.
    pub fn snapshot(&self) -> (r: Vec<McpLogEntry>)
        ensures
            r@ == self@,
    {
        let mut r: Vec<McpLogEntry> = Vec::new();
        let n = self.entries.len();
        let mut i: usize = 0;
        while i < n
            invariant
                n == self.entries@.len(),
                i <= n,
                r@ == self.entries@.subrange(0, i as int),
            decreases n - i,
        {
            r.push(self.entries[i].clone());
            i = i + 1;
            assert(r@ =~= self.entries@.subrange(0, i as int));
        }
        assert(r@ =~= self.entries@);
        r
    }
}

} // verus!
