//! Bounded in-memory log with oldest-first eviction.
use vstd::prelude::*;
use crate::text::{str_to_string, to_uppercase, unicode_uppercase};

verus! {

/// One log line.
#[derive(Debug, Clone)]
pub struct LogEntry {
    pub id: String,
    pub timestamp: String,
    pub level: String,
    pub source: String,
    pub message: String,
}

impl LogEntry {
    /// A field-by-field copy.
    pub fn duplicate(&self) -> (r: LogEntry)
        ensures
            r.id@ == self.id@,
            r.timestamp@ == self.timestamp@,
            r.level@ == self.level@,
            r.source@ == self.source@,
            r.message@ == self.message@,
    {
        LogEntry {
            id: self.id.clone(),
            timestamp: self.timestamp.clone(),
            level: self.level.clone(),
            source: self.source.clone(),
            message: self.message.clone(),
        }
    }
}

/// Model of a log entry: (level, source, message); identifier and time stamp are not
/// modelled.
pub open spec fn entry_view(e: LogEntry) -> (Seq<char>, Seq<char>, Seq<char>) {
    (e.level@, e.source@, e.message@)
}

/// Models of a list of entries.
pub open spec fn entries_view(es: Seq<LogEntry>) -> Seq<(Seq<char>, Seq<char>, Seq<char>)> {
    es.map_values(|e: LogEntry| entry_view(e))
}

/// `chrono::Utc::now().to_rfc3339()`: the current time. Nothing is claimed of the text: it
/// comes from the clock.
#[verifier::external_body]
fn now_rfc3339() -> String {
    chrono::Utc::now().to_rfc3339()
}

/// `uuid::Uuid::new_v4().to_string()` for a log entry identifier. Its value comes from a
/// random number generator; every outcome is a UUID in the 36-character hyphenated form.
#[verifier::external_body]
fn new_entry_id() -> (r: String)
    ensures
        r@.len() == 36,
{
    uuid::Uuid::new_v4().to_string()
}

/// A circular log of at most `max_entries` entries (at least one entry is always kept).
#[derive(Debug, Clone)]
pub struct RingBufferLogger {
    max_entries: usize,
    entries: Vec<LogEntry>,
}

/// The entry models after one more line: the oldest entry is evicted when the log is full.
pub open spec fn after_log_view(
    v: Seq<(Seq<char>, Seq<char>, Seq<char>)>,
    max: usize,
    e: (Seq<char>, Seq<char>, Seq<char>),
) -> Seq<(Seq<char>, Seq<char>, Seq<char>)> {
    let kept = if v.len() >= max && v.len() > 0 {
        v.drop_first()
    } else {
        v
    };
    kept.push(e)
}

/// The entries after one more line.
pub open spec fn after_log(
    old_entries: Seq<LogEntry>,
    max: usize,
    e: (Seq<char>, Seq<char>, Seq<char>),
) -> Seq<(Seq<char>, Seq<char>, Seq<char>)> {
    after_log_view(entries_view(old_entries), max, e)
}

/// The entry models after several lines, in order.
pub open spec fn after_logs(
    v: Seq<(Seq<char>, Seq<char>, Seq<char>)>,
    max: usize,
    lines: Seq<(Seq<char>, Seq<char>, Seq<char>)>,
) -> Seq<(Seq<char>, Seq<char>, Seq<char>)>
    decreases lines.len(),
{
    if lines.len() == 0 {
        v
    } else {
        after_log_view(after_logs(v, max, lines.drop_last()), max, lines.last())
    }
}

impl RingBufferLogger {
    /// The capacity.
    pub closed spec fn capacity(&self) -> usize {
        self.max_entries
    }

    /// The entries, oldest first.
    pub closed spec fn entries_spec(&self) -> Seq<LogEntry> {
        self.entries@
    }

    /// An empty log with the given capacity.
    pub fn new(max_entries: usize) -> (r: Self)
        ensures
            r.capacity() == max_entries,
            r.entries_spec().len() == 0,
    {
        RingBufferLogger { max_entries, entries: Vec::new() }
    }

    /// The capacity of the log.
    pub fn max_entries(&self) -> (r: usize)
        ensures
            r == self.capacity(),
    {
        self.max_entries
    }

    /// Appends a line (level upper-cased), evicting the oldest entry when full.
    pub fn log(&mut self, level: &str, source: &str, message: &str)
        ensures
            final(self).capacity() == old(self).capacity(),
            entries_view(final(self).entries_spec()) == after_log(
                old(self).entries_spec(),
                old(self).capacity(),
                (unicode_uppercase(level@), source@, message@),
            ),
            final(self).entries_spec().drop_last() == (if old(self).entries_spec().len()
                >= old(self).capacity() && old(self).entries_spec().len() > 0 {
                old(self).entries_spec().drop_first()
            } else {
                old(self).entries_spec()
            }),
            final(self).entries_spec().last().id@.len() == 36,
    {
        let entry = LogEntry {
            id: new_entry_id(),
            timestamp: now_rfc3339(),
            level: to_uppercase(level),
            source: str_to_string(source),
            message: str_to_string(message),
        };
        let ghost before = self.entries@;
        if self.entries.len() >= self.max_entries && self.entries.len() > 0 {
            self.entries.remove(0);
            assert(entries_view(self.entries@) =~= entries_view(before).drop_first());
        }
        let ghost mid = self.entries@;
        self.entries.push(entry);
        assert(entries_view(self.entries@) =~= entries_view(mid).push(entry_view(entry)));
    }

    /// A copy of all entries, oldest first.
    pub fn get_entries(&self) -> (r: Vec<LogEntry>)
        ensures
            entries_view(r@) == entries_view(self.entries_spec()),
    {
        let mut r: Vec<LogEntry> = Vec::new();
        let mut i: usize = 0;
        while i < self.entries.len()
            invariant
                i <= self.entries@.len(),
                entries_view(r@) == entries_view(self.entries@.subrange(0, i as int)),
            decreases self.entries.len() - i,
        {
            let ghost before = r@;
            r.push(self.entries[i].duplicate());
            proof {
                assert(entries_view(r@) =~= entries_view(before).push(entry_view(self.entries@[i as int])));
                assert(self.entries@.subrange(0, i + 1) =~= self.entries@.subrange(0, i as int).push(self.entries@[i as int]));
                assert(entries_view(self.entries@.subrange(0, i + 1)) =~= entries_view(self.entries@.subrange(0, i as int)).push(entry_view(self.entries@[i as int])));
            }
            i = i + 1;
        }
        assert(self.entries@.subrange(0, self.entries@.len() as int) =~= self.entries@);
        r
    }

    /// Removes every entry.
    pub fn clear(&mut self)
        ensures
            final(self).capacity() == old(self).capacity(),
            final(self).entries_spec().len() == 0,
    {
        self.entries.clear();
    }

    /// All entries as text, one `[time] [LEVEL] [source] message` line each.
    pub fn export_as_string(&self) -> (r: String)
        ensures
            r@ == export_text(self.entries_spec()),
    {
        let mut out = String::new();
        let mut i: usize = 0;
        while i < self.entries.len()
            invariant
                i <= self.entries@.len(),
                out@ == export_text(self.entries@.subrange(0, i as int)),
            decreases self.entries.len() - i,
        {
            let e = &self.entries[i];
            out.append("[");
            out.append(e.timestamp.as_str());
            out.append("] [");
            out.append(e.level.as_str());
            out.append("] [");
            out.append(e.source.as_str());
            out.append("] ");
            out.append(e.message.as_str());
            out.append("\n");
            proof {
                assert(self.entries@.subrange(0, i + 1).drop_last() =~= self.entries@.subrange(0, i as int));
            }
            i = i + 1;
        }
        assert(self.entries@.subrange(0, self.entries@.len() as int) =~= self.entries@);
        out
    }
}

/// Export line of one entry.
pub open spec fn export_line(e: LogEntry) -> Seq<char> {
    "["@ + e.timestamp@ + "] ["@ + e.level@ + "] ["@ + e.source@ + "] "@ + e.message@ + "\n"@
}

/// Export text of a list of entries.
pub open spec fn export_text(es: Seq<LogEntry>) -> Seq<char>
    decreases es.len(),
{
    if es.len() == 0 {
        Seq::empty()
    } else {
        export_text(es.drop_last()) + export_line(es.last())
    }
}

/// A log never holds more entries than its capacity (for a capacity of at least one): each
/// line added to a log within its capacity leaves it within its capacity, and the entries
/// kept are the newest ones in arrival order.
pub proof fn law_log_stays_within_capacity(
    old_entries: Seq<LogEntry>,
    max: usize,
    e: (Seq<char>, Seq<char>, Seq<char>),
)
    requires
        max >= 1,
        old_entries.len() <= max,
    ensures
        after_log(old_entries, max, e).len() <= max,
        after_log(old_entries, max, e).last() == e,
        old_entries.len() < max ==> after_log(old_entries, max, e) == entries_view(
            old_entries,
        ).push(e),
        old_entries.len() == max ==> after_log(old_entries, max, e) == entries_view(
            old_entries,
        ).subrange(1, max as int).push(e),
{
    if old_entries.len() == max {
        assert(entries_view(old_entries).drop_first() =~= entries_view(old_entries).subrange(
            1,
            max as int,
        ));
    }
}

/// A log of capacity `max` (at least one) that starts empty and receives `lines` holds
/// exactly the last `min(lines.len(), max)` of them, oldest first.
pub proof fn law_log_keeps_the_newest_lines(max: usize, lines: Seq<(Seq<char>, Seq<char>, Seq<char>)>)
    requires
        max >= 1,
    ensures
        after_logs(Seq::empty(), max, lines) == lines.subrange(
            if lines.len() > max { lines.len() - max } else { 0 },
            lines.len() as int,
        ),
    decreases lines.len(),
{
    let n = lines.len() as int;
    if n == 0 {
        assert(lines.subrange(0, 0) =~= Seq::<(Seq<char>, Seq<char>, Seq<char>)>::empty());
    } else {
        let prev_lines = lines.drop_last();
        law_log_keeps_the_newest_lines(max, prev_lines);
        let s1: int = if n - 1 > max { n - 1 - max } else { 0 };
        let prev = after_logs(Seq::empty(), max, prev_lines);
        assert(prev == prev_lines.subrange(s1, n - 1));
        if n - 1 >= max {
            assert(prev.drop_first().push(lines.last()) =~= lines.subrange(n - max, n));
        } else {
            assert(prev.push(lines.last()) =~= lines.subrange(0, n));
        }
    }
}

} // verus!
