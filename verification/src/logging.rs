use vstd::prelude::*;
use vstd::utf8::encode_utf8;

use crate::text::{decimal, push_decimal};

verus! {

/// Log file path used by the collector.
pub const LOG_FILE: &'static str = "collector.log";

/// Session marker written once at the start of every session.
pub const SESSION_MARKER: &'static str = ">>> session start <<<";

/// How many errors of one component are logged before the rest are suppressed.
pub const MAX_ERROR_LOGS: u32 = 3;

/// The line appended to the log file for `msg` written at `timestamp`:
/// `[timestamp] msg`.
pub fn log_to_file(timestamp: &str, msg: &str) -> (line: String)
    ensures
        line@ == seq!['['] + timestamp@ + seq![']', ' '] + msg@,
{
    let mut line = String::from_str("[");
    line.append(timestamp);
    line.append("] ");
    line.append(msg);
    proof {
        reveal_strlit("[");
        reveal_strlit("] ");
        assert(line@ =~= seq!['['] + timestamp@ + seq![']', ' '] + msg@);
    }
    line
}

/// Whether `needle` occurs in `hay` at position `i`.
pub open spec fn occurs_at(hay: Seq<u8>, needle: Seq<u8>, i: int) -> bool {
    0 <= i && i + needle.len() <= hay.len() && hay.subrange(i, i + needle.len()) == needle
}

/// Whether the text `line` contains the text `needle` (as `str::contains` decides, on
/// their UTF-8 bytes).
pub open spec fn text_contains(line: Seq<char>, needle: Seq<char>) -> bool {
    exists|i: int| occurs_at(encode_utf8(line), encode_utf8(needle), i)
}

/// Whether `line` contains `needle`.
pub fn contains_text(line: &str, needle: &str) -> (r: bool)
    ensures
        r == text_contains(line@, needle@),
{
    let hay = line.as_bytes();
    let pat = needle.as_bytes();
    let ghost h = encode_utf8(line@);
    let ghost p = encode_utf8(needle@);
    if pat.len() == 0 {
        proof {
            assert(h.subrange(0, 0) =~= p);
            assert(occurs_at(h, p, 0));
        }
        return true;
    }
    if pat.len() > hay.len() {
        proof {
            assert forall|i: int| !occurs_at(h, p, i) by {}
        }
        return false;
    }
    let hl = hay.len();
    let last = hay.len() - pat.len();
    let mut i: usize = 0;
    while i <= last
        invariant
            hay@ == h,
            pat@ == p,
            h == encode_utf8(line@),
            p == encode_utf8(needle@),
            h.len() == hl,
            0 < p.len() <= h.len(),
            last == h.len() - p.len(),
            i <= last + 1,
            forall|k: int| 0 <= k < i ==> !occurs_at(h, p, k),
        decreases last + 1 - i,
    {
        let mut j: usize = 0;
        let mut same = true;
        while j < pat.len()
            invariant
                hay@ == h,
                pat@ == p,
                h.len() == hl,
                0 < p.len() <= h.len(),
                i <= last,
                last == h.len() - p.len(),
                j <= p.len(),
                same == (forall|m: int| 0 <= m < j ==> h[i + m] == p[m]),
            decreases p.len() - j,
        {
            if hay[i + j] != pat[j] {
                same = false;
            }
            j = j + 1;
        }
        if same {
            proof {
                assert(h.subrange(i as int, i + p.len()) =~= p);
                assert(occurs_at(h, p, i as int));
                assert(text_contains(line@, needle@));
            }
            return true;
        }
        proof {
            assert(!(h.subrange(i as int, i + p.len()) =~= p));
        }
        i = i + 1;
    }
    proof {
        assert forall|k: int| !occurs_at(h, p, k) by {
            if 0 <= k && k + p.len() <= h.len() {
                assert(k < i);
            }
        }
    }
    false
}

/// The positions of the lines that hold the session marker.
pub open spec fn marker_lines(lines: Seq<Seq<char>>) -> Seq<int>
    decreases lines.len(),
{
    if lines.len() == 0 {
        seq![]
    } else {
        let prev = marker_lines(lines.drop_last());
        if text_contains(lines.last(), SESSION_MARKER@) {
            prev.push(lines.len() - 1)
        } else {
            prev
        }
    }
}

/// The lines joined, each followed by a newline.
pub open spec fn lines_text(lines: Seq<Seq<char>>) -> Seq<char>
    decreases lines.len(),
{
    if lines.len() == 0 {
        seq![]
    } else {
        lines_text(lines.drop_last()) + lines.last() + seq!['\n']
    }
}

/// The new content of the log file when a session starts: when it holds at least two
/// sessions, only the last two are kept (from the second-to-last marker line on);
/// otherwise the file is left as it is (`None`).
pub open spec fn trimmed_log(lines: Seq<Seq<char>>) -> Option<Seq<char>> {
    let starts = marker_lines(lines);
    if starts.len() >= 2 {
        Some(lines_text(lines.subrange(starts[starts.len() - 2], lines.len() as int)))
    } else {
        None
    }
}

/// The views of a list of strings.
pub open spec fn line_views(lines: Seq<String>) -> Seq<Seq<char>> {
    lines.map_values(|l: String| l@)
}

proof fn lemma_marker_lines_bounds(lines: Seq<Seq<char>>)
    ensures
        forall|k: int| 0 <= k < marker_lines(lines).len() ==> 0 <= #[trigger] marker_lines(lines)[k] < lines.len(),
    decreases lines.len(),
{
    if lines.len() > 0 {
        let prev = lines.drop_last();
        lemma_marker_lines_bounds(prev);
        assert forall|k: int| 0 <= k < marker_lines(lines).len() implies 0 <= #[trigger] marker_lines(
            lines,
        )[k] < lines.len() by {
            if k < marker_lines(prev).len() {
                assert(marker_lines(lines)[k] == marker_lines(prev)[k]);
            }
        }
    }
}

proof fn lemma_marker_lines_increasing(lines: Seq<Seq<char>>)
    ensures
        forall|i: int, j: int|
            0 <= i < j < marker_lines(lines).len() ==> #[trigger] marker_lines(lines)[i] < #[trigger] marker_lines(lines)[j],
    decreases lines.len(),
{
    if lines.len() > 0 {
        let prev = lines.drop_last();
        lemma_marker_lines_increasing(prev);
        lemma_marker_lines_bounds(prev);
        let m = marker_lines(lines);
        let pm = marker_lines(prev);
        assert forall|i: int, j: int| 0 <= i < j < m.len() implies #[trigger] m[i] < #[trigger] m[j] by {
            assert(m[i] == pm[i]);
            if j < pm.len() {
                assert(m[j] == pm[j]);
            }
        }
    }
}

/// The marker positions of the lines before `t` come first among all marker positions,
/// and are exactly those below `t`.
proof fn lemma_marker_lines_prefix(lines: Seq<Seq<char>>, t: int)
    requires
        0 <= t <= lines.len(),
    ensures
        marker_lines(lines.take(t)).len() <= marker_lines(lines).len(),
        forall|i: int|
            0 <= i < marker_lines(lines.take(t)).len() ==> #[trigger] marker_lines(lines)[i] == marker_lines(
                lines.take(t),
            )[i] && marker_lines(lines)[i] < t,
        forall|i: int|
            marker_lines(lines.take(t)).len() <= i < marker_lines(lines).len() ==> #[trigger] marker_lines(
                lines,
            )[i] >= t,
    decreases lines.len(),
{
    lemma_marker_lines_bounds(lines.take(t));
    if t == lines.len() {
        assert(lines.take(t) =~= lines);
    } else {
        let prev = lines.drop_last();
        assert(prev.take(t) =~= lines.take(t));
        lemma_marker_lines_prefix(prev, t);
    }
}

/// Counting markers splits at any position.
proof fn lemma_marker_count_split(lines: Seq<Seq<char>>, k: int)
    requires
        0 <= k <= lines.len(),
    ensures
        marker_lines(lines).len() == marker_lines(lines.take(k)).len() + marker_lines(
            lines.subrange(k, lines.len() as int),
        ).len(),
    decreases lines.len(),
{
    if k == lines.len() {
        assert(lines.take(k) =~= lines);
        assert(lines.subrange(k, lines.len() as int).len() == 0);
    } else {
        let prev = lines.drop_last();
        lemma_marker_count_split(prev, k);
        assert(prev.take(k) =~= lines.take(k));
        let suf = lines.subrange(k, lines.len() as int);
        assert(suf.drop_last() =~= prev.subrange(k, prev.len() as int));
        assert(suf.last() == lines.last());
    }
}

/// A new session keeps exactly the last two sessions: the kept lines start with a
/// session marker and hold exactly two of them.
pub proof fn law_session_trim_keeps_two_sessions(lines: Seq<Seq<char>>)
    requires
        marker_lines(lines).len() >= 2,
    ensures
        ({
            let m = marker_lines(lines);
            let kept = lines.subrange(m[m.len() - 2], lines.len() as int);
            &&& trimmed_log(lines) == Some(lines_text(kept))
            &&& text_contains(kept[0], SESSION_MARKER@)
            &&& marker_lines(kept).len() == 2
        }),
{
    let m = marker_lines(lines);
    let n = m.len();
    let k = m[n - 2];
    lemma_marker_lines_bounds(lines);
    lemma_marker_lines_increasing(lines);
    lemma_marker_lines_prefix(lines, k);
    lemma_marker_count_split(lines, k);
    lemma_marker_lines_membership(lines);
    let p = marker_lines(lines.take(k));
    if p.len() > n - 2 {
        assert(m[n - 2] == p[n - 2] && m[n - 2] < k);
    }
    if p.len() < n - 2 {
        assert(m[p.len() as int] >= k);
        assert(m[p.len() as int] < m[n - 2]);
    }
    assert(p.len() == n - 2);
    let kept = lines.subrange(k, lines.len() as int);
    assert(kept[0] == lines[k]);
}

/// Every recorded marker position holds the marker.
proof fn lemma_marker_lines_membership(lines: Seq<Seq<char>>)
    ensures
        forall|i: int|
            0 <= i < marker_lines(lines).len() ==> text_contains(
                lines[#[trigger] marker_lines(lines)[i]],
                SESSION_MARKER@,
            ),
    decreases lines.len(),
{
    if lines.len() > 0 {
        let prev = lines.drop_last();
        lemma_marker_lines_membership(prev);
        lemma_marker_lines_bounds(prev);
        let m = marker_lines(lines);
        assert forall|i: int| 0 <= i < m.len() implies text_contains(
            lines[#[trigger] m[i]],
            SESSION_MARKER@,
        ) by {
            if i < marker_lines(prev).len() {
                assert(m[i] == marker_lines(prev)[i]);
                assert(lines[m[i]] == prev[m[i]]);
            }
        }
    }
}

/// What a new session writes over the log file whose lines are `lines`, if anything;
/// the session marker line is appended afterwards.
pub fn start_log_session(lines: &Vec<String>) -> (content: Option<String>)
    ensures
        match trimmed_log(line_views(lines@)) {
            Some(t) => content is Some && content->Some_0@ == t,
            None => content is None,
        },
{
    let ghost views = line_views(lines@);
    let mut starts: Vec<usize> = Vec::new();
    let mut i: usize = 0;
    while i < lines.len()
        invariant
            i <= lines@.len(),
            views == line_views(lines@),
            starts@.len() == marker_lines(views.take(i as int)).len(),
            forall|k: int|
                0 <= k < starts@.len() ==> starts@[k] as int == #[trigger] marker_lines(
                    views.take(i as int),
                )[k],
        decreases lines@.len() - i,
    {
        proof {
            assert(views.take(i + 1).drop_last() =~= views.take(i as int));
            assert(views.take(i + 1).last() == lines@[i as int]@);
        }
        if contains_text(lines[i].as_str(), SESSION_MARKER) {
            starts.push(i);
        }
        i = i + 1;
    }
    proof {
        assert(views.take(lines@.len() as int) =~= views);
        lemma_marker_lines_bounds(views);
    }
    if starts.len() < 2 {
        return None;
    }
    let keep_from = starts[starts.len() - 2];
    let mut content = String::new();
    let mut j: usize = keep_from;
    while j < lines.len()
        invariant
            keep_from <= j <= lines@.len(),
            views == line_views(lines@),
            content@ == lines_text(views.subrange(keep_from as int, j as int)),
        decreases lines@.len() - j,
    {
        content.append(lines[j].as_str());
        content.append("\n");
        proof {
            reveal_strlit("\n");
            let sub = views.subrange(keep_from as int, j + 1);
            assert(sub.drop_last() =~= views.subrange(keep_from as int, j as int));
            assert(content@ =~= lines_text(sub));
        }
        j = j + 1;
    }
    Some(content)
}

/// How many errors have been logged for each component.
pub struct ComponentErrorLog {
    counts: Vec<(String, u32)>,
}

/// The number of errors logged so far for `component`.
pub open spec fn logged_count(counts: Seq<(Seq<char>, u32)>, component: Seq<char>) -> u32
    decreases counts.len(),
{
    if counts.len() == 0 {
        0
    } else if counts.last().0 == component {
        counts.last().1
    } else {
        logged_count(counts.drop_last(), component)
    }
}

/// The message logged for the `count`-th error of a component (counting from 1).
pub open spec fn error_message(component: Seq<char>, msg: Seq<char>, count: u32) -> Seq<char> {
    let head = "✗ ["@ + component + "] "@ + msg;
    if count == MAX_ERROR_LOGS {
        head + " (further errors suppressed)"@
    } else {
        head + " ("@ + decimal((MAX_ERROR_LOGS - count) as nat) + " log(s) remaining)"@
    }
}

/// One error of `component`: its count grows and its message is logged while fewer than
/// `MAX_ERROR_LOGS` have been; afterwards errors are only dropped.
pub open spec fn error_step(count: u32, component: Seq<char>, msg: Seq<char>) -> (u32, Option<Seq<char>>) {
    if count < MAX_ERROR_LOGS {
        ((count + 1) as u32, Some(error_message(component, msg, (count + 1) as u32)))
    } else {
        (count, None)
    }
}

/// The number of times `c` occurs in `calls`.
pub open spec fn occurrences(calls: Seq<Seq<char>>, c: Seq<char>) -> nat
    decreases calls.len(),
{
    if calls.len() == 0 {
        0
    } else {
        occurrences(calls.drop_last(), c) + if calls.last() == c {
            1nat
        } else {
            0nat
        }
    }
}

/// The count of `c` after errors of the components `calls`, one after the other, starting
/// from a log in which nothing was logged.
pub open spec fn count_after(calls: Seq<Seq<char>>, c: Seq<char>) -> u32
    decreases calls.len(),
{
    if calls.len() == 0 {
        0
    } else if calls.last() == c {
        error_step(count_after(calls.drop_last(), c), c, seq![]).0
    } else {
        count_after(calls.drop_last(), c)
    }
}

/// The number of messages logged for `c` along `calls`.
pub open spec fn messages_after(calls: Seq<Seq<char>>, c: Seq<char>) -> nat
    decreases calls.len(),
{
    if calls.len() == 0 {
        0
    } else if calls.last() == c && error_step(count_after(calls.drop_last(), c), c, seq![]).1 is Some {
        messages_after(calls.drop_last(), c) + 1
    } else {
        messages_after(calls.drop_last(), c)
    }
}

/// Only the first `MAX_ERROR_LOGS` errors of a component are logged: along any
/// sequence of errors, the messages logged for a component number the smaller of its
/// error count and `MAX_ERROR_LOGS`.
pub proof fn law_errors_logged_at_most_max(calls: Seq<Seq<char>>, c: Seq<char>)
    ensures
        messages_after(calls, c) == count_after(calls, c),
        count_after(calls, c) as nat == if occurrences(calls, c) < MAX_ERROR_LOGS {
            occurrences(calls, c)
        } else {
            MAX_ERROR_LOGS as nat
        },
    decreases calls.len(),
{
    if calls.len() > 0 {
        law_errors_logged_at_most_max(calls.drop_last(), c);
    }
}

impl ComponentErrorLog {
    pub closed spec fn entries(&self) -> Seq<(Seq<char>, u32)> {
        self.counts@.map_values(|e: (String, u32)| (e.0@, e.1))
    }

    /// The number of errors logged so far for `component`.
    pub open spec fn count_of(&self, component: Seq<char>) -> u32 {
        logged_count(self.entries(), component)
    }

    /// A log in which no error was logged yet.
    pub fn new() -> (r: Self)
        ensures
            forall|c: Seq<char>| r.count_of(c) == 0,
    {
        let r = ComponentErrorLog { counts: Vec::new() };
        proof {
            assert(r.entries().len() == 0);
        }
        r
    }

    /// Records an error of `component`; returns the message to log, `None` once
    /// `MAX_ERROR_LOGS` errors of that component have been logged.
    pub fn log_component_error(&mut self, component: &str, msg: &str) -> (line: Option<String>)
        ensures
            final(self).count_of(component@) == error_step(old(self).count_of(component@), component@, msg@).0,
            match error_step(old(self).count_of(component@), component@, msg@).1 {
                Some(m) => line is Some && line->Some_0@ == m,
                None => line is None,
            },
            forall|c: Seq<char>| c != component@ ==> final(self).count_of(c) == old(self).count_of(c),
    {
        let name = String::from_str(component);
        let ghost ents = self.entries();
        let mut count: u32 = 0;
        let mut found = false;
        let mut k: usize = self.counts.len();
        proof {
            assert(ents.take(ents.len() as int) =~= ents);
        }
        while k > 0 && !found
            invariant
                k <= self.counts@.len(),
                ents == self.entries(),
                ents.len() == self.counts@.len(),
                !found ==> logged_count(ents, name@) == logged_count(ents.take(k as int), name@),
                !found ==> count == 0,
                found ==> count == logged_count(ents, name@),
            decreases k,
        {
            proof {
                assert(ents.take(k as int).drop_last() =~= ents.take(k - 1));
                assert(ents.take(k as int).last() == ents[k - 1]);
                assert(ents[k - 1] == (self.counts@[k - 1].0@, self.counts@[k - 1].1));
            }
            if self.counts[k - 1].0 == name {
                count = self.counts[k - 1].1;
                found = true;
            }
            k = k - 1;
        }
        proof {
            if !found {
                assert(ents.take(0).len() == 0);
            }
        }
        if count < MAX_ERROR_LOGS {
            let new_count = count + 1;
            let ghost before = self.counts@;
            self.counts.push((name, new_count));
            proof {
                assert(self.entries() =~= ents.push((component@, new_count)));
                assert(self.entries().drop_last() =~= ents);
            }
            let mut line = String::from_str("✗ [");
            line.append(component);
            line.append("] ");
            line.append(msg);
            if new_count == MAX_ERROR_LOGS {
                line.append(" (further errors suppressed)");
            } else {
                line.append(" (");
                push_decimal(&mut line, (MAX_ERROR_LOGS - new_count) as u64);
                line.append(" log(s) remaining)");
            }
            proof {
                reveal_strlit("✗ [");
                reveal_strlit("] ");
                reveal_strlit(" (further errors suppressed)");
                reveal_strlit(" (");
                reveal_strlit(" log(s) remaining)");
                assert(line@ =~= error_message(component@, msg@, new_count));
            }
            Some(line)
        } else {
            None
        }
    }
}

} // verus!
