//! Decisions taken on the output of the managed Aether and sing-box processes.
use vstd::prelude::*;
use crate::logging::ring_buffer::{after_logs, entries_view, RingBufferLogger};
use crate::text::{
    chars_of, concat3, contains_exec, contains_text, decimal, decimal_string, digits_value,
    find_exec, find_text, is_digit, lemma_find_iff_contains, occurs_at, parse_unsigned, parse_unsigned_exec, slice_chars, string_of, to_lowercase,
    to_uppercase, trim, trim_chars, unicode_lowercase, unicode_uppercase,
};

verus! {

/// Log level of one process output line.
pub open spec fn log_level_of(line: Seq<char>) -> Seq<char> {
    let upper = unicode_uppercase(line);
    if contains_text(upper, "ERROR"@) || contains_text(upper, "[ERR"@) || contains_text(
        upper,
        "FATAL"@,
    ) || contains_text(upper, "PANIC"@) {
        "ERROR"@
    } else if contains_text(upper, "WARN"@) || contains_text(upper, "[WRN"@) {
        "WARN"@
    } else if contains_text(upper, "DEBUG"@) || contains_text(upper, "[DBG"@) || contains_text(
        upper,
        "TRACE"@,
    ) {
        "DEBUG"@
    } else {
        "INFO"@
    }
}

/// A text contains a literal pattern.
fn has(hay: &Vec<char>, pat: &str) -> (r: bool)
    ensures
        r == contains_text(hay@, pat@),
{
    let p = chars_of(pat);
    contains_exec(hay, &p)
}

/// Classifies a process output line as ERROR, WARN, DEBUG or INFO (standard error output
/// is INFO unless it says otherwise).
pub fn classify_log_level(line: &str, is_stderr: bool) -> (r: &'static str)
    ensures
        r@ == log_level_of(line@),
{
    let upper_s = to_uppercase(line);
    let upper = chars_of(upper_s.as_str());
    if has(&upper, "ERROR") || has(&upper, "[ERR") || has(&upper, "FATAL") || has(&upper, "PANIC") {
        "ERROR"
    } else if has(&upper, "WARN") || has(&upper, "[WRN") {
        "WARN"
    } else if has(&upper, "DEBUG") || has(&upper, "[DBG") || has(&upper, "TRACE") {
        "DEBUG"
    } else {
        "INFO"
    }
}

/// First index at or after `i` holding a decimal digit.
pub open spec fn first_digit_from(s: Seq<char>, i: int) -> Option<int>
    decreases s.len() - i,
{
    if i < 0 || i >= s.len() {
        None
    } else if is_digit(s[i]) {
        Some(i)
    } else {
        first_digit_from(s, i + 1)
    }
}

/// End of the run of decimal digits starting at `i`.
pub open spec fn digit_run_end(s: Seq<char>, i: int) -> int
    decreases s.len() - i,
{
    if i < 0 || i >= s.len() || !is_digit(s[i]) {
        i
    } else {
        digit_run_end(s, i + 1)
    }
}

/// Position of the first timing keyword: `rtt`, else `latency`, else `ping`.
pub open spec fn timing_keyword_pos(l: Seq<char>) -> Option<int> {
    match find_text(l, "rtt"@) {
        Some(k) => Some(k),
        None => match find_text(l, "latency"@) {
            Some(k) => Some(k),
            None => find_text(l, "ping"@),
        },
    }
}

/// Candidate round-trip time of a scanner line: the first run of digits after the first
/// timing keyword of the lower-cased line, when it is between 1 and 9999 ms.
pub open spec fn candidate_rtt(line: Seq<char>) -> Option<u32> {
    let l = unicode_lowercase(line);
    match timing_keyword_pos(l) {
        None => None,
        Some(k) => match first_digit_from(l, k) {
            None => None,
            Some(d) => match parse_unsigned(l.subrange(d, digit_run_end(l, d)), u32::MAX as nat) {
                Some(v) => if 0 < v && v < 10000 {
                    Some(v as u32)
                } else {
                    None
                },
                None => None,
            },
        },
    }
}

/// Extracts a candidate round-trip time (ms) from a scanner output line.
pub fn parse_candidate_rtt_from_line(line: &str) -> (r: Option<u32>)
    ensures
        r == candidate_rtt(line@),
{
    let lower_s = to_lowercase(line);
    let l = chars_of(lower_s.as_str());
    let rtt = chars_of("rtt");
    let latency = chars_of("latency");
    let ping = chars_of("ping");
    let pos = match find_exec(&l, &rtt) {
        Some(k) => k,
        None => match find_exec(&l, &latency) {
            Some(k) => k,
            None => match find_exec(&l, &ping) {
                Some(k) => k,
                None => {
                    return None;
                },
            },
        },
    };
    assert(timing_keyword_pos(l@) == Some(pos as int));
    proof {
        crate::text::lemma_find_iff_contains(l@, rtt@, 0);
        crate::text::lemma_find_iff_contains(l@, latency@, 0);
        crate::text::lemma_find_iff_contains(l@, ping@, 0);
    }
    assert(pos <= l@.len());
    let mut d: usize = pos;
    while d < l.len() && !('0' <= l[d] && l[d] <= '9')
        invariant
            pos <= d <= l@.len(),
            first_digit_from(l@, pos as int) == first_digit_from(l@, d as int),
        decreases l.len() - d,
    {
        d = d + 1;
    }
    if d == l.len() {
        return None;
    }
    let mut e: usize = d;
    while e < l.len() && '0' <= l[e] && l[e] <= '9'
        invariant
            d <= e <= l@.len(),
            digit_run_end(l@, d as int) == digit_run_end(l@, e as int),
        decreases l.len() - e,
    {
        e = e + 1;
    }
    let run = slice_chars(&l, d, e);
    match parse_unsigned_exec(&run, 4294967295) {
        Some(v) => {
            if 0 < v && v < 10000 {
                Some(v as u32)
            } else {
                None
            }
        },
        None => None,
    }
}

/// The scanner asked an interactive question: launch arguments were incomplete.
pub open spec fn is_interactive_prompt(line: Seq<char>) -> bool {
    let lower = unicode_lowercase(line);
    contains_text(lower, "protocol:"@) || contains_text(lower, "[1] masque"@) || contains_text(
        lower,
        "[2] wireguard"@,
    ) || contains_text(lower, "scan mode:"@) || contains_text(lower, "ip version:"@)
}

/// A better (or first) candidate round-trip time than the best so far.
pub open spec fn improves(rtt: Option<u32>, best: u32) -> bool {
    rtt matches Some(v) && (best == 0 || v < best)
}

/// The lines logged for one Aether output line, in order.
pub open spec fn aether_line_logs(line: Seq<char>, best: u32) -> Seq<
    (Seq<char>, Seq<char>, Seq<char>),
> {
    if trim(line).len() == 0 {
        Seq::empty()
    } else if is_interactive_prompt(line) {
        seq![
            (
                unicode_uppercase("ERROR"@),
                "Aether"@,
                "Interactive prompt detected: '"@ + trim(line)
                    + "'. Managed launch arguments were incomplete."@,
            ),
        ]
    } else if improves(candidate_rtt(line), best) {
        seq![
            (
                unicode_uppercase("INFO"@),
                "Aether"@,
                "Best candidate so far: "@ + decimal(candidate_rtt(line)->0 as nat) + " ms"@,
            ),
            (unicode_uppercase(log_level_of(line)), "Aether"@, line),
        ]
    } else {
        seq![(unicode_uppercase(log_level_of(line)), "Aether"@, line)]
    }
}

/// Handles one output line of the managed Aether process (standard output and standard
/// error alike): an interactive question sets the prompt flag; otherwise the best candidate
/// round-trip time is lowered when the line reports a better one, and the line is logged.
pub fn process_aether_line(
    line: &str,
    is_stderr: bool,
    interactive_flag: &mut bool,
    best_rtt: &mut u32,
    logger: &mut RingBufferLogger,
)
    ensures
        *final(interactive_flag) == (*old(interactive_flag) || (trim(line@).len() > 0
            && is_interactive_prompt(line@))),
        *final(best_rtt) == (if trim(line@).len() > 0 && !is_interactive_prompt(line@)
            && improves(candidate_rtt(line@), *old(best_rtt)) {
            candidate_rtt(line@)->0
        } else {
            *old(best_rtt)
        }),
        final(logger).capacity() == old(logger).capacity(),
        entries_view(final(logger).entries_spec()) == after_logs(
            entries_view(old(logger).entries_spec()),
            old(logger).capacity(),
            aether_line_logs(line@, *old(best_rtt)),
        ),
{
    let ghost start = entries_view(logger.entries_spec());
    let ghost cap = logger.capacity();
    let ghost best0 = *best_rtt;
    let chars = chars_of(line);
    let trimmed = trim_chars(&chars);
    if trimmed.len() == 0 {
        assert(aether_line_logs(line@, best0) =~= Seq::empty());
        return;
    }
    let lower_s = to_lowercase(line);
    let lower = chars_of(lower_s.as_str());
    if has(&lower, "protocol:") || has(&lower, "[1] masque") || has(&lower, "[2] wireguard")
        || has(&lower, "scan mode:") || has(&lower, "ip version:") {
        *interactive_flag = true;
        let t = string_of(&trimmed);
        let msg = concat3(
            "Interactive prompt detected: '",
            t.as_str(),
            "'. Managed launch arguments were incomplete.",
        );
        logger.log("ERROR", "Aether", msg.as_str());
        proof {
            let lines = aether_line_logs(line@, best0);
            assert(lines.drop_last() =~= Seq::empty());
            assert(after_logs(start, cap, lines.drop_last()) == start);
            assert(msg@ == lines.last().2);
        }
        return;
    }
    let ghost lines = aether_line_logs(line@, best0);
    if let Some(rtt) = parse_candidate_rtt_from_line(line) {
        if *best_rtt == 0 || rtt < *best_rtt {
            *best_rtt = rtt;
            let n = decimal_string(rtt as u64);
            let msg = concat3("Best candidate so far: ", n.as_str(), " ms");
            logger.log("INFO", "Aether", msg.as_str());
            proof {
                assert(lines.drop_last().drop_last() =~= Seq::empty());
                assert(after_logs(start, cap, lines.drop_last().drop_last()) == start);
                assert(lines.drop_last().last() == lines[0]);
                assert(after_logs(start, cap, lines.drop_last()) == entries_view(logger.entries_spec()));
            }
        }
    }
    proof {
        if !improves(candidate_rtt(line@), best0) {
            assert(lines.drop_last() =~= Seq::empty());
            assert(after_logs(start, cap, lines.drop_last()) == start);
        }
        assert(after_logs(start, cap, lines.drop_last()) == entries_view(logger.entries_spec()));
    }
    let lvl = classify_log_level(line, is_stderr);
    logger.log(lvl, "Aether", line);

}

/// The first digit at or after `i` is at `d` when `d` holds one and nothing between does.
proof fn lemma_first_digit_at(s: Seq<char>, i: int, d: int)
    requires
        0 <= i <= d < s.len(),
        is_digit(s[d]),
        forall|j: int| i <= j < d ==> !is_digit(#[trigger] s[j]),
    ensures
        first_digit_from(s, i) == Some(d),
    decreases d - i,
{
    if i < d {
        lemma_first_digit_at(s, i + 1, d);
    }
}

/// A run of digits from `i` ends at `e` when all between are digits and `e` is not one.
proof fn lemma_digit_run_ends_at(s: Seq<char>, i: int, e: int)
    requires
        0 <= i <= e <= s.len(),
        forall|j: int| i <= j < e ==> is_digit(#[trigger] s[j]),
        e == s.len() || !is_digit(s[e]),
    ensures
        digit_run_end(s, i) == e,
    decreases e - i,
{
    if i < e {
        lemma_digit_run_ends_at(s, i + 1, e);
    }
}

/// A scanner line that reports its time after `ping` (and mentions neither `rtt` nor
/// `latency`) gives the number that follows the first `ping`: the first run of digits after
/// it, when that number is between 1 and 9999 ms. `k` is the first `ping`, the digits run
/// from `d` up to `e`, and nothing between `k` and `d` is a digit (all in the lower-cased
/// line).
pub proof fn law_ping_line_gives_the_number_after_ping(line: Seq<char>, k: int, d: int, e: int)
    requires
        !contains_text(unicode_lowercase(line), "rtt"@),
        !contains_text(unicode_lowercase(line), "latency"@),
        occurs_at(unicode_lowercase(line), "ping"@, k),
        forall|j: int| 0 <= j < k ==> !occurs_at(unicode_lowercase(line), "ping"@, j),
        k <= d < e <= unicode_lowercase(line).len(),
        forall|j: int| k <= j < d ==> !is_digit(#[trigger] unicode_lowercase(line)[j]),
        forall|j: int| d <= j < e ==> is_digit(#[trigger] unicode_lowercase(line)[j]),
        e == unicode_lowercase(line).len() || !is_digit(unicode_lowercase(line)[e]),
        0 < digits_value(unicode_lowercase(line).subrange(d, e)) < 10000,
    ensures
        candidate_rtt(line) == Some(digits_value(unicode_lowercase(line).subrange(d, e)) as u32),
{
    let l = unicode_lowercase(line);
    lemma_find_iff_contains(l, "rtt"@, 0);
    lemma_find_iff_contains(l, "latency"@, 0);
    lemma_find_iff_contains(l, "ping"@, 0);
    assert(find_text(l, "rtt"@) is None);
    assert(find_text(l, "latency"@) is None);
    assert(find_text(l, "ping"@) == Some(k));
    lemma_first_digit_at(l, k, d);
    lemma_digit_run_ends_at(l, d, e);
    let run = l.subrange(d, e);
    assert(run[0] != '+');
    assert(crate::text::all_digits(run));
}

/// A scanner line that reports `rtt` gives the number that follows its first `rtt` (the
/// first run of digits after it), when that number is between 1 and 9999 ms; `rtt` is read
/// before `latency` and `ping`.
pub proof fn law_rtt_line_gives_the_number_after_rtt(line: Seq<char>, k: int, d: int, e: int)
    requires
        occurs_at(unicode_lowercase(line), "rtt"@, k),
        forall|j: int| 0 <= j < k ==> !occurs_at(unicode_lowercase(line), "rtt"@, j),
        k <= d < e <= unicode_lowercase(line).len(),
        forall|j: int| k <= j < d ==> !is_digit(#[trigger] unicode_lowercase(line)[j]),
        forall|j: int| d <= j < e ==> is_digit(#[trigger] unicode_lowercase(line)[j]),
        e == unicode_lowercase(line).len() || !is_digit(unicode_lowercase(line)[e]),
        0 < digits_value(unicode_lowercase(line).subrange(d, e)) < 10000,
    ensures
        candidate_rtt(line) == Some(digits_value(unicode_lowercase(line).subrange(d, e)) as u32),
{
    let l = unicode_lowercase(line);
    lemma_find_iff_contains(l, "rtt"@, 0);
    assert(find_text(l, "rtt"@) == Some(k));
    lemma_first_digit_at(l, k, d);
    lemma_digit_run_ends_at(l, d, e);
    let run = l.subrange(d, e);
    assert(run[0] != '+');
    assert(crate::text::all_digits(run));
}

/// A scanner line that reports `latency` (and not `rtt`) gives the number that follows its
/// first `latency`, when that number is between 1 and 9999 ms.
pub proof fn law_latency_line_gives_the_number_after_latency(line: Seq<char>, k: int, d: int, e: int)
    requires
        !contains_text(unicode_lowercase(line), "rtt"@),
        occurs_at(unicode_lowercase(line), "latency"@, k),
        forall|j: int| 0 <= j < k ==> !occurs_at(unicode_lowercase(line), "latency"@, j),
        k <= d < e <= unicode_lowercase(line).len(),
        forall|j: int| k <= j < d ==> !is_digit(#[trigger] unicode_lowercase(line)[j]),
        forall|j: int| d <= j < e ==> is_digit(#[trigger] unicode_lowercase(line)[j]),
        e == unicode_lowercase(line).len() || !is_digit(unicode_lowercase(line)[e]),
        0 < digits_value(unicode_lowercase(line).subrange(d, e)) < 10000,
    ensures
        candidate_rtt(line) == Some(digits_value(unicode_lowercase(line).subrange(d, e)) as u32),
{
    let l = unicode_lowercase(line);
    lemma_find_iff_contains(l, "rtt"@, 0);
    lemma_find_iff_contains(l, "latency"@, 0);
    assert(find_text(l, "rtt"@) is None);
    assert(find_text(l, "latency"@) == Some(k));
    lemma_first_digit_at(l, k, d);
    lemma_digit_run_ends_at(l, d, e);
    let run = l.subrange(d, e);
    assert(run[0] != '+');
    assert(crate::text::all_digits(run));
}

} // verus!
