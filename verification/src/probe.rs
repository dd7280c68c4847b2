//! Interpretation of the platform probe's output.
//!
//! On the platform family whose printer-enumeration facility crashes when no
//! printer is registered, discovery first asks the operating system for a
//! printer count out of process. This module holds the verified reading of
//! that answer: a missing answer or a non-positive count means "no printers",
//! a positive count means "printers exist", and any other non-empty text is
//! ambiguous and treated as "printers may exist" to avoid false negatives.
//! Platforms without the defect skip the probe entirely.

use vstd::prelude::*;
use vstd::string::StrSliceExecFns;

verus! {

/// Whitespace stripped from either end of the probe's answer.
pub open spec fn is_space(c: char) -> bool {
    c == ' ' || c == '\t' || c == '\r' || c == '\n'
}

/// A decimal digit.
pub open spec fn is_digit(c: char) -> bool {
    '0' as u32 <= c as u32 && c as u32 <= '9' as u32
}

/// The sequence with its leading whitespace removed.
pub open spec fn trim_start_spec(s: Seq<char>) -> Seq<char>
    decreases s.len(),
{
    if s.len() > 0 && is_space(s[0]) {
        trim_start_spec(s.subrange(1, s.len() as int))
    } else {
        s
    }
}

/// The sequence with its trailing whitespace removed.
pub open spec fn trim_end_spec(s: Seq<char>) -> Seq<char>
    decreases s.len(),
{
    if s.len() > 0 && is_space(s[s.len() - 1]) {
        trim_end_spec(s.subrange(0, s.len() - 1))
    } else {
        s
    }
}

/// The sequence with whitespace removed from both ends.
pub open spec fn trim_spec(s: Seq<char>) -> Seq<char> {
    trim_end_spec(trim_start_spec(s))
}

/// Every character from position `from` on is a decimal digit.
pub open spec fn all_digits_from(s: Seq<char>, from: int) -> bool {
    forall|i: int| from <= i < s.len() ==> is_digit(#[trigger] s[i])
}

/// Some character from position `from` on differs from '0'.
pub open spec fn some_nonzero_from(s: Seq<char>, from: int) -> bool {
    exists|i: int| from <= i < s.len() && #[trigger] s[i] != '0'
}

/// What an already-trimmed probe answer means. An empty answer means no
/// printers; a bare decimal count means printers exactly when it is positive;
/// a minus sign followed by digits is non-positive and means no printers;
/// anything else is ambiguous and read as "printers may exist".
pub open spec fn counts_as_installed(t: Seq<char>) -> bool {
    if t.len() == 0 {
        false
    } else if all_digits_from(t, 0) {
        some_nonzero_from(t, 0)
    } else if t.len() > 1 && t[0] == '-' && all_digits_from(t, 1) {
        false
    } else {
        true
    }
}

/// What the raw probe answer means: `None` stands for a failed probe, which
/// the defect-prone platform reads as "no printers".
pub open spec fn probe_reports_installed(output: Option<String>) -> bool {
    match output {
        None => false,
        Some(s) => counts_as_installed(trim_spec(s@)),
    }
}

/// Whether discovery may invoke the enumeration facility at all: always on a
/// platform without the defect, and only on a positive or ambiguous probe
/// answer on the platform with it.
pub open spec fn probe_allows(defect_platform: bool, output: Option<String>) -> bool {
    !defect_platform || probe_reports_installed(output)
}

fn trim_start(s: &str) -> (r: &str)
    ensures
        r@ == trim_start_spec(s@),
    decreases s@.len(),
{
    let n = s.unicode_len();
    if n > 0 {
        let c = s.get_char(0);
        if c == ' ' || c == '\t' || c == '\r' || c == '\n' {
            let rest = s.substring_char(1, n);
            return trim_start(rest);
        }
    }
    s
}

fn trim_end(s: &str) -> (r: &str)
    ensures
        r@ == trim_end_spec(s@),
    decreases s@.len(),
{
    let n = s.unicode_len();
    if n > 0 {
        let c = s.get_char(n - 1);
        if c == ' ' || c == '\t' || c == '\r' || c == '\n' {
            let rest = s.substring_char(0, n - 1);
            return trim_end(rest);
        }
    }
    s
}

fn trim(s: &str) -> (r: &str)
    ensures
        r@ == trim_spec(s@),
{
    trim_end(trim_start(s))
}

/// Scans the characters from position `from` on and reports whether all are
/// digits and whether any differs from '0'.
fn digits_info(t: &str, from: usize) -> (r: (bool, bool))
    requires
        from <= t@.len(),
    ensures
        r.0 == all_digits_from(t@, from as int),
        r.1 == some_nonzero_from(t@, from as int),
{
    let n = t.unicode_len();
    let mut i = from;
    let mut all = true;
    let mut nonzero = false;
    while i < n
        invariant
            from <= i <= n,
            n == t@.len(),
            all == (forall|j: int| from <= j < i ==> is_digit(#[trigger] t@[j])),
            nonzero == (exists|j: int| from <= j < i && #[trigger] t@[j] != '0'),
        decreases n - i,
    {
        let c = t.get_char(i);
        if !('0' as u32 <= c as u32 && c as u32 <= '9' as u32) {
            all = false;
        }
        if c != '0' {
            nonzero = true;
        }
        i += 1;
    }
    (all, nonzero)
}

fn classify_trimmed(t: &str) -> (r: bool)
    ensures
        r == counts_as_installed(t@),
{
    let n = t.unicode_len();
    if n == 0 {
        return false;
    }
    let (all0, nz0) = digits_info(t, 0);
    if all0 {
        return nz0;
    }
    if n > 1 && t.get_char(0) == '-' {
        let (all1, _nz1) = digits_info(t, 1);
        if all1 {
            return false;
        }
    }
    true
}

/// Reads the raw probe answer from the defect-prone platform: `None` stands
/// for a probe that failed outright. Never fails itself.
pub fn interpret_probe_output(output: &Option<String>) -> (r: bool)
    ensures
        r == probe_reports_installed(*output),
{
    match output {
        None => false,
        Some(s) => {
            let t = trim(s.as_str());
            classify_trimmed(t)
        },
    }
}

/// The crash-avoidance decision: whether the enumeration facility may be
/// invoked, given the platform family and the probe's raw answer.
pub fn may_enumerate(defect_platform: bool, probe_output: &Option<String>) -> (r: bool)
    ensures
        r == probe_allows(defect_platform, *probe_output),
{
    if !defect_platform {
        true
    } else {
        interpret_probe_output(probe_output)
    }
}

} // verus!
