//! The per-tool marker that lets a remote release check happen at most once a day.
use vstd::prelude::*;

use crate::version::{
    all_digits, dec, digit_char, digit_value, digits_value, is_digit, parse_u64, u64_of_text,
};

verus! {

/// Milliseconds in a day.
pub const DAY_MS: u64 = 86400000;

/// What was found where the marker of a tool should be.
#[derive(Debug, Clone, PartialEq, Eq)]
pub enum Marker {
    /// No marker yet.
    Missing,
    /// A directory stands where the marker file should be.
    Directory,
    /// The marker file, with its text.
    Contents(String),
    /// The cache root could not be found or read.
    Unavailable,
}

/// Whether to check now, and the timestamp to record first if so.
#[derive(Debug, Clone, Copy, PartialEq, Eq, Structural)]
pub struct Freshness {
    pub check: bool,
    pub record: Option<u64>,
}

/// More than a day has passed since `last`; a marker from the future is never stale.
pub open spec fn stale(last: u64, now: u64) -> bool {
    now > last && now - last > DAY_MS
}

pub open spec fn freshness_of(m: Marker, now: u64) -> Freshness {
    match m {
        Marker::Missing => Freshness { check: true, record: Some(now) },
        Marker::Contents(s) => match u64_of_text(s@) {
            Some(last) => if stale(last, now) {
                Freshness { check: true, record: Some(now) }
            } else {
                Freshness { check: false, record: None }
            },
            None => Freshness { check: false, record: None },
        },
        _ => Freshness { check: false, record: None },
    }
}

/// Decides from the marker and the time now, in milliseconds since the UNIX
/// epoch, whether to check for a newer release. A check is always preceded
/// by recording the time now, so that a failing check is not repeated within
/// the day; a directory in the marker's place, unreadable text or a missing
/// cache root all skip the check.
pub fn should_check_for_new_version(marker: &Marker, now_ms: u64) -> (r: Freshness)
    ensures
        r == freshness_of(*marker, now_ms),
{
    match marker {
        Marker::Missing => Freshness { check: true, record: Some(now_ms) },
        Marker::Contents(s) => match parse_u64(s.as_str()) {
            Some(last) => {
                if now_ms > last && now_ms - last > DAY_MS {
                    Freshness { check: true, record: Some(now_ms) }
                } else {
                    Freshness { check: false, record: None }
                }
            },
            None => Freshness { check: false, record: None },
        },
        _ => Freshness { check: false, record: None },
    }
}

/// The check goes ahead only once its timestamp has been recorded.
pub fn check_after_record(decision: &Freshness, recorded: bool) -> (r: bool)
    ensures
        r == (decision.check && (decision.record is None || recorded)),
{
    decision.check && (decision.record.is_none() || recorded)
}

proof fn lemma_digit(d: nat)
    requires
        d < 10,
    ensures
        is_digit(digit_char(d)),
        digit_value(digit_char(d)) == d,
        digit_char(d) != '+',
{
    let t = seq!['0', '1', '2', '3', '4', '5', '6', '7', '8', '9'];
    assert(t[0] == '0' && t[1] == '1' && t[2] == '2' && t[3] == '3' && t[4] == '4');
    assert(t[5] == '5' && t[6] == '6' && t[7] == '7' && t[8] == '8' && t[9] == '9');
}

/// The canonical decimal text of a number reads back as that number.
pub proof fn lemma_dec_reads_back(n: nat)
    ensures
        dec(n).len() > 0,
        all_digits(dec(n)),
        digits_value(dec(n)) == n,
        dec(n)[0] != '+',
    decreases n,
{
    if n < 10 {
        lemma_digit(n);
        assert(dec(n).drop_last() =~= Seq::<char>::empty());
        assert(digits_value(Seq::<char>::empty()) == 0);
        assert(digits_value(dec(n)) == digits_value(dec(n).drop_last()) * 10 + digit_value(dec(n).last()));
    } else {
        assert((n / 10) * 10 + n % 10 == n) by (nonlinear_arith);
        lemma_dec_reads_back(n / 10);
        lemma_digit(n % 10);
        let s = dec(n);
        assert(s.drop_last() =~= dec(n / 10));
        assert(s[0] == dec(n / 10)[0]);
        assert(s.last() == digit_char(n % 10));
        assert(digits_value(s) == digits_value(s.drop_last()) * 10 + digit_value(s.last()));
        assert forall|i: int| 0 <= i < s.len() implies is_digit(#[trigger] s[i]) by {
            if i < s.len() - 1 {
                assert(s[i] == dec(n / 10)[i]);
            }
        }
    }
}

/// A marker written as the decimal text of `t` is read back as `t`.
pub proof fn lemma_marker_reads_back(t: u64)
    ensures
        u64_of_text(dec(t as nat)) == Some(t),
{
    lemma_dec_reads_back(t as nat);
}

/// The first call, with no marker yet, checks and records its time; a call
/// within a day of that record does not check; a call more than a day later
/// checks once more and records its own time. (A clock set back before the
/// record does not check either.)
pub proof fn lemma_check_at_most_daily(t1: u64, t2: u64, t3: u64, text: String)
    requires
        text@ == dec(t1 as nat),
        t2 <= t1 + DAY_MS,
        t3 > t1 + DAY_MS,
    ensures
        freshness_of(Marker::Missing, t1) == (Freshness { check: true, record: Some(t1) }),
        !freshness_of(Marker::Contents(text), t2).check,
        freshness_of(Marker::Contents(text), t3) == (Freshness { check: true, record: Some(t3) }),
{
    lemma_marker_reads_back(t1);
}

} // verus!
