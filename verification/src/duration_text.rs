//! Human-readable durations such as `1h 25s`, written and read by the `humantime` crate.

use vstd::prelude::*;
use crate::time_span::TimeSpan;

verus! {

/// The text `humantime::format_duration` writes for a span of whole seconds.
pub uninterp spec fn formatted_duration(secs: u64) -> Seq<char>;

/// What `humantime::parse_duration` reads from a text: the seconds and
/// nanoseconds of the duration, or `None` where the text is refused.
pub uninterp spec fn parsed_duration(text: Seq<char>) -> Option<(u64, u32)>;

/// Writes a span of whole seconds as `humantime::format_duration` does.
/// The crate documents that its output reads back as the same value with
/// `parse_duration`; for whole seconds its source shows this for every value.
#[verifier::external_body]
pub(crate) fn format_whole_seconds(secs: u64) -> (r: String)
    ensures
        r@ == formatted_duration(secs),
        parsed_duration(r@) == Some((secs, 0u32)),
{
    humantime::format_duration(std::time::Duration::from_secs(secs)).to_string()
}

/// Whether a character is one of the decimal digits `0` to `9`.
pub open spec fn is_decimal_digit(c: char) -> bool {
    '0' <= c && c <= '9'
}

/// Whether a character can be part of a time unit in a duration text: an
/// ASCII letter or `µ`.
pub open spec fn is_unit_char(c: char) -> bool {
    ('a' <= c && c <= 'z') || ('A' <= c && c <= 'Z') || c == 'µ'
}

/// An upper bound on the seconds one count of a unit adds, by the unit's
/// first character: at most one second for nanoseconds, microseconds and
/// seconds (`n`, `u`, `µ`, `s`), an hour for `h`, a day for `d`, a week for
/// `w`, a month of 2 630 016 seconds for `m` and `M` (minutes, months and
/// milliseconds all start so), and a year of 31 557 600 seconds otherwise.
pub open spec fn unit_seconds_bound(c: char) -> int {
    if c == 'n' || c == 'u' || c == 'µ' || c == 's' {
        1
    } else if c == 'h' {
        3600
    } else if c == 'd' {
        86400
    } else if c == 'w' {
        604800
    } else if c == 'm' || c == 'M' {
        2_630_016
    } else {
        31_557_600
    }
}

/// Scans a duration text from the start: a stretch of characters that are no
/// unit characters is a number, read as all its digits joined (its fraction
/// included); the unit that starts after it closes it. Gives the bound so far
/// (for each closed number, its value plus one times the unit's bound, plus
/// 128 seconds for what carrying nanoseconds can add) and the value of the
/// number still open.
pub open spec fn seconds_bound_scan(text: Seq<char>) -> (int, int)
    decreases text.len(),
{
    if text.len() == 0 {
        (0, 0)
    } else {
        let before = seconds_bound_scan(text.drop_last());
        let c = text.last();
        if is_unit_char(c) {
            if text.len() >= 2 && is_unit_char(text[text.len() - 2]) {
                before
            } else {
                (before.0 + (before.1 + 1) * unit_seconds_bound(c) + 128, 0)
            }
        } else if is_decimal_digit(c) {
            (before.0, before.1 * 10 + ((c as int) - ('0' as int)))
        } else {
            before
        }
    }
}

/// An upper bound on the seconds `humantime::parse_duration` adds up while it
/// reads a text. Each number it reads is made of the digits of one stretch
/// without unit characters (whitespace inside a number is skipped), is added
/// only once a unit follows, and adds at most its value times its unit
/// (plus less than one unit for a fraction) and a few carried seconds.
pub open spec fn seconds_bound(text: Seq<char>) -> int {
    seconds_bound_scan(text).0
}

/// Whether a duration text can be read without its running total of seconds
/// ever reaching `u64::MAX`.
pub open spec fn duration_text_in_range(text: Seq<char>) -> bool {
    seconds_bound(text) < u64::MAX
}

proof fn lemma_scan_nonneg(text: Seq<char>)
    ensures
        seconds_bound_scan(text).0 >= 0,
        seconds_bound_scan(text).1 >= 0,
        text.len() > 0 ==> seconds_bound_scan(text).0 >= seconds_bound_scan(text.drop_last()).0,
    decreases text.len(),
{
    if text.len() > 0 {
        lemma_scan_nonneg(text.drop_last());
        let before = seconds_bound_scan(text.drop_last());
        let c = text.last();
        assert((before.1 + 1) * unit_seconds_bound(c) >= 0) by (nonlinear_arith)
            requires
                before.1 >= 0,
                unit_seconds_bound(c) >= 1,
        ;
        assert(before.1 * 10 >= 0) by (nonlinear_arith)
            requires
                before.1 >= 0,
        ;
    }
}

proof fn lemma_bound_monotone(text: Seq<char>, k: int)
    requires
        0 <= k <= text.len(),
    ensures
        seconds_bound(text.take(k)) <= seconds_bound(text),
    decreases text.len() - k,
{
    if k < text.len() {
        lemma_bound_monotone(text, k + 1);
        lemma_scan_nonneg(text.take(k + 1));
        assert(text.take(k + 1).drop_last() =~= text.take(k));
    } else {
        assert(text.take(k) =~= text);
    }
}

fn unit_bound_of(c: char) -> (r: u128)
    ensures
        r == unit_seconds_bound(c),
{
    if c == 'n' || c == 'u' || c == 'µ' || c == 's' {
        1
    } else if c == 'h' {
        3600
    } else if c == 'd' {
        86400
    } else if c == 'w' {
        604800
    } else if c == 'm' || c == 'M' {
        2_630_016
    } else {
        31_557_600
    }
}

fn is_unit_char_exec(c: char) -> (r: bool)
    ensures
        r == is_unit_char(c),
{
    ('a' <= c && c <= 'z') || ('A' <= c && c <= 'Z') || c == 'µ'
}

/// The cap at which the value of an open number stops being tracked: any
/// number this large closed by a unit puts the bound past `u64::MAX`.
const VALUE_CAP: u128 = 0x1_0000_0000_0000_0000;

/// Whether a duration text can be read without its running total of seconds
/// ever reaching `u64::MAX`.
pub fn is_duration_text_in_range(text: &str) -> (r: bool)
    ensures
        r == duration_text_in_range(text@),
{
    let n = text.unicode_len();
    let mut total: u128 = 0;
    let mut value: u128 = 0;
    let mut prev_unit = false;
    let mut i: usize = 0;
    while i < n
        invariant
            0 <= i <= n,
            n == text@.len(),
            total == seconds_bound_scan(text@.take(i as int)).0,
            total < u64::MAX,
            value == if seconds_bound_scan(text@.take(i as int)).1 < VALUE_CAP {
                seconds_bound_scan(text@.take(i as int)).1
            } else {
                VALUE_CAP as int
            },
            0 <= seconds_bound_scan(text@.take(i as int)).1,
            prev_unit == (i > 0 && is_unit_char(text@[i - 1])),
            prev_unit ==> seconds_bound_scan(text@.take(i as int)).1 == 0,
        decreases n - i,
    {
        let c = text.get_char(i);
        let ghost s = text@.take(i + 1);
        let ghost before = seconds_bound_scan(text@.take(i as int));
        assert(s.drop_last() =~= text@.take(i as int));
        assert(s.last() == c);
        proof {
            lemma_scan_nonneg(s);
        }
        let unit = is_unit_char_exec(c);
        if unit {
            if !prev_unit {
                proof {
                    assert(!(s.len() >= 2 && is_unit_char(s[s.len() - 2])));
                }
                let m = unit_bound_of(c);
                assert((value + 1) * m <= (VALUE_CAP + 1) * 31_557_600) by (nonlinear_arith)
                    requires
                        value <= VALUE_CAP,
                        1 <= m <= 31_557_600,
                ;
                let term = (value + 1) * m + 128;
                if value == VALUE_CAP || total + term >= u64::MAX as u128 {
                    proof {
                        assert((before.1 + 1) * unit_seconds_bound(c) >= before.1 + 1)
                            by (nonlinear_arith)
                            requires
                                unit_seconds_bound(c) >= 1,
                                before.1 >= 0,
                        ;
                        if value < VALUE_CAP {
                            assert(term == (before.1 + 1) * unit_seconds_bound(c) + 128);
                        }
                        assert(seconds_bound(s) >= u64::MAX);
                        lemma_bound_monotone(text@, i + 1);
                    }
                    return false;
                }
                proof {
                    assert(term == (before.1 + 1) * unit_seconds_bound(c) + 128);
                }
                total = total + term;
            } else {
                proof {
                    assert(s.len() >= 2 && is_unit_char(s[s.len() - 2]));
                }
            }
            value = 0;
        } else if '0' <= c && c <= '9' {
            let d: u128 = (c as u32 - '0' as u32) as u128;
            proof {
                assert(d == (c as int) - ('0' as int));
            }
            let next = value * 10 + d;
            proof {
                if value == VALUE_CAP {
                    assert(before.1 * 10 + d >= VALUE_CAP) by (nonlinear_arith)
                        requires
                            before.1 >= VALUE_CAP,
                            d >= 0,
                    ;
                }
            }
            value = if next >= VALUE_CAP {
                VALUE_CAP
            } else {
                next
            };
        }
        prev_unit = unit;
        i = i + 1;
    }
    assert(text@.take(n as int) =~= text@);
    true
}

/// Reads a duration with `humantime::parse_duration`. A duration always has
/// fewer than a billion nanoseconds beyond its whole seconds. The crate
/// panics inside `Duration::new` only where its running total reaches
/// `u64::MAX` seconds with a second still to carry; the total of a text within
/// range stays below `seconds_bound`, so it never gets there.
#[verifier::external_body]
pub(crate) fn parse_duration_text(text: &str) -> (r: Option<TimeSpan>)
    requires
        duration_text_in_range(text@),
    ensures
        r matches Some(d) ==> d.wf() && parsed_duration(text@) == Some((d.secs, d.nanos)),
        r is None ==> parsed_duration(text@) is None,
{
    match humantime::parse_duration(text) {
        Ok(d) => Some(TimeSpan { secs: d.as_secs(), nanos: d.subsec_nanos() }),
        Err(_) => None,
    }
}

} // verus!
