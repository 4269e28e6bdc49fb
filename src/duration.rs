//! Compound duration tokens such as `32h47m50s`.
use vstd::prelude::*;

verus! {

/// An ASCII decimal digit.
pub open spec fn is_digit(c: char) -> bool {
    '0' <= c && c <= '9'
}

pub open spec fn digit_value(c: char) -> nat {
    (c as nat - '0' as nat) as nat
}

/// A unit letter: hours, minutes or seconds.
pub open spec fn is_unit(c: char) -> bool {
    c == 'h' || c == 'm' || c == 's'
}

pub open spec fn unit_seconds(c: char) -> nat {
    if c == 'h' {
        3600
    } else if c == 'm' {
        60
    } else {
        1
    }
}

/// What a group `<digits><unit>` adds. A missing digit run, or one too large for a
/// `usize`, adds nothing.
pub open spec fn group_seconds(run: Option<nat>, unit: char) -> nat {
    match run {
        Some(n) => if n <= usize::MAX {
            n * unit_seconds(unit)
        } else {
            0
        },
        None => 0,
    }
}

/// Reads `s` from the left: the seconds of the groups closed so far, and the value of
/// the digit run still waiting for its unit. Any other character is skipped.
pub open spec fn scan(s: Seq<char>) -> (nat, Option<nat>)
    decreases s.len(),
{
    if s.len() == 0 {
        (0, None)
    } else {
        let (total, run) = scan(s.drop_last());
        let c = s.last();
        if is_digit(c) {
            (
                total,
                Some(
                    match run {
                        Some(n) => n * 10 + digit_value(c),
                        None => digit_value(c),
                    },
                ),
            )
        } else if is_unit(c) {
            (total + group_seconds(run, c), None)
        } else {
            (total, run)
        }
    }
}

/// The total number of seconds that the token `s` denotes.
pub open spec fn duration_seconds(s: Seq<char>) -> nat {
    scan(s).0
}

pub open spec fn saturate(n: nat) -> usize {
    if n <= usize::MAX {
        n as usize
    } else {
        usize::MAX
    }
}

proof fn lemma_run_stays_large(n: nat, d: nat)
    requires
        n > usize::MAX,
    ensures
        n * 10 + d > usize::MAX,
{
    assert(n * 10 >= n) by (nonlinear_arith)
        requires
            n >= 0,
    ;
}

proof fn lemma_div_bound(a: nat, k: nat, m: nat)
    requires
        k > 0,
    ensures
        a <= m / k <==> a * k <= m,
{
    assert(a <= m / k ==> a * k <= m) by (nonlinear_arith)
        requires
            k > 0,
    ;
    assert(a * k <= m ==> a <= m / k) by (nonlinear_arith)
        requires
            k > 0,
    ;
}

/// Converts a duration token into seconds. Groups `<digits><unit>` with unit `h`, `m` or
/// `s` are summed; everything else is skipped. The sum saturates at `usize::MAX`.
pub fn parse_duration(s: &str) -> (r: usize)
    ensures
        r == saturate(duration_seconds(s@)),
{
    let len = s.unicode_len();
    let mut seconds: usize = 0;
    let mut run: usize = 0;
    let mut has_run = false;
    let mut run_too_large = false;
    let mut i: usize = 0;
    while i < len
        invariant
            len == s@.len(),
            i <= len,
            seconds == saturate(scan(s@.take(i as int)).0),
            has_run <==> scan(s@.take(i as int)).1 is Some,
            !has_run ==> !run_too_large,
            has_run ==> (run_too_large <==> scan(s@.take(i as int)).1->0 > usize::MAX),
            has_run && !run_too_large ==> run == scan(s@.take(i as int)).1->0,
        decreases len - i,
    {
        let c = s.get_char(i);
        proof {
            assert(s@.take(i as int + 1).drop_last() == s@.take(i as int));
            assert(s@.take(i as int + 1).last() == c);
        }
        let ghost prev = scan(s@.take(i as int));
        if '0' <= c && c <= '9' {
            let d = (c as u32 - '0' as u32) as usize;
            let base: usize = if has_run { run } else { 0 };
            if has_run && run_too_large {
                proof {
                    lemma_run_stays_large(prev.1->0, digit_value(c));
                }
            } else if base > (usize::MAX - d) / 10 {
                proof {
                    lemma_div_bound(base as nat, 10, (usize::MAX - d) as nat);
                }
                run_too_large = true;
            } else {
                proof {
                    lemma_div_bound(base as nat, 10, (usize::MAX - d) as nat);
                }
                run = base * 10 + d;
            }
            has_run = true;
        } else if c == 'h' || c == 'm' || c == 's' {
            let unit: usize = if c == 'h' {
                3600
            } else if c == 'm' {
                60
            } else {
                1
            };
            if has_run && !run_too_large {
                proof {
                    lemma_div_bound(run as nat, unit as nat, usize::MAX as nat);
                }
                if run > usize::MAX / unit {
                    seconds = usize::MAX;
                } else {
                    let add = run * unit;
                    seconds = seconds.saturating_add(add);
                }
            }
            has_run = false;
            run_too_large = false;
        }
        i = i + 1;
    }
    proof {
        assert(s@.take(len as int) == s@);
    }
    seconds
}

} // verus!
