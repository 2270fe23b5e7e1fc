//! Presentation helpers that are pure computation: decimal rendering of
//! counters and durations, and the timer progress percentage.  The actual
//! terminal drawing lives outside the library and consumes these.

pub mod forge;
pub mod mining;
pub mod prestige;
pub mod upgrades;

use vstd::prelude::*;

verus! {

/// The decimal digit character for a value in `0..10`.
pub open spec fn digit_char(d: int) -> char {
    if d == 0 {
        '0'
    } else if d == 1 {
        '1'
    } else if d == 2 {
        '2'
    } else if d == 3 {
        '3'
    } else if d == 4 {
        '4'
    } else if d == 5 {
        '5'
    } else if d == 6 {
        '6'
    } else if d == 7 {
        '7'
    } else if d == 8 {
        '8'
    } else {
        '9'
    }
}

/// The decimal rendering of a non-negative integer, most significant
/// digit first, with no leading zeros (and `"0"` for zero).
pub open spec fn spec_decimal(n: int) -> Seq<char>
    decreases n,
{
    if n < 10 {
        seq![digit_char(n)]
    } else {
        spec_decimal(n / 10).push(digit_char(n % 10))
    }
}

/// The characters of a digit list read back to front — the digits were
/// collected least significant first.
pub open spec fn rev_digit_chars(ds: Seq<u64>) -> Seq<char> {
    Seq::new(ds.len(), |i: int| digit_char(ds[ds.len() - 1 - i] as int))
}

fn digit_str(d: u64) -> (r: &'static str)
    requires
        d < 10,
    ensures
        r@ == seq![digit_char(d as int)],
{
    let r: &'static str = match d {
        0 => "0",
        1 => "1",
        2 => "2",
        3 => "3",
        4 => "4",
        5 => "5",
        6 => "6",
        7 => "7",
        8 => "8",
        _ => "9",
    };
    proof {
        reveal_strlit("0");
        reveal_strlit("1");
        reveal_strlit("2");
        reveal_strlit("3");
        reveal_strlit("4");
        reveal_strlit("5");
        reveal_strlit("6");
        reveal_strlit("7");
        reveal_strlit("8");
        reveal_strlit("9");
        assert(r@ =~= seq![digit_char(d as int)]);
    }
    r
}

/// Render an unsigned counter in decimal.
pub fn u64_to_string(n: u64) -> (s: String)
    ensures
        s@ == spec_decimal(n as int),
{
    let mut digits: Vec<u64> = Vec::new();
    let mut m: u64 = n;
    proof {
        assert(spec_decimal(n as int) =~= spec_decimal(m as int) + rev_digit_chars(digits@));
    }
    while m >= 10
        invariant
            spec_decimal(n as int) == spec_decimal(m as int) + rev_digit_chars(digits@),
            forall|j: int| 0 <= j < digits@.len() ==> #[trigger] digits@[j] < 10,
        decreases m,
    {
        let ghost old_digits = digits@;
        let ghost old_m = m as int;
        let d = m % 10;
        digits.push(d);
        m = m / 10;
        proof {
            assert(rev_digit_chars(digits@) =~= seq![digit_char(old_m % 10)] + rev_digit_chars(
                old_digits,
            ));
            assert(spec_decimal(old_m) == spec_decimal(old_m / 10).push(digit_char(old_m % 10)));
            assert(spec_decimal(old_m) + rev_digit_chars(old_digits) =~= spec_decimal(m as int)
                + rev_digit_chars(digits@));
        }
    }
    let ghost old_digits = digits@;
    digits.push(m);
    proof {
        assert(rev_digit_chars(digits@) =~= seq![digit_char(m as int)] + rev_digit_chars(
            old_digits,
        ));
        assert(spec_decimal(m as int) == seq![digit_char(m as int)]);
        assert(spec_decimal(n as int) =~= rev_digit_chars(digits@));
    }
    let mut s = String::new();
    let k = digits.len();
    for i in 0..k
        invariant
            k == digits@.len(),
            forall|j: int| 0 <= j < k ==> #[trigger] digits@[j] < 10,
            spec_decimal(n as int) == rev_digit_chars(digits@),
            s@ == rev_digit_chars(digits@).take(i as int),
    {
        let piece = digit_str(digits[k - 1 - i]);
        s.append(piece);
        proof {
            assert(rev_digit_chars(digits@).take(i + 1) =~= rev_digit_chars(digits@).take(i as int)
                + seq![digit_char(digits@[k - 1 - i] as int)]);
        }
    }
    proof {
        assert(rev_digit_chars(digits@).take(k as int) =~= rev_digit_chars(digits@));
    }
    s
}

/// The human-readable rendering of a duration given in whole seconds:
/// seconds alone under a minute, minutes and seconds under an hour, hours
/// and minutes from there on.
pub open spec fn spec_format_duration(secs: int) -> Seq<char> {
    if secs < 60 {
        spec_decimal(secs) + "s"@
    } else if secs < 3600 {
        spec_decimal(secs / 60) + "m "@ + spec_decimal(secs % 60) + "s"@
    } else {
        spec_decimal(secs / 3600) + "h "@ + spec_decimal((secs % 3600) / 60) + "m"@
    }
}

pub fn format_duration(secs: u64) -> (s: String)
    ensures
        s@ == spec_format_duration(secs as int),
{
    if secs < 60 {
        let mut s = u64_to_string(secs);
        s.append("s");
        s
    } else if secs < 3600 {
        let mut s = u64_to_string(secs / 60);
        s.append("m ");
        let rest = u64_to_string(secs % 60);
        s.append(rest.as_str());
        s.append("s");
        proof {
            assert(s@ =~= spec_format_duration(secs as int));
        }
        s
    } else {
        let mut s = u64_to_string(secs / 3600);
        s.append("h ");
        let rest = u64_to_string((secs % 3600) / 60);
        s.append(rest.as_str());
        s.append("m");
        proof {
            assert(s@ =~= spec_format_duration(secs as int));
        }
        s
    }
}

/// How far along a task's waiting period is, as a whole percentage:
/// `0` when the full interval still remains, `100` once nothing does.
pub fn timer_progress_percent(interval: u64, remaining: u64) -> (p: u16)
    requires
        interval > 0,
        remaining <= interval,
    ensures
        p == (interval - remaining) * 100 / (interval as int),
        p <= 100,
{
    let done: u128 = ((interval - remaining) as u128) * 100;
    let q: u128 = done / (interval as u128);
    proof {
        assert((interval - remaining) * 100 / (interval as int) <= 100) by (nonlinear_arith)
            requires
                interval > 0,
                remaining <= interval,
        ;
    }
    q as u16
}

} // verus!
