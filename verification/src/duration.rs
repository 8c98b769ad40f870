//! Durations such as `30s`, `5m`, `2h`, `7d`, in seconds.
use crate::error::{fault_of, Error, Fault};
use crate::numeral::{
    decimal, i64_of, law_decimal_reads_back, lemma_natural_digits, parse_i64,
};
use crate::outside::CLOCK_MAX;
use crate::text::{trim, trim_end, trim_start, trimmed};
use vstd::prelude::*;
use vstd::string::*;

verus! {

/// How many seconds one of each unit is.
pub open spec fn unit_secs(unit: char) -> Option<int> {
    if unit == 's' {
        Some(1)
    } else if unit == 'm' {
        Some(60)
    } else if unit == 'h' {
        Some(3600)
    } else if unit == 'd' {
        Some(86400)
    } else {
        None
    }
}

/// The seconds of a duration: a number that is not negative, and a unit behind it,
/// with white space allowed round the two.
pub open spec fn duration_secs(s: Seq<char>) -> Result<i64, Fault<Seq<char>>> {
    let t = trimmed(s);
    if t.len() == 0 {
        Err(Fault::EmptyDuration)
    } else {
        match i64_of(t.drop_last()) {
            Err(_) => Err(Fault::InvalidDuration(t)),
            Ok(n) => if n < 0 {
                Err(Fault::NegativeDuration(t))
            } else {
                match unit_secs(t.last()) {
                    None => Err(Fault::UnknownDurationUnit(seq![t.last()])),
                    Some(secs) => if n * secs <= i64::MAX {
                        Ok((n * secs) as i64)
                    } else {
                        Err(Fault::DurationOverflow(t))
                    },
                }
            },
        }
    }
}

/// Whether the last character of the duration, white space aside, is one byte long,
/// so that it can be told from the number by its length.
pub open spec fn unit_is_one_byte(s: Seq<char>) -> bool {
    trimmed(s).len() > 0 ==> trimmed(s).last() as u32 <= 127
}

/// Whether `s` can be read as a duration and counted from `now` without leaving the
/// range of an `i64`.
pub open spec fn fits_from(s: Seq<char>, now: i64) -> bool {
    &&& unit_is_one_byte(s)
    &&& duration_secs(s) matches Ok(secs) ==> now + secs <= i64::MAX
}

/// Whether `s` can be read as a duration and counted from any moment that the clock
/// can show without leaving the range of an `i64`.
pub open spec fn deadline_fits(s: Seq<char>) -> bool {
    fits_from(s, CLOCK_MAX)
}

/// `num` units, in seconds.
fn scaled(num: i64, secs: i64, t: &str) -> (r: Result<i64, Error>)
    requires
        num >= 0,
        secs > 0,
    ensures
        fault_of(r) == if num * secs <= i64::MAX {
            Ok::<i64, Fault<Seq<char>>>((num * secs) as i64)
        } else {
            Err(Fault::DurationOverflow(t@))
        },
{
    match num.checked_mul(secs) {
        Some(v) => Ok(v),
        None => {
            proof {
                assert(num * secs >= 0) by (nonlinear_arith)
                    requires
                        num >= 0,
                        secs > 0,
                ;
            }
            Err(Fault::DurationOverflow(t.to_owned()))
        },
    }
}

/// Reads a duration such as `30s`, `5m`, `2h`, `7d` into seconds.
pub fn parse_duration_secs(s: &str) -> (r: Result<i64, Error>)
    requires
        unit_is_one_byte(s@),
    ensures
        fault_of(r) == duration_secs(s@),
{
    let t = trim(s);
    let n: usize = t.unicode_len();
    if n == 0 {
        return Err(Fault::EmptyDuration);
    }
    let num_str = t.substring_char(0, n - 1);
    let unit: char = t.get_char(n - 1);
    proof {
        assert(num_str@ =~= t@.drop_last());
    }
    match parse_i64(num_str) {
        Err(_) => Err(Fault::InvalidDuration(t.to_owned())),
        Ok(num) => {
            if num < 0 {
                Err(Fault::NegativeDuration(t.to_owned()))
            } else if unit == 's' {
                proof {
                    assert(num * 1 == num);
                }
                Ok(num)
            } else if unit == 'm' {
                scaled(num, 60, t)
            } else if unit == 'h' {
                scaled(num, 3600, t)
            } else if unit == 'd' {
                scaled(num, 86400, t)
            } else {
                let mut shown: String = String::new();
                shown.push(unit);
                proof {
                    assert(shown@ =~= seq![unit]);
                }
                Err(Fault::UnknownDurationUnit(shown))
            }
        },
    }
}

/// Whether `s` can be read as a duration and counted from `now` without leaving the
/// range of an `i64`.
pub fn is_deadline_from(s: &str, now: i64) -> (r: bool)
    ensures
        r == fits_from(s@, now),
{
    let t = trim(s);
    let n: usize = t.unicode_len();
    if n > 0 && t.get_char(n - 1) as u32 > 127 {
        return false;
    }
    match parse_duration_secs(s) {
        Ok(secs) => now <= 0 || secs <= i64::MAX - now,
        Err(_) => true,
    }
}

/// Whether `s` can be read as a duration and counted from any moment that the clock
/// can show without leaving the range of an `i64`.
pub fn is_deadline(s: &str) -> (r: bool)
    ensures
        r == deadline_fits(s@),
{
    is_deadline_from(s, CLOCK_MAX)
}

/// A number and a unit behind it are read as that many of the unit: for every number
/// that is not negative, and refused as too long exactly where the seconds leave the
/// range of an `i64`.
pub proof fn law_number_and_unit(n: i64, unit: char)
    requires
        n >= 0,
        unit_secs(unit) is Some,
    ensures
        duration_secs(decimal(n as int).push(unit)) == if n * unit_secs(unit)->0 <= i64::MAX {
            Ok::<i64, Fault<Seq<char>>>((n * unit_secs(unit)->0) as i64)
        } else {
            Err(Fault::DurationOverflow(decimal(n as int).push(unit)))
        },
{
    let digits = decimal(n as int);
    let s = digits.push(unit);
    lemma_natural_digits(n as nat);
    law_decimal_reads_back(n);
    assert(s[0] == digits[0]);
    assert(trim_start(s) == s);
    assert(trim_end(s) == s);
    assert(s.drop_last() =~= digits);
}

} // verus!
