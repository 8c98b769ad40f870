//! Decimal numerals: reading them into machine integers and writing them out.
use crate::text::chars_of;
use vstd::prelude::*;

verus! {

/// Why a text is not the numeral of an integer of the wanted type.
#[derive(Clone, Copy, Debug, PartialEq, Eq, Structural)]
pub enum IntError {
    /// There is no character at all.
    Empty,
    /// A character stands where a digit is needed, or a sign stands alone.
    InvalidDigit,
    /// The number is above the type's largest.
    PosOverflow,
    /// The number is below the type's smallest.
    NegOverflow,
}

impl IntError {
    /// The error in words.
    pub open spec fn words(self) -> Seq<char> {
        match self {
            IntError::Empty => "cannot parse integer from empty string"@,
            IntError::InvalidDigit => "invalid digit found in string"@,
            IntError::PosOverflow => "number too large to fit in target type"@,
            IntError::NegOverflow => "number too small to fit in target type"@,
        }
    }

    /// The error in words.
    pub fn message(&self) -> (r: String)
        ensures
            r@ == self.words(),
    {
        match self {
            IntError::Empty => "cannot parse integer from empty string".to_owned(),
            IntError::InvalidDigit => "invalid digit found in string".to_owned(),
            IntError::PosOverflow => "number too large to fit in target type".to_owned(),
            IntError::NegOverflow => "number too small to fit in target type".to_owned(),
        }
    }
}

// ---------------------------------------------------------------------------
// Digits
// ---------------------------------------------------------------------------

/// The ten ASCII digits.
pub open spec fn is_digit(c: char) -> bool {
    '0' <= c <= '9'
}

/// The value of a digit.
pub open spec fn digit_value(c: char) -> int {
    c as int - '0' as int
}

/// The digit of a value below ten.
pub open spec fn digit_char(d: int) -> char {
    (d + '0' as int) as char
}

/// Whether every character of `s` is a digit.
pub open spec fn all_digits(s: Seq<char>) -> bool {
    forall|i: int| 0 <= i < s.len() ==> is_digit(#[trigger] s[i])
}

/// The number that the digits of `s` spell, the last of them the ones.
pub open spec fn digits_value(s: Seq<char>) -> int
    decreases s.len(),
{
    if s.len() == 0 {
        0
    } else {
        10 * digits_value(s.drop_last()) + digit_value(s.last())
    }
}

/// The digits that `s` begins with.
pub open spec fn digit_prefix(s: Seq<char>) -> Seq<char>
    decreases s.len(),
{
    if s.len() > 0 && is_digit(s[0]) {
        seq![s[0]] + digit_prefix(s.drop_first())
    } else {
        Seq::empty()
    }
}

proof fn lemma_digit_prefix_is(s: Seq<char>, k: int)
    requires
        0 <= k <= s.len(),
        forall|i: int| 0 <= i < k ==> is_digit(#[trigger] s[i]),
        k < s.len() ==> !is_digit(s[k]),
    ensures
        digit_prefix(s) == s.take(k),
    decreases k,
{
    if k > 0 {
        assert(is_digit(s[0]));
        lemma_digit_prefix_is(s.drop_first(), k - 1);
        assert(seq![s[0]] + s.drop_first().take(k - 1) =~= s.take(k));
    } else {
        assert(s.take(0) =~= Seq::<char>::empty());
    }
}

proof fn lemma_digit_prefix_extends(s: Seq<char>, k: int)
    requires
        0 <= k <= s.len(),
        forall|i: int| 0 <= i < k ==> is_digit(#[trigger] s[i]),
    ensures
        s.take(k).is_prefix_of(digit_prefix(s)),
        all_digits(digit_prefix(s)),
    decreases s.len(),
{
    if s.len() > 0 && is_digit(s[0]) {
        let rest = s.drop_first();
        lemma_digit_prefix_extends(
            rest,
            if k > 0 {
                k - 1
            } else {
                0
            },
        );
        let tail = digit_prefix(rest);
        let all = digit_prefix(s);
        assert(all == seq![s[0]] + tail);
        assert forall|i: int| 0 <= i < all.len() implies is_digit(#[trigger] all[i]) by {
            if i > 0 {
                assert(is_digit(tail[i - 1]));
            }
        }
        if k > 0 {
            assert(rest.take(k - 1) =~= tail.take(k - 1));
            assert forall|i: int| 0 <= i < k implies s.take(k)[i] == all[i] by {
                if i > 0 {
                    assert(rest.take(k - 1)[i - 1] == tail.take(k - 1)[i - 1]);
                }
            }
            assert(s.take(k) =~= all.take(k));
        }
    } else {
        if k > 0 {
            assert(is_digit(s[0]));
        }
    }
}

/// More digits never spell a smaller number.
proof fn lemma_digits_value_grows(s: Seq<char>, k: int)
    requires
        all_digits(s),
        0 <= k <= s.len(),
    ensures
        0 <= digits_value(s.take(k)) <= digits_value(s),
    decreases s.len(),
{
    if s.len() == 0 {
        assert(s.take(k) =~= s);
    } else if k == s.len() {
        assert(s.take(k) =~= s);
        assert(all_digits(s.drop_last()));
        lemma_digits_value_grows(s.drop_last(), s.len() - 1);
        assert(s.drop_last().take(s.len() - 1) =~= s.drop_last());
        assert(is_digit(s[s.len() - 1]));
    } else {
        assert(all_digits(s.drop_last()));
        lemma_digits_value_grows(s.drop_last(), k);
        assert(s.drop_last().take(k) =~= s.take(k));
        lemma_digits_value_grows(s.drop_last(), s.len() - 1);
        assert(s.drop_last().take(s.len() - 1) =~= s.drop_last());
        assert(is_digit(s[s.len() - 1]));
    }
}

/// The number that the characters from `from` on spell, where they are all digits
/// and the number is at most `limit`.
fn read_digits(chars: &Vec<char>, from: usize, limit: u64) -> (r: Result<u64, IntError>)
    requires
        from <= chars@.len(),
    ensures
        ({
            let body = chars@.skip(from as int);
            match r {
                Ok(v) => all_digits(body) && digits_value(body) == v && v <= limit,
                Err(IntError::InvalidDigit) => !all_digits(body) && digits_value(digit_prefix(body))
                    <= limit,
                Err(IntError::PosOverflow) => digits_value(digit_prefix(body)) > limit,
                Err(_) => false,
            }
        }),
{
    let ghost body = chars@.skip(from as int);
    let mut acc: u64 = 0;
    let mut i: usize = from;
    proof {
        assert(body.take(0) =~= Seq::<char>::empty());
    }
    while i < chars.len()
        invariant
            from <= i <= chars@.len(),
            body == chars@.skip(from as int),
            acc <= limit,
            acc == digits_value(body.take(i - from)),
            forall|k: int| 0 <= k < i - from ==> is_digit(#[trigger] body[k]),
        decreases chars@.len() - i,
    {
        let c: char = chars[i];
        let ghost k = i - from;
        proof {
            assert(body[k] == c);
            assert(body.take(k + 1).drop_last() =~= body.take(k));
            assert(body.take(k + 1).last() == c);
        }
        if c < '0' || c > '9' {
            proof {
                lemma_digit_prefix_is(body, k);
            }
            return Err(IntError::InvalidDigit);
        }
        let d: u64 = (c as u32 - '0' as u32) as u64;
        if d > limit || acc > (limit - d) / 10 {
            proof {
                assert(digits_value(body.take(k + 1)) == 10 * acc + d);
                assert(10 * acc + d > limit);
                lemma_digit_prefix_extends(body, k + 1);
                lemma_digits_value_grows(digit_prefix(body), k + 1);
                assert(digit_prefix(body).take(k + 1) =~= body.take(k + 1));
            }
            return Err(IntError::PosOverflow);
        }
        acc = acc * 10 + d;
        i = i + 1;
    }
    proof {
        assert(body.take(i - from) =~= body);
    }
    Ok(acc)
}

// ---------------------------------------------------------------------------
// Reading
// ---------------------------------------------------------------------------

/// Whether `s` begins with a minus sign, and `s` without its sign.
pub open spec fn sign_and_body(s: Seq<char>) -> (bool, Seq<char>) {
    if s.len() > 0 && s[0] == '-' {
        (true, s.drop_first())
    } else if s.len() > 0 && s[0] == '+' {
        (false, s.drop_first())
    } else {
        (false, s)
    }
}

/// The integer that `s` is the numeral of: an optional sign, and at least one
/// digit, and nothing else.
pub open spec fn numeral_value(s: Seq<char>) -> Option<int> {
    let (negative, body) = sign_and_body(s);
    if body.len() > 0 && all_digits(body) {
        Some(
            if negative {
                -digits_value(body)
            } else {
                digits_value(body)
            },
        )
    } else {
        None
    }
}

/// Why `s` is not the numeral of an `i64`: it is the first thing wrong with it,
/// read from the left.
pub open spec fn i64_error(s: Seq<char>) -> IntError {
    let (negative, body) = sign_and_body(s);
    let leading = digits_value(digit_prefix(body));
    if s.len() == 0 {
        IntError::Empty
    } else if negative && -leading < i64::MIN {
        IntError::NegOverflow
    } else if !negative && leading > i64::MAX {
        IntError::PosOverflow
    } else {
        IntError::InvalidDigit
    }
}

/// The `i64` that `s` is the numeral of.
pub open spec fn i64_of(s: Seq<char>) -> Result<i64, IntError> {
    match numeral_value(s) {
        Some(v) => if i64::MIN <= v <= i64::MAX {
            Ok(v as i64)
        } else {
            Err(i64_error(s))
        },
        None => Err(i64_error(s)),
    }
}

/// The `u32` that `s` is the numeral of; a minus sign has no place in it.
pub open spec fn u32_of(s: Seq<char>) -> Option<u32> {
    match numeral_value(s) {
        Some(v) => if s[0] != '-' && v <= u32::MAX {
            Some(v as u32)
        } else {
            None
        },
        None => None,
    }
}

proof fn lemma_digit_prefix_of_digits(s: Seq<char>)
    requires
        all_digits(s),
    ensures
        digit_prefix(s) == s,
{
    lemma_digit_prefix_is(s, s.len() as int);
    assert(s.take(s.len() as int) =~= s);
}

/// Reads the numeral of an `i64`.
pub fn parse_i64(s: &str) -> (r: Result<i64, IntError>)
    ensures
        r == i64_of(s@),
{
    let chars = chars_of(s);
    if chars.len() == 0 {
        return Err(IntError::Empty);
    }
    let negative: bool = chars[0] == '-';
    let from: usize = if negative || chars[0] == '+' {
        1
    } else {
        0
    };
    let ghost body = sign_and_body(s@).1;
    proof {
        assert(chars@.skip(1) =~= s@.drop_first());
        assert(chars@.skip(0) =~= s@);
        assert(body == chars@.skip(from as int));
        if all_digits(body) {
            lemma_digit_prefix_of_digits(body);
            lemma_digits_value_grows(body, 0);
            assert(body.take(0) =~= Seq::<char>::empty());
        }
    }
    if from == chars.len() {
        proof {
            assert(body =~= Seq::<char>::empty());
            assert(digit_prefix(body) =~= Seq::<char>::empty());
        }
        return Err(IntError::InvalidDigit);
    }
    let limit: u64 = if negative {
        0x8000_0000_0000_0000
    } else {
        0x7fff_ffff_ffff_ffff
    };
    match read_digits(&chars, from, limit) {
        Ok(v) => {
            if negative {
                if v == 0x8000_0000_0000_0000 {
                    Ok(i64::MIN)
                } else {
                    Ok(-(v as i64))
                }
            } else {
                Ok(v as i64)
            }
        },
        Err(e) => {
            match e {
                IntError::PosOverflow => if negative {
                    Err(IntError::NegOverflow)
                } else {
                    Err(IntError::PosOverflow)
                },
                _ => Err(IntError::InvalidDigit),
            }
        },
    }
}

/// Reads the numeral of a `u32`.
pub fn parse_u32(s: &str) -> (r: Option<u32>)
    ensures
        r == u32_of(s@),
{
    let chars = chars_of(s);
    if chars.len() == 0 {
        return None;
    }
    if chars[0] == '-' {
        return None;
    }
    let from: usize = if chars[0] == '+' {
        1
    } else {
        0
    };
    let ghost body = sign_and_body(s@).1;
    proof {
        assert(chars@.skip(1) =~= s@.drop_first());
        assert(chars@.skip(0) =~= s@);
        assert(body == chars@.skip(from as int));
        if all_digits(body) {
            lemma_digit_prefix_of_digits(body);
            lemma_digits_value_grows(body, 0);
            assert(body.take(0) =~= Seq::<char>::empty());
        }
    }
    if from == chars.len() {
        return None;
    }
    match read_digits(&chars, from, u32::MAX as u64) {
        Ok(v) => Some(v as u32),
        Err(_) => None,
    }
}

// ---------------------------------------------------------------------------
// Writing
// ---------------------------------------------------------------------------

/// The decimal digits of `n`, with no leading zero.
pub open spec fn natural(n: nat) -> Seq<char>
    decreases n,
{
    if n < 10 {
        seq![digit_char(n as int)]
    } else {
        natural(n / 10).push(digit_char((n % 10) as int))
    }
}

/// The decimal numeral of `n`, with a minus sign where it is negative.
pub open spec fn decimal(n: int) -> Seq<char> {
    if n < 0 {
        seq!['-'] + natural((-n) as nat)
    } else {
        natural(n as nat)
    }
}

fn push_natural(s: &mut String, n: u64)
    ensures
        final(s)@ == old(s)@ + natural(n as nat),
    decreases n,
{
    if n >= 10 {
        push_natural(s, n / 10);
    }
    let d: u8 = (n % 10) as u8;
    let c: char = (48 + d) as char;
    s.push(c);
    proof {
        assert(c == digit_char((n % 10) as int));
        assert(s@ =~= old(s)@ + natural(n as nat));
    }
}

/// Appends the decimal numeral of `n`.
pub fn push_i64(s: &mut String, n: i64)
    ensures
        final(s)@ == old(s)@ + decimal(n as int),
{
    if n < 0 {
        s.push('-');
        let m: u64 = (-(n + 1)) as u64 + 1;
        push_natural(s, m);
        proof {
            assert(m == -n);
            assert(s@ =~= old(s)@ + decimal(n as int));
        }
    } else {
        push_natural(s, n as u64);
    }
}

/// Appends the decimal numeral of `n`.
pub fn push_u32(s: &mut String, n: u32)
    ensures
        final(s)@ == old(s)@ + decimal(n as int),
{
    push_natural(s, n as u64);
}

// ---------------------------------------------------------------------------
// Laws
// ---------------------------------------------------------------------------

/// The digits of a natural number spell that number.
pub proof fn lemma_natural_digits(n: nat)
    ensures
        natural(n).len() > 0,
        all_digits(natural(n)),
        digits_value(natural(n)) == n,
    decreases n,
{
    let s = natural(n);
    if n < 10 {
        assert(s.drop_last() =~= Seq::<char>::empty());
        assert(digits_value(s.drop_last()) == 0);
        assert(digit_value(digit_char(n as int)) == n);
    } else {
        lemma_natural_digits(n / 10);
        let d = (n % 10) as int;
        assert(s.drop_last() =~= natural(n / 10));
        assert(digit_value(digit_char(d)) == d);
        assert forall|i: int| 0 <= i < s.len() implies is_digit(#[trigger] s[i]) by {
            if i < s.len() - 1 {
                assert(is_digit(natural(n / 10)[i]));
            }
        }
    }
}

/// What is written out reads back: the numeral of an `i64` is read as that `i64`.
pub proof fn law_decimal_reads_back(n: i64)
    ensures
        i64_of(decimal(n as int)) == Ok::<i64, IntError>(n),
{
    let m = if n < 0 {
        (-n) as nat
    } else {
        n as nat
    };
    lemma_natural_digits(m);
    let s = decimal(n as int);
    if n < 0 {
        assert(s.drop_first() =~= natural(m));
    } else {
        assert(is_digit(s[0]));
    }
}

} // verus!
