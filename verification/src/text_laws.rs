//! What holds of texts, numerals and durations, said of their characters.
use crate::duration::{duration_secs, fits_from};
use crate::error::Fault;
use crate::numeral::{
    all_digits, decimal, digit_char, digit_prefix, digit_value, digits_value, i64_of, is_digit,
    lemma_natural_digits, natural, sign_and_body, u32_of, IntError,
};
use crate::text::{
    first_line, lists, other_lines, split_on, trim_end, trim_start, trimmed, white_space,
};
use vstd::prelude::*;

verus! {

// ---------------------------------------------------------------------------
// Trimming
// ---------------------------------------------------------------------------

proof fn lemma_trim_start_parts(s: Seq<char>) -> (k: int)
    ensures
        0 <= k <= s.len(),
        trim_start(s) == s.skip(k),
        forall|i: int| 0 <= i < k ==> white_space(#[trigger] s[i]),
        k < s.len() ==> !white_space(s[k]),
    decreases s.len(),
{
    if s.len() > 0 && white_space(s[0]) {
        let j = lemma_trim_start_parts(s.drop_first());
        assert(s.drop_first().skip(j) =~= s.skip(j + 1));
        assert forall|i: int| 0 <= i < j + 1 implies white_space(#[trigger] s[i]) by {
            if i > 0 {
                assert(white_space(s.drop_first()[i - 1]));
            }
        }
        j + 1
    } else {
        assert(s.skip(0) =~= s);
        0
    }
}

proof fn lemma_trim_end_parts(s: Seq<char>) -> (k: int)
    ensures
        0 <= k <= s.len(),
        trim_end(s) == s.take(k),
        forall|i: int| k <= i < s.len() ==> white_space(#[trigger] s[i]),
        k > 0 ==> !white_space(s[k - 1]),
    decreases s.len(),
{
    if s.len() > 0 && white_space(s.last()) {
        let j = lemma_trim_end_parts(s.drop_last());
        assert(s.drop_last().take(j) =~= s.take(j));
        assert forall|i: int| j <= i < s.len() implies white_space(#[trigger] s[i]) by {
            if i < s.len() - 1 {
                assert(white_space(s.drop_last()[i]));
            }
        }
        j
    } else {
        assert(s.take(s.len() as int) =~= s);
        s.len() as int
    }
}

/// Trimming takes white space from the two ends, all of it, and nothing else: what is left
/// is a stretch of the text, it neither begins nor ends with white space, and what was
/// before and behind it is white space.
pub proof fn law_trimming_takes_white_space_from_the_ends(s: Seq<char>) -> (ends: (int, int))
    ensures
        0 <= ends.0 <= ends.1 <= s.len(),
        trimmed(s) == s.subrange(ends.0, ends.1),
        forall|i: int| 0 <= i < ends.0 || ends.1 <= i < s.len() ==> white_space(#[trigger] s[i]),
        ends.0 < ends.1 ==> !white_space(s[ends.0]) && !white_space(s[ends.1 - 1]),
{
    let from = lemma_trim_start_parts(s);
    let rest = s.skip(from);
    let len = lemma_trim_end_parts(rest);
    assert(rest.take(len) =~= s.subrange(from, from + len));
    assert forall|i: int|
        0 <= i < from || from + len <= i < s.len() implies white_space(#[trigger] s[i]) by {
        if i >= from + len {
            assert(white_space(rest[i - from]));
        }
    }
    (from, from + len)
}

/// A text without white space at its ends is left as it is by trimming, and trimming twice is
/// trimming once.
pub proof fn law_trimmed_text_stays(s: Seq<char>)
    ensures
        s.len() == 0 || (!white_space(s[0]) && !white_space(s.last())) ==> trimmed(s) == s,
        trimmed(trimmed(s)) == trimmed(s),
{
    let ends = law_trimming_takes_white_space_from_the_ends(s);
    let t = trimmed(s);
    if t.len() > 0 {
        assert(t[0] == s[ends.0]);
        assert(t[t.len() - 1] == s[ends.1 - 1]);
    }
}

// ---------------------------------------------------------------------------
// Splitting
// ---------------------------------------------------------------------------

/// The pieces of a text, with separators between them.
pub open spec fn joined_by(pieces: Seq<Seq<char>>, sep: char) -> Seq<char>
    decreases pieces.len(),
{
    if pieces.len() == 0 {
        Seq::empty()
    } else if pieces.len() == 1 {
        pieces[0]
    } else {
        joined_by(pieces.drop_last(), sep).push(sep) + pieces.last()
    }
}

/// The pieces of a text put together again, with the separator between them, are the text,
/// and no piece has the separator in it.
pub proof fn law_pieces_make_up_the_text(s: Seq<char>, sep: char)
    ensures
        split_on(s, sep).len() > 0,
        joined_by(split_on(s, sep), sep) == s,
        forall|i: int|
            0 <= i < split_on(s, sep).len() ==> !(#[trigger] split_on(s, sep)[i]).contains(sep),
    decreases s.len(),
{
    let all = split_on(s, sep);
    if s.len() == 0 {
        assert(joined_by(all, sep) =~= s);
    } else {
        let front = split_on(s.drop_last(), sep);
        law_pieces_make_up_the_text(s.drop_last(), sep);
        if s.last() == sep {
            assert(all.drop_last() =~= front);
            assert(joined_by(all, sep) =~= s.drop_last().push(sep));
            assert(s.drop_last().push(sep) =~= s);
            assert forall|i: int| 0 <= i < all.len() implies !(#[trigger] all[i]).contains(sep) by {
                if i < front.len() {
                    assert(all[i] == front[i]);
                }
            }
        } else {
            let last = front.last().push(s.last());
            assert(all == front.drop_last().push(last));
            assert(all.drop_last() =~= front.drop_last());
            if front.len() == 1 {
                assert(joined_by(all, sep) =~= front[0].push(s.last()));
                assert(front[0].push(s.last()) =~= s);
            } else {
                assert(joined_by(all, sep) =~= joined_by(front.drop_last(), sep).push(sep) + last);
                assert(joined_by(front, sep) == joined_by(front.drop_last(), sep).push(sep)
                    + front.last());
                assert(joined_by(all, sep) =~= joined_by(front, sep).push(s.last()));
                assert(s.drop_last().push(s.last()) =~= s);
            }
            assert forall|i: int| 0 <= i < all.len() implies !(#[trigger] all[i]).contains(sep) by {
                if i < front.len() - 1 {
                    assert(all[i] == front[i]);
                } else {
                    assert(!front[front.len() - 1].contains(sep));
                    if last.contains(sep) {
                        let k = choose|k: int| 0 <= k < last.len() && last[k] == sep;
                        assert(front.last()[k] == sep);
                    }
                }
            }
        }
    }
}

/// A text is listed exactly where it is a trimmed piece: for pieces without the separator,
/// put together with it, those are the pieces.
pub proof fn law_listed_is_a_trimmed_piece(pieces: Seq<Seq<char>>, sep: char, wanted: Seq<char>)
    requires
        pieces.len() > 0,
        forall|i: int| 0 <= i < pieces.len() ==> !(#[trigger] pieces[i]).contains(sep),
    ensures
        split_on(joined_by(pieces, sep), sep) == pieces,
        lists(joined_by(pieces, sep), sep, wanted) <==> exists|i: int|
            0 <= i < pieces.len() && trimmed(#[trigger] pieces[i]) == wanted,
{
    lemma_split_joined(pieces, sep);
}

proof fn lemma_split_joined(pieces: Seq<Seq<char>>, sep: char)
    requires
        pieces.len() > 0,
        forall|i: int| 0 <= i < pieces.len() ==> !(#[trigger] pieces[i]).contains(sep),
    ensures
        split_on(joined_by(pieces, sep), sep) == pieces,
    decreases pieces.len(), pieces.last().len(),
{
    let last = pieces.last();
    let s = joined_by(pieces, sep);
    assert(pieces[pieces.len() - 1] == last);
    if last.len() > 0 {
        let shorter = last.drop_last();
        let fewer = pieces.drop_last().push(shorter);
        assert forall|i: int| 0 <= i < fewer.len() implies !(#[trigger] fewer[i]).contains(sep) by {
            if i < pieces.len() - 1 {
                assert(fewer[i] == pieces[i]);
            } else if shorter.contains(sep) {
                let k = choose|k: int| 0 <= k < shorter.len() && shorter[k] == sep;
                assert(last[k] == sep);
            }
        }
        lemma_split_joined(fewer, sep);
        assert(fewer.drop_last() =~= pieces.drop_last());
        assert(joined_by(fewer, sep) =~= s.drop_last());
        assert(last.contains(last.last()));
        assert(s.last() == last.last());
        assert(fewer.drop_last().push(fewer.last().push(s.last())) =~= pieces) by {
            assert(shorter.push(last.last()) =~= last);
        }
    } else if pieces.len() == 1 {
        assert(s =~= Seq::<char>::empty());
        assert(pieces =~= seq![Seq::<char>::empty()]) by {
            assert(last =~= Seq::<char>::empty());
        }
    } else {
        let front = pieces.drop_last();
        assert forall|i: int| 0 <= i < front.len() implies !(#[trigger] front[i]).contains(sep) by {
            assert(front[i] == pieces[i]);
        }
        lemma_split_joined(front, sep);
        assert(s =~= joined_by(front, sep).push(sep));
        assert(s.drop_last() =~= joined_by(front, sep));
        assert(front.push(Seq::<char>::empty()) =~= pieces) by {
            assert(last =~= Seq::<char>::empty());
        }
    }
}

// ---------------------------------------------------------------------------
// Lines
// ---------------------------------------------------------------------------

/// A line, a line break and a rest are told apart again; without a line break there is no
/// rest.
pub proof fn law_lines_are_told_apart(line: Seq<char>, rest: Seq<char>)
    requires
        !line.contains('\n'),
    ensures
        first_line(line) == line,
        other_lines(line) == Seq::<char>::empty(),
        first_line(line.push('\n') + rest) == line,
        other_lines(line.push('\n') + rest) == rest,
    decreases line.len(),
{
    let whole = line.push('\n') + rest;
    if line.len() == 0 {
        assert(line =~= Seq::<char>::empty());
        assert(whole[0] == '\n');
        assert(whole.drop_first() =~= rest);
        assert(first_line(whole) =~= line);
    } else {
        let tail = line.drop_first();
        assert(line.contains(line[0]));
        if tail.contains('\n') {
            let k = choose|k: int| 0 <= k < tail.len() && tail[k] == '\n';
            assert(line[k + 1] == '\n');
        }
        law_lines_are_told_apart(tail, rest);
        assert(whole.drop_first() =~= tail.push('\n') + rest);
        assert(seq![line[0]] + tail =~= line);
        assert(whole[0] == line[0]);
    }
}

// ---------------------------------------------------------------------------
// Numerals
// ---------------------------------------------------------------------------

proof fn lemma_prefix_of_digits(s: Seq<char>, c: char)
    requires
        all_digits(s),
        !is_digit(c),
    ensures
        digit_prefix(s) == s,
        digit_prefix(s.push(c)) == s,
    decreases s.len(),
{
    if s.len() > 0 {
        assert(is_digit(s[0]));
        let tail = s.drop_first();
        assert forall|i: int| 0 <= i < tail.len() implies is_digit(#[trigger] tail[i]) by {
            assert(is_digit(s[i + 1]));
        }
        lemma_prefix_of_digits(tail, c);
        assert(s.push(c).drop_first() =~= tail.push(c));
        assert(seq![s[0]] + tail =~= s);
    } else {
        assert(digit_prefix(s.push(c)) =~= s);
        assert(digit_prefix(s) =~= s);
    }
}

proof fn lemma_digits_not_negative(s: Seq<char>)
    requires
        all_digits(s),
    ensures
        digits_value(s) >= 0,
    decreases s.len(),
{
    if s.len() > 0 {
        assert(is_digit(s[s.len() - 1]));
        let front = s.drop_last();
        assert forall|i: int| 0 <= i < front.len() implies is_digit(#[trigger] front[i]) by {
            assert(is_digit(s[i]));
        }
        lemma_digits_not_negative(front);
    }
}

/// One digit is the numeral of its value, with a plus sign before it too.
pub proof fn law_a_digit_is_its_value(d: int)
    requires
        0 <= d <= 9,
    ensures
        i64_of(seq![('0' as int + d) as char]) == Ok::<i64, IntError>(d as i64),
        i64_of(seq!['+', ('0' as int + d) as char]) == Ok::<i64, IntError>(d as i64),
        i64_of(seq!['-', ('0' as int + d) as char]) == Ok::<i64, IntError>((-d) as i64),
{
    let c = ('0' as int + d) as char;
    let one = seq![c];
    assert(one.drop_last() =~= Seq::<char>::empty());
    assert(digits_value(one.drop_last()) == 0);
    assert(all_digits(one));
    assert(seq!['+', c].drop_first() =~= one);
    assert(seq!['-', c].drop_first() =~= one);
}

/// A digit behind a numeral makes ten times as much, and the digit more, or in a negative
/// numeral less; where that is no `i64`, the numeral is refused as too large or too small.
pub proof fn law_a_digit_more(s: Seq<char>, d: int)
    requires
        0 <= d <= 9,
        i64_of(s) is Ok,
    ensures
        ({
            let n = i64_of(s)->Ok_0;
            let more = s.push(('0' as int + d) as char);
            let value = if s[0] == '-' {
                10 * n - d
            } else {
                10 * n + d
            };
            i64_of(more) == if value > i64::MAX {
                Err::<i64, IntError>(IntError::PosOverflow)
            } else if value < i64::MIN {
                Err(IntError::NegOverflow)
            } else {
                Ok(value as i64)
            }
        }),
{
    let c = ('0' as int + d) as char;
    let more = s.push(c);
    let (negative, body) = sign_and_body(s);
    assert(is_digit(c) && digit_value(c) == d);
    assert(more[0] == s[0]);
    assert(sign_and_body(more).1 =~= body.push(c));
    let digits = body.push(c);
    assert forall|i: int| 0 <= i < digits.len() implies is_digit(#[trigger] digits[i]) by {
        if i < body.len() {
            assert(is_digit(body[i]));
        }
    }
    assert(digits.drop_last() =~= body);
    lemma_prefix_of_digits(digits, 'x');
    lemma_digits_not_negative(body);
}

/// What is read as a number is a sign or none, and digits, at least one; a minus sign, and
/// that alone, makes it negative or zero.
pub proof fn law_only_numerals_are_read(s: Seq<char>)
    requires
        i64_of(s) is Ok,
    ensures
        s.len() > 0,
        '0' <= s.last() <= '9',
        s[0] == '+' || s[0] == '-' || '0' <= s[0] <= '9',
        forall|i: int| 0 < i < s.len() ==> '0' <= #[trigger] s[i] <= '9',
        s[0] == '-' ==> i64_of(s)->Ok_0 <= 0,
        s[0] != '-' ==> i64_of(s)->Ok_0 >= 0,
{
    let (negative, body) = sign_and_body(s);
    assert(is_digit(body[body.len() - 1]));
    assert(body.last() == s.last());
    assert forall|i: int| 0 < i < s.len() implies '0' <= #[trigger] s[i] <= '9' by {
        if body.len() == s.len() {
            assert(is_digit(body[i]));
        } else {
            assert(is_digit(body[i - 1]));
        }
    }
    assert(is_digit(body[0]));
    lemma_digits_not_negative(body);
}

/// Nothing but a digit continues a numeral, and no numeral is empty.
pub proof fn law_other_characters_are_refused(s: Seq<char>, c: char)
    requires
        i64_of(s) is Ok,
        c < '0' || c > '9',
    ensures
        i64_of(s.push(c)) == Err::<i64, IntError>(IntError::InvalidDigit),
        i64_of(Seq::<char>::empty()) == Err::<i64, IntError>(IntError::Empty),
{
    let (negative, body) = sign_and_body(s);
    assert(s.push(c)[0] == s[0]);
    assert(sign_and_body(s.push(c)).1 =~= body.push(c));
    lemma_prefix_of_digits(body, c);
    assert(!is_digit(body.push(c)[body.len() as int]));
}

proof fn lemma_prefix_pushed(s: Seq<char>, c: char)
    ensures
        all_digits(digit_prefix(s)),
        all_digits(s) && is_digit(c) ==> digit_prefix(s.push(c)) == s.push(c),
        !(all_digits(s) && is_digit(c)) ==> digit_prefix(s.push(c)) == digit_prefix(s),
        all_digits(s) ==> digit_prefix(s) == s,
    decreases s.len(),
{
    if s.len() == 0 {
        assert(s.push(c).drop_first() =~= s);
        assert(digit_prefix(s) =~= s);
        assert(seq![c] + s =~= s.push(c));
    } else {
        let tail = s.drop_first();
        assert(s.push(c).drop_first() =~= tail.push(c));
        lemma_prefix_pushed(tail, c);
        if is_digit(s[0]) {
            assert(all_digits(s) <==> all_digits(tail)) by {
                if all_digits(tail) {
                    assert forall|i: int| 0 <= i < s.len() implies is_digit(#[trigger] s[i]) by {
                        if i > 0 {
                            assert(is_digit(tail[i - 1]));
                        }
                    }
                }
                if all_digits(s) {
                    assert forall|i: int| 0 <= i < tail.len() implies is_digit(
                        #[trigger] tail[i],
                    ) by {
                        assert(is_digit(s[i + 1]));
                    }
                }
            }
            assert(seq![s[0]] + tail =~= s);
            assert(seq![s[0]] + tail.push(c) =~= s.push(c));
            let prefix = digit_prefix(s);
            assert forall|i: int| 0 <= i < prefix.len() implies is_digit(#[trigger] prefix[i]) by {
                if i > 0 {
                    assert(is_digit(digit_prefix(tail)[i - 1]));
                }
            }
        } else {
            assert(!all_digits(s)) by {
                assert(!is_digit(s[0]));
            }
        }
    }
}

/// What is too large or too small stays so, whatever follows; and what has a wrong character
/// in it stays refused for that.
pub proof fn law_refused_numerals_stay_refused(s: Seq<char>, c: char)
    ensures
        i64_of(s) == Err::<i64, IntError>(IntError::PosOverflow) ==> i64_of(s.push(c)) == i64_of(s),
        i64_of(s) == Err::<i64, IntError>(IntError::NegOverflow) ==> i64_of(s.push(c)) == i64_of(s),
        i64_of(s) == Err::<i64, IntError>(IntError::InvalidDigit) && s.len() > 1 ==> i64_of(
            s.push(c),
        ) == i64_of(s),
        s.len() == 1 && (s[0] == '+' || s[0] == '-' || s[0] < '0' || s[0] > '9') ==> i64_of(s)
            == Err::<i64, IntError>(IntError::InvalidDigit),
        i64_of(s) is Err && s.len() == 1 && s[0] != '+' && s[0] != '-' ==> i64_of(s.push(c))
            == Err::<i64, IntError>(IntError::InvalidDigit),
{
    let (negative, body) = sign_and_body(s);
    if s.len() > 0 {
        assert(s.push(c)[0] == s[0]);
        assert(sign_and_body(s.push(c)).1 =~= body.push(c));
        lemma_prefix_pushed(body, c);
        lemma_digits_not_negative(digit_prefix(body));
        assert(body.push(c).drop_last() =~= body);
        if all_digits(body) {
            lemma_digits_not_negative(body);
        } else {
            let k = choose|k: int| 0 <= k < body.len() && !is_digit(#[trigger] body[k]);
            assert(!is_digit(body.push(c)[k]));
        }
        if is_digit(c) {
            assert(digit_value(c) >= 0);
        } else {
            assert(!is_digit(body.push(c)[body.len() as int]));
        }
        if s.len() == 1 {
            assert(body.len() == 0 || body == s);
            if body.len() == 0 {
                assert(digit_prefix(body) =~= Seq::<char>::empty());
                assert(digits_value(digit_prefix(body)) == 0);
            } else if !is_digit(s[0]) {
                assert(digit_prefix(body) =~= Seq::<char>::empty());
                assert(digits_value(digit_prefix(body)) == 0);
                assert(!is_digit(body[0]));
            } else {
                let d = digit_value(s[0]);
                law_a_digit_is_its_value(d);
                assert(s =~= seq![('0' as int + d) as char]);
            }
        }
    }
}

/// A process number is a numeral without a minus sign, of at most 4294967295.
pub proof fn law_process_numbers_are_numerals(s: Seq<char>)
    ensures
        match u32_of(s) {
            Some(n) => s[0] != '-' && i64_of(s) == Ok::<i64, IntError>(n as i64),
            None => s.len() == 0 || s[0] == '-' || (i64_of(s) matches Ok(n) ==> n > 4294967295),
        },
{
    let (negative, body) = sign_and_body(s);
    if all_digits(body) {
        lemma_digits_not_negative(body);
    }
}

/// A number is written without a sign but a minus for a negative one, without a zero at the
/// front, and with nothing but digits.
pub proof fn law_numbers_are_written_plainly(n: i64)
    ensures
        ({
            let s = decimal(n as int);
            &&& s[0] == '-' <==> n < 0
            &&& s[0] != '+'
            &&& s[0] == '0' ==> n == 0 && s.len() == 1
            &&& n < 0 ==> s.len() > 1 && s[1] != '0'
            &&& forall|i: int| 0 < i < s.len() ==> '0' <= #[trigger] s[i] <= '9'
        }),
{
    let m = (if n < 0 {
        -n
    } else {
        n as int
    }) as nat;
    lemma_natural_digits(m);
    lemma_no_leading_zero(m);
    let digits = natural(m);
    let s = decimal(n as int);
    assert forall|i: int| 0 < i < s.len() implies '0' <= #[trigger] s[i] <= '9' by {
        if n < 0 {
            assert(is_digit(digits[i - 1]));
        } else {
            assert(is_digit(digits[i]));
        }
    }
    assert(is_digit(digits[0]));
}

proof fn lemma_no_leading_zero(n: nat)
    ensures
        natural(n).len() > 0,
        natural(n)[0] == '0' ==> n == 0 && natural(n).len() == 1,
    decreases n,
{
    if n >= 10 {
        lemma_no_leading_zero(n / 10);
        assert(natural(n)[0] == natural(n / 10)[0]);
    } else {
        assert(natural(n)[0] == digit_char(n as int));
    }
}

// ---------------------------------------------------------------------------
// Durations
// ---------------------------------------------------------------------------

/// A duration is read by its number and its unit: as many seconds, minutes of 60 seconds,
/// hours of 3600 or days of 86400, whatever the number is, and refused as too long exactly
/// where these are no `i64`; white space round it changes nothing.
pub proof fn law_duration_is_number_times_unit(s: Seq<char>, number: Seq<char>, unit: char, n: i64)
    requires
        trimmed(s) == number.push(unit),
        i64_of(number) == Ok::<i64, IntError>(n),
        n >= 0,
    ensures
        unit == 's' ==> duration_secs(s) == Ok::<i64, Fault<Seq<char>>>(n),
        unit == 'm' ==> match duration_secs(s) {
            Ok(secs) => secs == 60 * n,
            Err(e) => e == Fault::DurationOverflow(trimmed(s)) && 60 * n > i64::MAX,
        },
        unit == 'h' ==> match duration_secs(s) {
            Ok(secs) => secs == 3600 * n,
            Err(e) => e == Fault::DurationOverflow(trimmed(s)) && 3600 * n > i64::MAX,
        },
        unit == 'd' ==> match duration_secs(s) {
            Ok(secs) => secs == 86400 * n,
            Err(e) => e == Fault::DurationOverflow(trimmed(s)) && 86400 * n > i64::MAX,
        },
        unit != 's' && unit != 'm' && unit != 'h' && unit != 'd' ==> duration_secs(s) == Err::<
            i64,
            Fault<Seq<char>>,
        >(Fault::UnknownDurationUnit(seq![unit])),
{
    assert(number.push(unit).drop_last() =~= number);
    assert(n * 1 == n);
}

/// No duration is negative, empty or without a number.
pub proof fn law_bad_durations_are_refused(s: Seq<char>)
    ensures
        trimmed(s).len() == 0 <==> duration_secs(s) == Err::<i64, Fault<Seq<char>>>(
            Fault::EmptyDuration,
        ),
        trimmed(s).len() > 0 && i64_of(trimmed(s).drop_last()) is Err <==> duration_secs(s)
            == Err::<i64, Fault<Seq<char>>>(Fault::InvalidDuration(trimmed(s))),
        trimmed(s).len() > 0 && (i64_of(trimmed(s).drop_last()) matches Ok(n) && n < 0)
            <==> duration_secs(s) == Err::<i64, Fault<Seq<char>>>(
            Fault::NegativeDuration(trimmed(s)),
        ),
        duration_secs(s) matches Ok(secs) ==> secs >= 0,
{
    let t = trimmed(s);
    if t.len() > 0 {
        if let Ok(n) = i64_of(t.drop_last()) {
            assert(n >= 0 ==> n * 60 >= 0 && n * 3600 >= 0 && n * 86400 >= 0);
        }
    }
}

/// A duration can be counted from a moment where its last character is one byte long and
/// the moment that it ends at is an `i64`; what is refused anyway can be too.
pub proof fn law_what_can_be_counted(s: Seq<char>, now: i64)
    requires
        trimmed(s).len() == 0 || trimmed(s).last() as u32 <= 127,
    ensures
        duration_secs(s) is Err ==> fits_from(s, now),
        duration_secs(s) matches Ok(secs) ==> (fits_from(s, now) <==> now + secs <= i64::MAX),
{
}

} // verus!
