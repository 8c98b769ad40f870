//! Text as sequences of characters: comparing, trimming, and splitting into pieces
//! and lines.
use vstd::prelude::*;
use vstd::string::*;

verus! {

/// Appends one character: `String::push` adds the given character at the end and
/// changes nothing else.
pub assume_specification[ String::push ](s: &mut String, c: char)
    ensures
        final(s)@ == old(s)@.push(c),
;

// ---------------------------------------------------------------------------
// Whole strings
// ---------------------------------------------------------------------------

/// The characters of each string of `s`.
pub open spec fn texts(s: Seq<String>) -> Seq<Seq<char>> {
    s.map_values(|t: String| t@)
}

/// The characters of an optional string.
pub open spec fn text_of(s: Option<String>) -> Option<Seq<char>> {
    match s {
        Some(t) => Some(t@),
        None => None,
    }
}

/// The characters of an optional string slice.
pub open spec fn slice_of(s: Option<&str>) -> Option<Seq<char>> {
    match s {
        Some(t) => Some(t@),
        None => None,
    }
}

/// Whether two strings hold the same characters.
pub fn same(a: &str, b: &str) -> (r: bool)
    ensures
        r == (a@ == b@),
{
    a.to_owned() == b.to_owned()
}

/// Whether `s` is there and holds the characters of `wanted`.
pub fn is_text(s: &Option<String>, wanted: &str) -> (r: bool)
    ensures
        r == (text_of(*s) == Some(wanted@)),
{
    match s {
        Some(t) => same(t.as_str(), wanted),
        None => false,
    }
}

/// A copy of an optional text.
pub fn clone_text(s: &Option<String>) -> (r: Option<String>)
    ensures
        text_of(r) == text_of(*s),
{
    match s {
        Some(t) => Some(t.clone()),
        None => None,
    }
}

/// The characters of an optional text; none where it is not there.
pub open spec fn text_or_empty(s: Option<Seq<char>>) -> Seq<char> {
    match s {
        Some(t) => t,
        None => Seq::empty(),
    }
}

/// A copy of an optional text; the empty text where it is not there.
pub fn clone_or_empty(s: &Option<String>) -> (r: String)
    ensures
        r@ == text_or_empty(text_of(*s)),
{
    match s {
        Some(t) => t.clone(),
        None => String::new(),
    }
}

/// Whether one of `list` holds the characters of `wanted`.
pub fn has_text(list: &Vec<String>, wanted: &str) -> (r: bool)
    ensures
        r == texts(list@).contains(wanted@),
{
    let mut i: usize = 0;
    while i < list.len()
        invariant
            i <= list@.len(),
            forall|k: int| 0 <= k < i ==> #[trigger] list@[k]@ != wanted@,
        decreases list@.len() - i,
    {
        if same(list[i].as_str(), wanted) {
            proof {
                assert(texts(list@)[i as int] == wanted@);
            }
            return true;
        }
        i = i + 1;
    }
    proof {
        if texts(list@).contains(wanted@) {
            let k = choose|k: int| 0 <= k < texts(list@).len() && texts(list@)[k] == wanted@;
            assert(list@[k]@ == wanted@);
        }
    }
    false
}

/// The characters of `s`, in order.
pub fn chars_of(s: &str) -> (r: Vec<char>)
    ensures
        r@ == s@,
{
    let mut r: Vec<char> = Vec::new();
    for c in it: s.chars()
        invariant
            it.seq() == s@,
            r@ == s@.take(it.index()),
    {
        r.push(c);
    }
    proof {
        assert(s@.take(s@.len() as int) =~= s@);
    }
    r
}

/// What follows `prefix` in `s`, where `s` begins with it.
pub fn strip_prefix<'a>(s: &'a str, prefix: &str) -> (r: Option<&'a str>)
    ensures
        match r {
            Some(rest) => prefix@.is_prefix_of(s@) && rest@ == s@.skip(prefix@.len() as int),
            None => !prefix@.is_prefix_of(s@),
        },
{
    let n: usize = s.unicode_len();
    let p: usize = prefix.unicode_len();
    if n < p {
        return None;
    }
    let head = s.substring_char(0, p);
    if same(head, prefix) {
        proof {
            assert(s@.subrange(0, p as int) =~= s@.take(p as int));
        }
        Some(s.substring_char(p, n))
    } else {
        proof {
            if prefix@.is_prefix_of(s@) {
                assert(s@.subrange(0, p as int) =~= prefix@);
            }
        }
        None
    }
}

// ---------------------------------------------------------------------------
// White space
// ---------------------------------------------------------------------------

/// The characters with the Unicode property `White_Space`.
pub open spec fn white_space(c: char) -> bool {
    ||| '\u{9}' <= c <= '\u{d}'
    ||| c == ' '
    ||| c == '\u{85}'
    ||| c == '\u{a0}'
    ||| c == '\u{1680}'
    ||| '\u{2000}' <= c <= '\u{200a}'
    ||| c == '\u{2028}'
    ||| c == '\u{2029}'
    ||| c == '\u{202f}'
    ||| c == '\u{205f}'
    ||| c == '\u{3000}'
}

/// `s` without the white space at its start.
pub open spec fn trim_start(s: Seq<char>) -> Seq<char>
    decreases s.len(),
{
    if s.len() > 0 && white_space(s[0]) {
        trim_start(s.drop_first())
    } else {
        s
    }
}

/// `s` without the white space at its end.
pub open spec fn trim_end(s: Seq<char>) -> Seq<char>
    decreases s.len(),
{
    if s.len() > 0 && white_space(s.last()) {
        trim_end(s.drop_last())
    } else {
        s
    }
}

/// `s` without the white space at its two ends.
pub open spec fn trimmed(s: Seq<char>) -> Seq<char> {
    trim_end(trim_start(s))
}

/// Whether `c` is white space.
pub fn is_white_space(c: char) -> (r: bool)
    ensures
        r == white_space(c),
{
    ('\u{9}' <= c && c <= '\u{d}') || c == ' ' || c == '\u{85}' || c == '\u{a0}' || c
        == '\u{1680}' || ('\u{2000}' <= c && c <= '\u{200a}') || c == '\u{2028}' || c == '\u{2029}'
        || c == '\u{202f}' || c == '\u{205f}' || c == '\u{3000}'
}

proof fn lemma_trim_start_skips(s: Seq<char>, k: int)
    requires
        0 <= k <= s.len(),
        forall|i: int| 0 <= i < k ==> white_space(#[trigger] s[i]),
        k < s.len() ==> !white_space(s[k]),
    ensures
        trim_start(s) == s.skip(k),
    decreases k,
{
    if k > 0 {
        assert(white_space(s[0]));
        lemma_trim_start_skips(s.drop_first(), k - 1);
        assert(s.drop_first().skip(k - 1) =~= s.skip(k));
    } else {
        assert(s.skip(0) =~= s);
    }
}

proof fn lemma_trim_end_takes(s: Seq<char>, k: int)
    requires
        0 <= k <= s.len(),
        forall|i: int| k <= i < s.len() ==> white_space(#[trigger] s[i]),
        k > 0 ==> !white_space(s[k - 1]),
    ensures
        trim_end(s) == s.take(k),
    decreases s.len(),
{
    if k < s.len() {
        assert(white_space(s.last()));
        assert forall|i: int| k <= i < s.drop_last().len() implies white_space(
            #[trigger] s.drop_last()[i],
        ) by {
            assert(white_space(s[i]));
        }
        lemma_trim_end_takes(s.drop_last(), k);
        assert(s.drop_last().take(k) =~= s.take(k));
    } else {
        assert(s.take(k) =~= s);
    }
}

/// `s` without the white space at its two ends.
pub fn trim(s: &str) -> (r: &str)
    ensures
        r@ == trimmed(s@),
{
    let chars = chars_of(s);
    let n: usize = chars.len();
    let mut from: usize = 0;
    while from < n && is_white_space(chars[from])
        invariant
            n == chars@.len(),
            chars@ == s@,
            from <= n,
            forall|i: int| 0 <= i < from ==> white_space(#[trigger] s@[i]),
        decreases n - from,
    {
        from = from + 1;
    }
    let mut to: usize = n;
    while from < to && is_white_space(chars[to - 1])
        invariant
            n == chars@.len(),
            chars@ == s@,
            from <= to <= n,
            forall|i: int| to <= i < n ==> white_space(#[trigger] s@[i]),
        decreases to,
    {
        to = to - 1;
    }
    proof {
        lemma_trim_start_skips(s@, from as int);
        let rest = s@.skip(from as int);
        assert forall|i: int| to - from <= i < rest.len() implies white_space(
            #[trigger] rest[i],
        ) by {
            assert(white_space(s@[i + from]));
        }
        lemma_trim_end_takes(rest, to - from);
        assert(rest.take(to - from) =~= s@.subrange(from as int, to as int));
    }
    s.substring_char(from, to)
}

// ---------------------------------------------------------------------------
// Splitting
// ---------------------------------------------------------------------------

/// The pieces of `s` between the occurrences of `sep`: one more than there are
/// occurrences, so one piece where there is none.
pub open spec fn split_on(s: Seq<char>, sep: char) -> Seq<Seq<char>>
    decreases s.len(),
{
    if s.len() == 0 {
        seq![Seq::<char>::empty()]
    } else {
        let front = split_on(s.drop_last(), sep);
        if s.last() == sep {
            front.push(Seq::<char>::empty())
        } else {
            front.drop_last().push(front.last().push(s.last()))
        }
    }
}

/// Whether one of the pieces of `s` between separators, trimmed, is `wanted`.
pub open spec fn lists(s: Seq<char>, sep: char, wanted: Seq<char>) -> bool {
    exists|i: int|
        0 <= i < split_on(s, sep).len() && trimmed(#[trigger] split_on(s, sep)[i]) == wanted
}

/// Whether one of the pieces of `s` between separators, trimmed, is `wanted`.
pub fn any_piece_is(s: &str, sep: char, wanted: &str) -> (r: bool)
    ensures
        r == lists(s@, sep, wanted@),
{
    let chars = chars_of(s);
    let mut found: bool = false;
    let mut piece: String = String::new();
    let mut i: usize = 0;
    proof {
        assert(s@.take(0) =~= Seq::<char>::empty());
    }
    while i < chars.len()
        invariant
            chars@ == s@,
            i <= chars@.len(),
            split_on(s@.take(i as int), sep).len() > 0,
            piece@ == split_on(s@.take(i as int), sep).last(),
            found == exists|k: int|
                0 <= k < split_on(s@.take(i as int), sep).len() - 1 && trimmed(
                    #[trigger] split_on(s@.take(i as int), sep)[k],
                ) == wanted@,
        decreases chars@.len() - i,
    {
        let c: char = chars[i];
        let ghost before = split_on(s@.take(i as int), sep);
        let ghost after = split_on(s@.take(i as int + 1), sep);
        proof {
            assert(s@.take(i as int + 1).drop_last() =~= s@.take(i as int));
        }
        if c == sep {
            let hit: bool = same(trim(piece.as_str()), wanted);
            proof {
                assert(after == before.push(Seq::<char>::empty()));
                assert forall|k: int| 0 <= k < before.len() implies #[trigger] after[k]
                    == before[k] by {}
                if hit {
                    assert(after[before.len() - 1] == piece@);
                }
                if found {
                    let k = choose|k: int|
                        0 <= k < before.len() - 1 && trimmed(#[trigger] before[k]) == wanted@;
                    assert(after[k] == before[k]);
                }
                if exists|k: int|
                    0 <= k < after.len() - 1 && trimmed(#[trigger] after[k]) == wanted@ {
                    let k = choose|k: int|
                        0 <= k < after.len() - 1 && trimmed(#[trigger] after[k]) == wanted@;
                    assert(after[k] == before[k]);
                }
            }
            found = found || hit;
            piece = String::new();
        } else {
            piece.push(c);
            proof {
                assert(after == before.drop_last().push(before.last().push(c)));
                assert forall|k: int| 0 <= k < before.len() - 1 implies #[trigger] after[k]
                    == before[k] by {}
                if found {
                    let k = choose|k: int|
                        0 <= k < before.len() - 1 && trimmed(#[trigger] before[k]) == wanted@;
                    assert(after[k] == before[k]);
                }
                if exists|k: int|
                    0 <= k < after.len() - 1 && trimmed(#[trigger] after[k]) == wanted@ {
                    let k = choose|k: int|
                        0 <= k < after.len() - 1 && trimmed(#[trigger] after[k]) == wanted@;
                    assert(after[k] == before[k]);
                }
            }
        }
        i = i + 1;
    }
    let last: bool = same(trim(piece.as_str()), wanted);
    proof {
        assert(s@.take(i as int) =~= s@);
        let pieces = split_on(s@, sep);
        if last {
            assert(pieces[pieces.len() - 1] == piece@);
        }
        if found {
            let k = choose|k: int|
                0 <= k < pieces.len() - 1 && trimmed(#[trigger] pieces[k]) == wanted@;
            assert(trimmed(pieces[k]) == wanted@);
        }
    }
    found || last
}

// ---------------------------------------------------------------------------
// Lines
// ---------------------------------------------------------------------------

/// `s` up to its first line break, and all of it where it has none.
pub open spec fn first_line(s: Seq<char>) -> Seq<char>
    decreases s.len(),
{
    if s.len() == 0 || s[0] == '\n' {
        Seq::empty()
    } else {
        seq![s[0]] + first_line(s.drop_first())
    }
}

/// What follows the first line break of `s`; nothing where it has none.
pub open spec fn other_lines(s: Seq<char>) -> Seq<char>
    decreases s.len(),
{
    if s.len() == 0 {
        s
    } else if s[0] == '\n' {
        s.drop_first()
    } else {
        other_lines(s.drop_first())
    }
}

proof fn lemma_lines(s: Seq<char>, k: int)
    requires
        0 <= k <= s.len(),
        forall|i: int| 0 <= i < k ==> #[trigger] s[i] != '\n',
        k < s.len() ==> s[k] == '\n',
    ensures
        first_line(s) == s.take(k),
        other_lines(s) == if k < s.len() {
            s.skip(k + 1)
        } else {
            Seq::empty()
        },
    decreases k,
{
    if k > 0 {
        assert(s[0] != '\n');
        lemma_lines(s.drop_first(), k - 1);
        assert(seq![s[0]] + s.drop_first().take(k - 1) =~= s.take(k));
        if k < s.len() {
            assert(s.drop_first().skip(k) =~= s.skip(k + 1));
        }
    } else {
        assert(s.take(0) =~= Seq::<char>::empty());
        if s.len() > 0 {
            assert(s.skip(1) =~= s.drop_first());
        } else {
            assert(s =~= Seq::<char>::empty());
        }
    }
}

/// `s` up to its first line break, and what follows it.
pub fn split_line(s: &str) -> (r: (&str, &str))
    ensures
        r.0@ == first_line(s@),
        r.1@ == other_lines(s@),
{
    let chars = chars_of(s);
    let n: usize = chars.len();
    let mut k: usize = 0;
    while k < n && chars[k] != '\n'
        invariant
            n == chars@.len(),
            chars@ == s@,
            k <= n,
            forall|i: int| 0 <= i < k ==> #[trigger] s@[i] != '\n',
        decreases n - k,
    {
        k = k + 1;
    }
    proof {
        lemma_lines(s@, k as int);
        assert(s@.subrange(0, k as int) =~= s@.take(k as int));
    }
    let from: usize = if k < n {
        k + 1
    } else {
        n
    };
    proof {
        assert(s@.subrange(from as int, n as int) =~= other_lines(s@));
    }
    (s.substring_char(0, k), s.substring_char(from, n))
}

} // verus!
