//! What the library has from other crates and from parts of the standard library
//! that Verus has no contract for: the clock, fresh identifiers, decoding of the
//! bytes that a process prints, and JSON. The contracts here are believed, not
//! proved.
use crate::text::{text_of, texts};
use vstd::prelude::*;
use vstd::utf8::{decode_utf8, valid_utf8};

verus! {

// ---------------------------------------------------------------------------
// The clock
// ---------------------------------------------------------------------------

/// The last second that the calendar of `chrono` holds: the end of the year 262142.
pub const CLOCK_MAX: i64 = 8_210_266_876_799;

/// What the clock can show, in seconds since the start of 1970.
pub open spec fn clock_shows(t: i64) -> bool {
    0 <= t <= CLOCK_MAX
}

/// The seconds since the start of 1970, by `chrono::Utc::now` and
/// `DateTime::timestamp`. `Utc::now` holds no time before 1970 and none after the
/// last day of `chrono`'s calendar (on a machine whose clock is set outside these
/// it panics). Nothing is claimed of two readings: a clock can be set back.
#[verifier::external_body]
pub(crate) fn clock_now() -> (t: i64)
    ensures
        clock_shows(t),
{
    chrono::Utc::now().timestamp()
}

// ---------------------------------------------------------------------------
// Fresh identifiers
// ---------------------------------------------------------------------------

/// The digits of a number in base sixteen, in lower case.
pub open spec fn is_hex_digit(c: char) -> bool {
    '0' <= c <= '9' || 'a' <= c <= 'f'
}

/// The text of a random (version 4) UUID: 36 characters, hyphens after the 8th,
/// 12th, 16th and 20th digit, the version in the 13th digit and the variant in the
/// 17th.
pub open spec fn is_uuid_v4(s: Seq<char>) -> bool {
    &&& s.len() == 36
    &&& forall|i: int|
        0 <= i < 36 ==> if i == 8 || i == 13 || i == 18 || i == 23 {
            #[trigger] s[i] == '-'
        } else {
            is_hex_digit(s[i])
        }
    &&& s[14] == '4'
    &&& (s[19] == '8' || s[19] == '9' || s[19] == 'a' || s[19] == 'b')
}

/// A new identifier, by `uuid::Uuid::new_v4` and its `Display`: 122 random bits
/// round the fixed version and variant, in the hyphenated lower-case form. That no
/// two are equal is a matter of chance and is not claimed.
#[verifier::external_body]
pub(crate) fn fresh_id() -> (r: String)
    ensures
        is_uuid_v4(r@),
{
    uuid::Uuid::new_v4().to_string()
}

// ---------------------------------------------------------------------------
// Bytes as text
// ---------------------------------------------------------------------------

/// What `String::from_utf8_lossy` makes of `bytes`.
pub uninterp spec fn lossy_text(bytes: Seq<u8>) -> Seq<char>;

/// The text of `bytes`, by `String::from_utf8_lossy`: where the bytes are valid
/// UTF-8 it is what they encode; which characters stand for invalid bytes is left
/// to the name [`lossy_text`].
#[verifier::external_body]
pub(crate) fn utf8_lossy(bytes: &[u8]) -> (r: String)
    ensures
        r@ == lossy_text(bytes@),
        valid_utf8(bytes@) ==> r@ == decode_utf8(bytes@),
{
    String::from_utf8_lossy(bytes).into_owned()
}

// ---------------------------------------------------------------------------
// JSON
// ---------------------------------------------------------------------------

/// Whether `serde_json::from_str` reads `text` as some JSON value.
pub uninterp spec fn json_reads(text: Seq<char>) -> bool;

/// What `serde_json::from_str` reads `text` as, where it is an array of strings.
pub uninterp spec fn json_strings(text: Seq<char>) -> Option<Seq<Seq<char>>>;

/// The string under `key` in the JSON object that `text` is.
pub uninterp spec fn json_member_text(text: Seq<char>, key: Seq<char>) -> Option<Seq<char>>;

/// The items of the array under `key` in the JSON object that `text` is, each as
/// JSON text.
pub uninterp spec fn json_member_items(text: Seq<char>, key: Seq<char>) -> Option<
    Seq<Seq<char>>,
>;

/// Whether `text` is JSON: whether `serde_json::from_str` makes a
/// `serde_json::Value` of it. The result is named, not stated.
#[verifier::external_body]
pub(crate) fn is_json(text: &str) -> (r: bool)
    ensures
        r == json_reads(text@),
{
    serde_json::from_str::<serde_json::Value>(text).is_ok()
}

/// The strings of a JSON array of strings: `serde_json::from_str` into a
/// `Vec<String>`, `None` where it gives an error. The result is named, not stated.
#[verifier::external_body]
pub(crate) fn read_json_strings(text: &str) -> (r: Option<Vec<String>>)
    ensures
        match r {
            Some(v) => json_strings(text@) == Some(texts(v@)),
            None => json_strings(text@) is None,
        },
{
    serde_json::from_str::<Vec<String>>(text).ok()
}

/// The string under `key`: `serde_json::from_str` into a `serde_json::Value`,
/// `Value::get` and `Value::as_str`, `None` where one of them has no value. The
/// result is named, not stated.
#[verifier::external_body]
pub(crate) fn read_json_text(text: &str, key: &str) -> (r: Option<String>)
    ensures
        text_of(r) == json_member_text(text@, key@),
{
    let value = serde_json::from_str::<serde_json::Value>(text).ok()?;
    Some(value.get(key)?.as_str()?.to_string())
}

/// The items of the array under `key`, each written out again:
/// `serde_json::from_str` into a `serde_json::Value`, `Value::get`,
/// `Value::as_array`, and the `Display` of each item; `None` where one of the first
/// three has no value. The result is named, not stated.
#[verifier::external_body]
pub(crate) fn read_json_items(text: &str, key: &str) -> (r: Option<Vec<String>>)
    ensures
        match r {
            Some(v) => json_member_items(text@, key@) == Some(texts(v@)),
            None => json_member_items(text@, key@) is None,
        },
{
    let value = serde_json::from_str::<serde_json::Value>(text).ok()?;
    let items = value.get(key)?.as_array()?;
    Some(items.iter().map(|item| item.to_string()).collect())
}

/// `text` as `serde_json::to_string_pretty` writes it, where it is JSON.
pub uninterp spec fn json_pretty(text: Seq<char>) -> Option<Seq<char>>;

/// JSON text with line breaks and indents: `serde_json::from_str` into a
/// `serde_json::Value` and `serde_json::to_string_pretty`; `None` where the text is no
/// JSON. How it is laid out is left to the name [`json_pretty`].
#[verifier::external_body]
pub(crate) fn pretty_json(text: &str) -> (r: Option<String>)
    ensures
        text_of(r) == json_pretty(text@),
        r is Some == json_reads(text@),
{
    let value = serde_json::from_str::<serde_json::Value>(text).ok()?;
    serde_json::to_string_pretty(&value).ok()
}

/// The members of an object that are texts.
pub open spec fn named_texts(members: Seq<(String, String)>) -> Seq<(Seq<char>, Seq<char>)> {
    members.map_values(|m: (String, String)| (m.0@, m.1@))
}

/// The members of an object that are numbers.
pub open spec fn named_numbers(members: Seq<(String, i64)>) -> Seq<(Seq<char>, i64)> {
    members.map_values(|m: (String, i64)| (m.0@, m.1))
}

/// A list of objects whose members are texts.
pub open spec fn object_members(objects: Seq<Vec<(String, String)>>) -> Seq<
    Seq<(Seq<char>, Seq<char>)>,
> {
    objects.map_values(|o: Vec<(String, String)>| named_texts(o@))
}

/// The members of an object that are lists of objects.
pub open spec fn named_objects(members: Seq<(String, Vec<Vec<(String, String)>>)>) -> Seq<
    (Seq<char>, Seq<Seq<(Seq<char>, Seq<char>)>>),
> {
    members.map_values(
        |m: (String, Vec<Vec<(String, String)>>)| (m.0@, object_members(m.1@)),
    )
}

/// The keys of an object that is given by the kinds of its members.
pub open spec fn object_keys(
    texts: Seq<(Seq<char>, Seq<char>)>,
    numbers: Seq<(Seq<char>, i64)>,
    lists: Seq<(Seq<char>, Seq<Seq<(Seq<char>, Seq<char>)>>)>,
) -> Seq<Seq<char>> {
    texts.map_values(|m: (Seq<char>, Seq<char>)| m.0) + numbers.map_values(
        |m: (Seq<char>, i64)| m.0,
    ) + lists.map_values(|m: (Seq<char>, Seq<Seq<(Seq<char>, Seq<char>)>>)| m.0)
}

/// Whether a key occurs once.
pub open spec fn occurs_once(keys: Seq<Seq<char>>, key: Seq<char>) -> bool {
    exists|i: int|
        0 <= i < keys.len() && #[trigger] keys[i] == key && (forall|j: int|
            0 <= j < keys.len() && j != i ==> #[trigger] keys[j] != key)
}

/// How `serde_json` writes the object with these members.
pub uninterp spec fn json_object_text(
    texts: Seq<(Seq<char>, Seq<char>)>,
    numbers: Seq<(Seq<char>, i64)>,
    lists: Seq<(Seq<char>, Seq<Seq<(Seq<char>, Seq<char>)>>)>,
) -> Seq<char>;

/// The JSON text of an object, by `serde_json::Map::insert` of its members and the
/// `Display` of `serde_json::Value`. In what order and with what escapes is left to the
/// name [`json_object_text`]; that the text reads as JSON again, and that a text whose
/// key occurs once is read back under its key, is what writing and reading promise each
/// other.
#[verifier::external_body]
pub(crate) fn print_json_object(
    texts: &Vec<(String, String)>,
    numbers: &Vec<(String, i64)>,
    lists: &Vec<(String, Vec<Vec<(String, String)>>)>,
) -> (r: String)
    ensures
        r@ == json_object_text(
            named_texts(texts@),
            named_numbers(numbers@),
            named_objects(lists@),
        ),
        json_reads(r@),
        forall|i: int|
            0 <= i < named_texts(texts@).len() && occurs_once(
                object_keys(
                    named_texts(texts@),
                    named_numbers(numbers@),
                    named_objects(lists@),
                ),
                (#[trigger] named_texts(texts@)[i]).0,
            ) ==> json_member_text(r@, named_texts(texts@)[i].0) == Some(
                named_texts(texts@)[i].1,
            ),
{
    let mut map = serde_json::Map::new();
    for (key, text) in texts {
        map.insert(key.clone(), serde_json::Value::from(text.as_str()));
    }
    for (key, number) in numbers {
        map.insert(key.clone(), serde_json::Value::from(*number));
    }
    for (key, objects) in lists {
        let list = objects.iter().map(|o| o.iter().cloned().collect::<serde_json::Value>());
        map.insert(key.clone(), list.collect());
    }
    serde_json::Value::Object(map).to_string()
}

} // verus!
