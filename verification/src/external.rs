//! The calls into outside crates.
//!
//! Every item here is believed, not proved: its contract says what the crate's
//! own code does, over plain values, and the rest of the library is verified
//! against that.

use chrono::{DateTime, TimeDelta, Utc};
use dashmap::{DashMap, DashSet};
use regex::Regex;
use reqwest::header::HeaderValue;
use reqwest::Url;
use serde_json::Value;
use vstd::arithmetic::power::pow;
use vstd::prelude::*;
use vstd::utf8::{decode_utf8, encode_utf8, is_ascii_chars, valid_utf8};

use crate::links::{Json, JsonView, Link, LinkView};
use crate::models::Timestamp;
use crate::text::{decimal, digit, digits, occurs_at, result_text, texts, white_space};

verus! {

// ---------------------------------------------------------------------------
// dashmap

/// The set type of `dashmap`, opaque here.
#[verifier::external_type_specification]
#[verifier::external_body]
#[verifier::reject_recursive_types(K)]
#[verifier::reject_recursive_types(S)]
pub struct ExDashSet<K, S>(DashSet<K, S>);

/// The map type of `dashmap`, opaque here.
#[verifier::external_type_specification]
#[verifier::external_body]
#[verifier::reject_recursive_types(K)]
#[verifier::reject_recursive_types(V)]
#[verifier::reject_recursive_types(S)]
pub struct ExDashMap<K, V, S>(DashMap<K, V, S>);

/// The keys that a set holds.
pub uninterp spec fn set_keys(set: DashSet<i64>) -> Set<i64>;

/// The entries that a map holds.
pub uninterp spec fn map_entries(map: DashMap<i64, i64>) -> Map<i64, i64>;

/// `DashSet::new` makes a set that holds nothing.
#[verifier::external_body]
pub(crate) fn set_new() -> (r: DashSet<i64>)
    ensures
        set_keys(r) == Set::<i64>::empty(),
{
    DashSet::new()
}

/// `DashSet::insert` adds the key and says whether it was absent. The exclusive
/// borrow rules out that another thread changes the set during the call.
#[verifier::external_body]
pub(crate) fn set_insert(set: &mut DashSet<i64>, key: i64) -> (r: bool)
    ensures
        r == !set_keys(*old(set)).contains(key),
        set_keys(*final(set)) == set_keys(*old(set)).insert(key),
{
    set.insert(key)
}

/// `DashSet::remove` takes the key out and hands it back if it was there.
#[verifier::external_body]
pub(crate) fn set_remove(set: &mut DashSet<i64>, key: i64) -> (r: Option<i64>)
    ensures
        r == (if set_keys(*old(set)).contains(key) {
            Some(key)
        } else {
            None
        }),
        set_keys(*final(set)) == set_keys(*old(set)).remove(key),
{
    set.remove(&key)
}

/// `DashMap::new` makes a map that holds nothing.
#[verifier::external_body]
pub(crate) fn map_new() -> (r: DashMap<i64, i64>)
    ensures
        map_entries(r) == (Map::<i64, i64>::empty()),
{
    DashMap::new()
}

/// `DashMap::insert` sets the key's value and hands back the one it had.
#[verifier::external_body]
pub(crate) fn map_insert(map: &mut DashMap<i64, i64>, key: i64, value: i64) -> (r: Option<i64>)
    ensures
        r == (if map_entries(*old(map)).contains_key(key) {
            Some(map_entries(*old(map))[key])
        } else {
            None
        }),
        map_entries(*final(map)) == map_entries(*old(map)).insert(key, value),
{
    map.insert(key, value)
}

/// `DashMap::remove` takes the key's entry out and hands it back if there was one.
#[verifier::external_body]
pub(crate) fn map_remove(map: &mut DashMap<i64, i64>, key: i64) -> (r: Option<(i64, i64)>)
    ensures
        r == (if map_entries(*old(map)).contains_key(key) {
            Some((key, map_entries(*old(map))[key]))
        } else {
            None
        }),
        map_entries(*final(map)) == map_entries(*old(map)).remove(key),
{
    map.remove(&key)
}

/// `DashMap::get` gives the key's value if there is one.
#[verifier::external_body]
pub(crate) fn map_get(map: &DashMap<i64, i64>, key: i64) -> (r: Option<i64>)
    ensures
        r == (if map_entries(*map).contains_key(key) {
            Some(map_entries(*map)[key])
        } else {
            None
        }),
{
    map.get(&key).map(|value| *value)
}

// ---------------------------------------------------------------------------
// reqwest

/// What `Url::parse` makes of a text: the parts of the URL, or the text of the
/// error.
pub uninterp spec fn url_parse(text: Seq<char>) -> Result<LinkView, Seq<char>>;

/// The view of a parse result.
pub open spec fn parse_view(r: Result<Link, String>) -> Result<LinkView, Seq<char>> {
    match r {
        Ok(link) => Ok(link@),
        Err(message) => Err(message@),
    }
}

/// `Url::parse`, with the parts of the URL that the library reads: `Url::as_str` and
/// `Url::domain`. An error is handed on as its text.
#[verifier::external_body]
pub(crate) fn parse_url(text: &str) -> (r: Result<Link, String>)
    ensures
        parse_view(r) == url_parse(text@),
{
    match Url::parse(text) {
        Ok(url) => Ok(
            Link {
                text: url.as_str().to_string(),
                domain: url.domain().map(|domain| domain.to_string()),
            },
        ),
        Err(err) => Err(err.to_string()),
    }
}

/// The bytes that a header value may show as text: printable ASCII and the tab.
pub open spec fn visible_ascii(b: u8) -> bool {
    32 <= b < 127 || b == 9
}

/// `HeaderValue::to_str` gives the text of a header value if all its bytes are
/// visible ASCII. `HeaderValue::from_bytes` accepts every such value.
#[verifier::external_body]
pub(crate) fn header_text(value: &[u8]) -> (r: Option<String>)
    ensures
        r is Some <==> (forall|i: int| 0 <= i < value@.len() ==> visible_ascii(#[trigger] value@[i])),
        r matches Some(text) ==> text@ == Seq::new(value@.len(), |i: int| value@[i] as char),
{
    let value = HeaderValue::from_bytes(value).ok()?;
    value.to_str().ok().map(|text| text.to_string())
}

// ---------------------------------------------------------------------------
// serde_json

/// What the members `first` and `second` are of the JSON text `body`: absent where
/// the text is no object or the object has no such member; an error's text where the
/// body is no JSON.
pub uninterp spec fn json_members(body: Seq<u8>, first: Seq<char>, second: Seq<char>) -> Result<(Option<JsonView>, Option<JsonView>), Seq<char>>;

/// The view of a member that may be absent.
pub open spec fn json_view(member: Option<Json>) -> Option<JsonView> {
    match member {
        Some(value) => Some(value@),
        None => None,
    }
}

/// The view of a lookup of two members.
pub open spec fn members_view(r: Result<(Option<Json>, Option<Json>), String>) -> Result<
    (Option<JsonView>, Option<JsonView>),
    Seq<char>,
> {
    match r {
        Ok((first, second)) => Ok((json_view(first), json_view(second))),
        Err(message) => Err(message@),
    }
}

/// `serde_json::from_slice` into a `Value`, then `Value::get` for each of two members.
/// Of a member found, a boolean and a string keep what they hold.
#[verifier::external_body]
pub(crate) fn members_of(body: &[u8], first: &str, second: &str) -> (r: Result<
    (Option<Json>, Option<Json>),
    String,
>)
    ensures
        members_view(r) == json_members(body@, first@, second@),
{
    let value: Value = serde_json::from_slice(body).map_err(|err| err.to_string())?;
    let convert = |member: &Value| match member {
        Value::Bool(b) => Json::Bool(*b),
        Value::String(s) => Json::Text(s.clone()),
        Value::Null => Json::Other,
        Value::Number(_) => Json::Other,
        Value::Array(_) => Json::Other,
        Value::Object(_) => Json::Other,
    };
    Ok((value.get(first).map(convert), value.get(second).map(convert)))
}

// ---------------------------------------------------------------------------
// regex

/// The pattern of a link in a text.
pub const LINK_PATTERN: &'static str = "https?://[^\\s]+";

/// The number of characters of `http://` or `https://` at position `i`; 0 if
/// neither stands there.
pub open spec fn scheme_length(s: Seq<char>, i: int) -> int {
    if occurs_at(s, "https://"@, i) {
        8
    } else if occurs_at(s, "http://"@, i) {
        7
    } else {
        0
    }
}

/// The first position from `i` on at which there is white space, or the end.
pub open spec fn run_end(s: Seq<char>, i: int) -> int
    decreases s.len() - i,
{
    if i < s.len() && !white_space(s[i]) {
        run_end(s, i + 1)
    } else {
        i
    }
}

/// A run of characters other than white space ends inside the text.
pub proof fn lemma_run_end(s: Seq<char>, i: int)
    ensures
        run_end(s, i) >= i,
        i <= s.len() ==> run_end(s, i) <= s.len(),
        forall|j: int| i <= j < run_end(s, i) ==> !white_space(#[trigger] s[j]),
        run_end(s, i) < s.len() ==> white_space(s[run_end(s, i)]),
    decreases s.len() - i,
{
    if i < s.len() && !white_space(s[i]) {
        lemma_run_end(s, i + 1);
    }
}

/// The end of the match of the pattern that starts at position `i`; `i` itself if
/// none starts there.
pub open spec fn link_end(s: Seq<char>, i: int) -> int {
    let behind_scheme = i + scheme_length(s, i);
    if behind_scheme > i && run_end(s, behind_scheme) > behind_scheme {
        run_end(s, behind_scheme)
    } else {
        i
    }
}

/// The matches of the pattern in `s` from position `from` on: each starts at the
/// first position possible, behind the match before it, and runs up to the next
/// white space.
pub open spec fn link_matches(s: Seq<char>, from: int) -> Seq<Seq<char>>
    decreases s.len() - from,
{
    proof {
        lemma_run_end(s, from + scheme_length(s, from));
    }
    if from >= s.len() {
        Seq::empty()
    } else if link_end(s, from) > from {
        seq![s.subrange(from, link_end(s, from))] + link_matches(s, link_end(s, from))
    } else {
        link_matches(s, from + 1)
    }
}

/// `Regex::find_iter` gives the successive leftmost matches of the pattern that do
/// not overlap, in their order in the text. In the pattern `\s` is the Unicode
/// property `White_Space` and `+` takes as many characters as it can.
#[verifier::external_body]
pub(crate) fn find_all(pattern: &str, text: &str) -> (r: Vec<String>)
    requires
        pattern@ == LINK_PATTERN@,
    ensures
        texts(r@) == link_matches(text@, 0),
{
    let regex = Regex::new(pattern).unwrap();
    regex.find_iter(text).map(|found| found.as_str().to_string()).collect()
}

// ---------------------------------------------------------------------------
// mime_guess

/// The extensions that `mime_guess` knows for a media type, in its order.
pub uninterp spec fn media_extensions(media_type: Seq<char>) -> Option<Seq<Seq<char>>>;

/// `mime_guess::get_mime_extensions_str` looks a media type up in the crate's table.
#[verifier::external_body]
pub(crate) fn extensions_of(media_type: &str) -> (r: Option<Vec<String>>)
    ensures
        media_extensions(media_type@) == (match r {
            Some(list) => Some(texts(list@)),
            None => None,
        }),
{
    let list = mime_guess::get_mime_extensions_str(media_type)?;
    Some(list.iter().map(|extension| extension.to_string()).collect())
}

// ---------------------------------------------------------------------------
// percent_encoding

/// The value of a hexadecimal digit.
pub open spec fn hex_value(b: u8) -> Option<int> {
    if 48 <= b <= 57 {
        Some(b - 48)
    } else if 65 <= b <= 70 {
        Some(b - 55)
    } else if 97 <= b <= 102 {
        Some(b - 87)
    } else {
        None
    }
}

/// `bytes` with each `%` that two hexadecimal digits follow replaced, together with
/// them, by the byte that they denote.
pub open spec fn percent_decoded(bytes: Seq<u8>) -> Seq<u8>
    decreases bytes.len(),
{
    if bytes.len() == 0 {
        Seq::empty()
    } else if bytes[0] == 37 && bytes.len() >= 3 && hex_value(bytes[1]) is Some && hex_value(
        bytes[2],
    ) is Some {
        seq![(hex_value(bytes[1])->0 * 16 + hex_value(bytes[2])->0) as u8] + percent_decoded(
            bytes.skip(3),
        )
    } else {
        seq![bytes[0]] + percent_decoded(bytes.skip(1))
    }
}

/// What `PercentDecode::decode_utf8` says of a text whose percent-decoded bytes are no
/// UTF-8.
pub uninterp spec fn decoding_error(text: Seq<char>) -> Seq<char>;

/// `percent_encoding::percent_decode_str`, then `PercentDecode::decode_utf8`: the
/// percent-decoded text, unless its bytes are no UTF-8. The error is handed on as its
/// text.
#[verifier::external_body]
pub(crate) fn percent_decode(text: &str) -> (r: Result<String, String>)
    ensures
        result_text(r) == (if valid_utf8(percent_decoded(encode_utf8(text@))) {
            Ok(decode_utf8(percent_decoded(encode_utf8(text@))))
        } else {
            Err(decoding_error(text@))
        }),
{
    match percent_encoding::percent_decode_str(text).decode_utf8() {
        Ok(decoded) => Ok(decoded.to_string()),
        Err(err) => Err(err.to_string()),
    }
}

// ---------------------------------------------------------------------------
// bytesize

/// The letters of the units, from the smallest to the largest.
pub open spec fn unit_letters() -> Seq<char> {
    seq!['k', 'M', 'G', 'T', 'P', 'E']
}

/// The bytes of a unit: 1024 and its powers.
pub open spec fn unit_bytes(unit: int) -> int {
    pow(1024, (unit + 1) as nat)
}

/// So many tenths of the unit, with one decimal place.
pub open spec fn unit_text(tenths: nat, unit: int) -> Seq<char> {
    digits(tenths / 10) + "."@ + seq![digit((tenths % 10) as int), ' ', unit_letters()[unit]] + "iB"@
}

/// `tenths` of the unit are `bytes`, rounded to the nearest tenth. Beyond 2^53 `bytes`
/// is first rounded itself, by no more than 1024.
pub open spec fn rounded(bytes: int, tenths: nat, unit: int) -> bool {
    let slack: int = if bytes <= 0x20_0000_0000_0000 {
        0
    } else {
        20480
    };
    let off: int = 10 * bytes - tenths * unit_bytes(unit);
    -unit_bytes(unit) - slack <= 2 * off <= unit_bytes(unit) + slack
}

/// A size in the form that `bytesize` gives it: below the first unit the number of
/// bytes, else the tenths of one of the units.
pub open spec fn size_text(bytes: int, text: Seq<char>) -> bool {
    if bytes < 1024 {
        text == decimal(bytes) + " B"@
    } else {
        exists|tenths: nat, unit: int|
            0 <= unit < 6 && rounded(bytes, tenths, unit) && text == #[trigger] unit_text(
                tenths,
                unit,
            )
    }
}

/// `bytesize::to_string` with the powers of 1024: a size below the first unit is
/// written as its number of bytes, a larger one in tenths of a unit. Which unit that is
/// comes from a floating-point logarithm whose precision varies between machines;
/// nothing is said of it.
#[verifier::external_body]
pub(crate) fn byte_size(bytes: u64, si_prefix: bool) -> (r: String)
    requires
        si_prefix,
    ensures
        size_text(bytes as int, r@),
{
    bytesize::to_string(bytes, si_prefix)
}

// ---------------------------------------------------------------------------
// chrono

/// `Utc::now` reads the clock: an instant from 1970 on that `chrono` can hold, with no
/// leap second. It panics where the clock stands outside that range.
#[verifier::external_body]
pub(crate) fn clock() -> (r: Timestamp)
    ensures
        r.valid(),
        r.secs >= 0,
{
    let now = Utc::now();
    Timestamp { secs: now.timestamp(), nanos: now.timestamp_subsec_nanos() }
}

/// `DateTime::checked_add_signed` of `TimeDelta::hours`, on the instant that
/// `DateTime::from_timestamp` makes: so many hours later, unless that is past the
/// last instant that `chrono` can hold.
#[verifier::external_body]
pub(crate) fn hours_later(t: Timestamp, hours: i64) -> (r: Option<Timestamp>)
    requires
        t.valid(),
        0 <= hours <= 1_000_000,
    ensures
        r == (if t.secs + 3600 * hours <= Timestamp::last_second() {
            Some(Timestamp { secs: (t.secs + 3600 * hours) as i64, nanos: t.nanos })
        } else {
            None
        }),
{
    let start: DateTime<Utc> = DateTime::from_timestamp(t.secs, t.nanos)?;
    let later = start.checked_add_signed(TimeDelta::hours(hours))?;
    Some(Timestamp { secs: later.timestamp(), nanos: later.timestamp_subsec_nanos() })
}

// ---------------------------------------------------------------------------
// std

/// The lower case of a text, by the Unicode mappings.
pub uninterp spec fn lowercase(text: Seq<char>) -> Seq<char>;

/// The lower case of an ASCII character.
pub open spec fn ascii_lowercase(c: char) -> char {
    if 'A' <= c <= 'Z' {
        (c as u32 + 32) as char
    } else {
        c
    }
}

/// The lower case of a text: letter by letter where it is ASCII, else by the Unicode
/// mappings.
pub open spec fn lower(text: Seq<char>) -> Seq<char> {
    if is_ascii_chars(text) {
        text.map_values(|c: char| ascii_lowercase(c))
    } else {
        lowercase(text)
    }
}

/// `str::to_lowercase` gives the lower case of a text. In an ASCII text only the
/// letters `A` to `Z` change.
pub assume_specification[ str::to_lowercase ](s: &str) -> (r: String)
    ensures
        r@ == lowercase(s@),
        is_ascii_chars(s@) ==> r@ == s@.map_values(|c: char| ascii_lowercase(c)),
;

} // verus!
