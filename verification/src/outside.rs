//! Calls into other crates and into parts of std without a specification.
//!
//! Each function here makes one such call and converts its arguments and its
//! result. Its contract is believed, not proved.

use vstd::prelude::*;

use crate::paths::{is_extension_of, is_file_name_of, is_parent_of};
use crate::text::opt_text;

verus! {

// ---------------------------------------------------------------------------
// Hexadecimal text
// ---------------------------------------------------------------------------

pub open spec fn is_hex_digit(c: char) -> bool {
    ||| '0' <= c && c <= '9'
    ||| 'a' <= c && c <= 'f'
    ||| 'A' <= c && c <= 'F'
}

/// The value of a hexadecimal digit.
pub open spec fn hex_value(c: char) -> int {
    if '0' <= c && c <= '9' {
        c as u32 - '0' as u32
    } else if 'a' <= c && c <= 'f' {
        c as u32 - 'a' as u32 + 10
    } else {
        c as u32 - 'A' as u32 + 10
    }
}

/// Pairs of hexadecimal digits, of either case.
pub open spec fn is_hex_text(s: Seq<char>) -> bool {
    &&& s.len() % 2 == 0
    &&& forall|i: int| 0 <= i < s.len() ==> is_hex_digit(#[trigger] s[i])
}

/// The bytes that pairs of hexadecimal digits stand for.
pub open spec fn hex_bytes(s: Seq<char>) -> Seq<u8> {
    Seq::new(
        (s.len() / 2) as nat,
        |i: int| (hex_value(s[2 * i]) * 16 + hex_value(s[2 * i + 1])) as u8,
    )
}

/// The lower-case hexadecimal digit of a number below 16.
pub open spec fn hex_digit(n: int) -> char {
    "0123456789abcdef"@[n]
}

/// Two lower-case hexadecimal digits for each byte.
pub open spec fn hex_text(bytes: Seq<u8>) -> Seq<char> {
    Seq::new(
        2 * bytes.len(),
        |i: int|
            if i % 2 == 0 {
                hex_digit(bytes[i / 2] as int / 16)
            } else {
                hex_digit(bytes[i / 2] as int % 16)
            },
    )
}

/// `hex::decode`: succeeds exactly on an even number of hexadecimal digits of
/// either case, and gives the byte of each pair.
#[verifier::external_body]
pub(crate) fn decode_hex(text: &str) -> (r: Option<Vec<u8>>)
    ensures
        r is Some <==> is_hex_text(text@),
        r matches Some(bytes) ==> bytes@ == hex_bytes(text@),
{
    hex::decode(text).ok()
}

/// `hex::encode`: two lower-case hexadecimal digits for each byte.
#[verifier::external_body]
pub(crate) fn encode_hex(bytes: &[u8]) -> (r: String)
    ensures
        r@ == hex_text(bytes@),
{
    hex::encode(bytes)
}

/// `rand::Rng::fill` with `rand::rng`: fills a buffer of the asked length, which is
/// small, with random bytes. Nothing is said of which bytes they are.
#[verifier::external_body]
pub(crate) fn random_bytes(len: usize) -> (r: Vec<u8>)
    requires
        len <= 0xffff,
    ensures
        r@.len() == len,
{
    let mut buffer = vec![0u8; len];
    rand::Rng::fill(&mut rand::rng(), buffer.as_mut_slice());
    buffer
}

// ---------------------------------------------------------------------------
// UUIDs
// ---------------------------------------------------------------------------

/// What `uuid::Uuid::parse_str` makes of a text: the 128-bit value, or the text
/// of the error.
pub uninterp spec fn uuid_parse(text: Seq<char>) -> Result<u128, Seq<char>>;

/// `uuid::Uuid::parse_str`: the value as a number, the error as its message.
#[verifier::external_body]
pub(crate) fn parse_uuid(text: &str) -> (r: Result<u128, String>)
    ensures
        match r {
            Ok(value) => uuid_parse(text@) == Ok::<u128, Seq<char>>(value),
            Err(message) => uuid_parse(text@) == Err::<u128, Seq<char>>(message@),
        },
{
    uuid::Uuid::parse_str(text).map(|uuid| uuid.as_u128()).map_err(|error| error.to_string())
}

// ---------------------------------------------------------------------------
// TOML
// ---------------------------------------------------------------------------

/// A key that TOML writes without quotes.
pub open spec fn is_bare_key(key: Seq<char>) -> bool {
    &&& key.len() > 0
    &&& forall|i: int|
        0 <= i < key.len() ==> {
            ||| is_hex_digit(#[trigger] key[i])
            ||| 'a' <= key[i] && key[i] <= 'z'
            ||| 'A' <= key[i] && key[i] <= 'Z'
            ||| key[i] == '_'
            ||| key[i] == '-'
        }
}

/// The string that a TOML document holds under a top-level key: `None` where the
/// text is no TOML, holds a number that is out of range, has no such key, or holds
/// another type under it.
pub uninterp spec fn toml_string(document: Seq<char>, key: Seq<char>) -> Option<Seq<char>>;

/// `toml::from_str` into a map whose values are ignored, which accepts what a
/// struct with other fields left out accepts, and `toml::de::DeTable::parse` for the
/// entry under `key` where that is a string.
#[verifier::external_body]
pub(crate) fn read_toml_string(document: &str, key: &str) -> (r: Option<String>)
    ensures
        match r {
            Some(value) => toml_string(document@, key@) == Some(value@),
            None => toml_string(document@, key@) is None,
        },
{
    toml::from_str::<std::collections::BTreeMap<String, serde::de::IgnoredAny>>(document).ok()?;
    let table = toml::de::DeTable::parse(document).ok()?;
    table.get_ref().get(key)?.get_ref().as_str().map(|value| value.to_string())
}

/// `toml::to_string` of a table with one string entry. For a key that needs no
/// quotes and a value of hexadecimal digits it succeeds with the one line
/// `key = "value"`, and reading that document gives the value back.
#[verifier::external_body]
pub(crate) fn write_toml_string(key: &str, value: &str) -> (r: Result<String, String>)
    requires
        is_bare_key(key@),
        forall|i: int| 0 <= i < value@.len() ==> is_hex_digit(#[trigger] value@[i]),
    ensures
        r is Ok,
        r->Ok_0@ == key@ + " = \""@ + value@ + "\"\n"@,
        toml_string(r->Ok_0@, key@) == Some(value@),
{
    let mut table = toml::Table::new();
    table.insert(key.to_string(), toml::Value::String(value.to_string()));
    toml::to_string(&table).map_err(|error| error.to_string())
}

// ---------------------------------------------------------------------------
// JSON
// ---------------------------------------------------------------------------

/// The string that a JSON text denotes: `None` where the text is no JSON string.
pub uninterp spec fn json_string(text: Seq<char>) -> Option<Seq<char>>;

/// `serde_json::from_str` into a string.
#[verifier::external_body]
pub(crate) fn parse_json_string(text: &str) -> (r: Option<String>)
    ensures
        match r {
            Some(value) => json_string(text@) == Some(value@),
            None => json_string(text@) is None,
        },
{
    serde_json::from_str::<String>(text).ok()
}

/// The key of a JSON object that has exactly one entry, where that entry is null: `None`
/// for any other text. So an enum's variant without content can be written, besides as
/// a string.
pub uninterp spec fn json_null_entry(text: Seq<char>) -> Option<Seq<char>>;

/// `serde_json::Deserializer` asked for an enum, which takes no object with more than one
/// entry, and `serde_json::from_str` into a map of nulls for the key.
#[verifier::external_body]
pub(crate) fn parse_json_null_entry(text: &str) -> (r: Option<String>)
    ensures
        match r {
            Some(key) => json_null_entry(text@) == Some(key@),
            None => json_null_entry(text@) is None,
        },
{
    let mut object = serde_json::Deserializer::from_str(text);
    serde::Deserializer::deserialize_enum(&mut object, "", &[], serde::de::IgnoredAny).ok()?;
    let entries = serde_json::from_str::<std::collections::BTreeMap<String, ()>>(text).ok()?;
    entries.into_keys().next()
}

/// The JSON text of a string.
pub uninterp spec fn json_quoted(value: Seq<char>) -> Seq<char>;

/// `serde_json::Value::String` rendered with `to_string`: the JSON text of a
/// string. Parsing it gives the string back.
#[verifier::external_body]
pub(crate) fn quote_json(value: &str) -> (r: String)
    ensures
        r@ == json_quoted(value@),
        json_string(r@) == Some(value@),
{
    serde_json::Value::String(value.to_string()).to_string()
}

// ---------------------------------------------------------------------------
// HTTP
// ---------------------------------------------------------------------------

/// The moment that an HTTP date denotes, in seconds since the Unix epoch:
/// `None` where the text is no HTTP date.
pub uninterp spec fn http_date_secs(text: Seq<char>) -> Option<u64>;

/// `httpdate::parse_http_date`: the date as whole seconds since the Unix epoch,
/// which no HTTP date precedes.
#[verifier::external_body]
pub(crate) fn parse_http_date(text: &str) -> (r: Option<u64>)
    ensures
        r == http_date_secs(text@),
{
    let time = httpdate::parse_http_date(text).ok();
    time.and_then(|t| t.duration_since(std::time::UNIX_EPOCH).ok()).map(|d| d.as_secs())
}

/// How an HTTP status code is shown: the number and its canonical reason.
pub uninterp spec fn http_status_text(status: u16) -> Seq<char>;

/// `reqwest::StatusCode` rendered with `to_string`. A status code has three digits.
#[verifier::external_body]
pub(crate) fn status_text(status: u16) -> (r: String)
    requires
        100 <= status <= 999,
    ensures
        r@ == http_status_text(status),
{
    reqwest::StatusCode::from_u16(status).map(|code| code.to_string()).unwrap_or_default()
}

// ---------------------------------------------------------------------------
// std
// ---------------------------------------------------------------------------

/// A text as `{:?}` shows it: in quotes, with special characters escaped.
pub uninterp spec fn debug_quoted(text: Seq<char>) -> Seq<char>;

/// `{:?}` of a text.
#[verifier::external_body]
pub(crate) fn quote_debug(text: &str) -> (r: String)
    ensures
        r@ == debug_quoted(text@),
{
    format!("{:?}", text)
}

/// `std::path::Path::extension`: what follows the last dot of the final component, unless that
/// dot is the component's first character; none where there is no file name. Each system's
/// separators say which component is the final one, see [`is_extension_of`].
#[verifier::external_body]
pub(crate) fn path_extension(path: &str) -> (r: Option<String>)
    ensures
        is_extension_of(path@, opt_text(r)),
{
    let extension = std::path::Path::new(path).extension();
    extension.and_then(|extension| extension.to_str()).map(|extension| extension.to_string())
}

/// `std::path::Path::parent`: the path without its final component, and none where it ends in
/// a root or is empty. Each system's separators say where the final component begins, see
/// [`is_parent_of`].
#[verifier::external_body]
pub(crate) fn path_parent(path: &str) -> (r: Option<String>)
    ensures
        is_parent_of(path@, opt_text(r)),
{
    std::path::Path::new(path).parent().and_then(|parent| parent.to_str()).map(
        |parent| parent.to_string(),
    )
}

/// `std::path::Path::file_name`: the final component of the path, and none where the path ends
/// in a root or in two dots or is empty. Each system's separators say which component is the
/// final one, see [`is_file_name_of`].
#[verifier::external_body]
pub(crate) fn path_file_name(path: &str) -> (r: Option<String>)
    ensures
        is_file_name_of(path@, opt_text(r)),
{
    std::path::Path::new(path).file_name().and_then(|name| name.to_str()).map(
        |name| name.to_string(),
    )
}

/// `std::time::Instant`, a reading of the monotonic clock.
#[verifier::external_type_specification]
#[verifier::external_body]
pub struct ExInstant(std::time::Instant);

/// `std::time::Instant::now`. Nothing is said of when that is.
#[verifier::external_body]
pub(crate) fn instant_now() -> std::time::Instant {
    std::time::Instant::now()
}

/// `std::time::Instant::elapsed`, in seconds and nanoseconds. Nothing is said of how
/// many, but that the nanoseconds make up less than a second.
#[verifier::external_body]
pub(crate) fn elapsed(since: &std::time::Instant) -> (r: (u64, u32))
    ensures
        r.1 < 1_000_000_000,
{
    let elapsed = since.elapsed();
    (elapsed.as_secs(), elapsed.subsec_nanos())
}

/// A time span as `{:?}` shows it.
pub uninterp spec fn duration_shown(secs: u64, nanos: u32) -> Seq<char>;

/// `{:?}` of a `std::time::Duration`.
#[verifier::external_body]
pub(crate) fn duration_text(secs: u64, nanos: u32) -> (r: String)
    requires
        nanos < 1_000_000_000,
    ensures
        r@ == duration_shown(secs, nanos),
{
    format!("{:?}", std::time::Duration::new(secs, nanos))
}

/// `std::time::SystemTime::now`, in seconds since the Unix epoch, 0 before it.
/// Nothing is said of which second it is.
#[verifier::external_body]
pub(crate) fn unix_now_secs() -> u64 {
    std::time::SystemTime::now().duration_since(std::time::UNIX_EPOCH).unwrap_or_default().as_secs()
}

} // verus!
