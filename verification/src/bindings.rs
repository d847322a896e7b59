//! The calls this library makes into other crates, each with the contract the
//! rest of the library relies on. Nothing in this file is proved: each item
//! states what the called crate's source shows.
use vstd::prelude::*;

use rand::Rng;
use sha1::Digest;

use crate::logger::{LogLevel, XmlAttribute, XmlItem};
use crate::mod_manager::VersionOrder;

verus! {

/// The minor number of the SemVer version that `text` spells, or `None` when
/// `text` is not a SemVer version. Given by `semver::Version::parse`.
pub uninterp spec fn semver_minor_of(text: Seq<char>) -> Option<u64>;

/// Parses `text` with `semver::Version::parse` and gives the minor number of the
/// version; `None` when parsing fails. The contract only names the result: it
/// depends on `text` alone.
#[verifier::external_body]
pub(crate) fn semver_minor(text: &str) -> (r: Option<u64>)
    ensures
        r == semver_minor_of(text@),
{
    semver::Version::parse(text).ok().map(|v| v.minor)
}

/// How the SemVer versions spelled by `a` and `b` compare under `semver`'s
/// `Ord` for `Version`, or `None` when either text is not a SemVer version.
pub uninterp spec fn semver_order_of(a: Seq<char>, b: Seq<char>) -> Option<VersionOrder>;

/// Parses `a` and `b` with `semver::Version::parse` and compares the versions
/// with their `Ord` (`Version::cmp`); `None` when either parse fails. The order
/// is named, not described: it depends on the two texts alone.
#[verifier::external_body]
pub(crate) fn semver_order(a: &str, b: &str) -> (r: Option<VersionOrder>)
    ensures
        r == semver_order_of(a@, b@),
{
    match (semver::Version::parse(a), semver::Version::parse(b)) {
        (Ok(x), Ok(y)) => Some(match x.cmp(&y) {
            std::cmp::Ordering::Less => VersionOrder::Less,
            std::cmp::Ordering::Equal => VersionOrder::Equal,
            std::cmp::Ordering::Greater => VersionOrder::Greater,
        }),
        _ => None,
    }
}

/// A character Windows forbids in file and directory names: `\ / : * ? " < > |`.
pub open spec fn forbidden_in_names(c: char) -> bool {
    c == '\\' || c == '/' || c == ':' || c == '*' || c == '?' || c == '"' || c == '<' || c == '>' || c == '|'
}

/// `s` without the characters forbidden in names, in order.
pub open spec fn without_forbidden(s: Seq<char>) -> Seq<char> {
    s.filter(|c: char| !forbidden_in_names(c))
}

/// Removes from `s` the characters forbidden in names, with a `regex::Regex`
/// for the character class of those characters and `Regex::replace_all` with an
/// empty replacement: each match is one such character, and every match is
/// removed. The pattern is a constant that compiles, so the `unwrap` holds.
#[verifier::external_body]
pub(crate) fn strip_forbidden(s: &str) -> (r: String)
    ensures
        r@ == without_forbidden(s@),
{
    regex::Regex::new(r#"[\\/:*?\"<>|]"#).unwrap().replace_all(s, "").to_string()
}

/// The upper-case form of `s` that `str::to_uppercase` gives.
pub uninterp spec fn uppercase_of(s: Seq<char>) -> Seq<char>;

/// Upper-cases `s` with `str::to_uppercase`. The result is named, not described:
/// it depends on `s` alone.
#[verifier::external_body]
pub(crate) fn to_uppercase(s: &str) -> (r: String)
    ensures
        r@ == uppercase_of(s@),
{
    s.to_uppercase()
}

/// An ASCII letter or digit.
pub open spec fn is_ascii_alphanumeric(c: char) -> bool {
    ('a' <= c && c <= 'z') || ('A' <= c && c <= 'Z') || ('0' <= c && c <= '9')
}

/// `len` characters drawn by `rand` from its `Alphanumeric` distribution,
/// which samples ASCII letters and digits. The draw is random: the contract
/// says only what holds of every outcome.
#[verifier::external_body]
pub(crate) fn random_alphanumeric(len: usize) -> (r: String)
    ensures
        r@.len() == len,
        forall|i: int| 0 <= i < len ==> is_ascii_alphanumeric(#[trigger] r@[i]),
{
    rand::thread_rng().sample_iter(&rand::distributions::Alphanumeric).take(len).map(char::from).collect()
}

/// The sixteen bytes of `u`, most significant first.
pub open spec fn uuid_bytes(u: u128) -> Seq<u8> {
    Seq::new(16, |i: int| ((u as int / vstd::arithmetic::power::pow(256, (15 - i) as nat)) % 256) as u8)
}

/// The hyphenated lowercase form of the UUID `u`: its 32 hexadecimal digits,
/// most significant first, in groups of 8, 4, 4, 4 and 12 joined by `-`.
pub open spec fn hyphenated_uuid(u: u128) -> Seq<char> {
    let h = hex_lower(uuid_bytes(u));
    h.subrange(0, 8) + seq!['-'] + h.subrange(8, 12) + seq!['-'] + h.subrange(12, 16) + seq!['-'] + h.subrange(16, 20)
        + seq!['-'] + h.subrange(20, 32)
}

/// Spells the UUID whose value is `u` (`uuid::Uuid::from_u128`, which takes the
/// value's bytes most significant first) with `Uuid`'s `Display`, the
/// hyphenated lowercase form.
#[verifier::external_body]
pub(crate) fn uuid_text(u: u128) -> (r: String)
    ensures
        r@ == hyphenated_uuid(u),
{
    uuid::Uuid::from_u128(u).to_string()
}

/// The SHA-1 digest of `data`, as the `sha1` crate computes it.
pub uninterp spec fn sha1_of(data: Seq<u8>) -> Seq<u8>;

/// Hashes `data` with `sha1::Sha1` (`Digest::digest`). The digest is named, not
/// described; it depends on `data` alone and is 20 bytes long (`OutputSize` is `U20`).
#[verifier::external_body]
pub(crate) fn sha1_digest(data: &[u8]) -> (r: Vec<u8>)
    ensures
        r@ == sha1_of(data@),
        r@.len() == 20,
{
    sha1::Sha1::digest(data).to_vec()
}

/// The value of the hexadecimal digit `c`, or `-1` when `c` is not one.
pub open spec fn hex_digit_value(c: u8) -> int {
    if 48 <= c <= 57 {
        c - 48
    } else if 97 <= c <= 102 {
        c - 97 + 10
    } else if 65 <= c <= 70 {
        c - 65 + 10
    } else {
        -1
    }
}

/// `text` is an even number of hexadecimal digits.
pub open spec fn hex_valid(text: Seq<u8>) -> bool {
    text.len() % 2 == 0 && forall|i: int| 0 <= i < text.len() ==> hex_digit_value(#[trigger] text[i]) >= 0
}

/// The bytes that the digit pairs of `text` spell, high digit first.
pub open spec fn hex_bytes(text: Seq<u8>) -> Seq<u8> {
    Seq::new(text.len() / 2, |i: int| (hex_digit_value(text[2 * i]) * 16 + hex_digit_value(text[2 * i + 1])) as u8)
}

/// The lowercase hexadecimal digit of `v`, which is below 16.
pub open spec fn hex_digit(v: int) -> char {
    if v < 10 {
        (48 + v) as char
    } else {
        (97 + v - 10) as char
    }
}

/// `data` in lowercase hexadecimal, two digits per byte, high digit first.
pub open spec fn hex_lower(data: Seq<u8>) -> Seq<char> {
    Seq::new(2 * data.len(), |i: int| if i % 2 == 0 { hex_digit(data[i / 2] as int / 16) } else { hex_digit(data[i / 2] as int % 16) })
}

/// The error `hex::decode` reports.
#[verifier::external_type_specification]
#[verifier::external_body]
pub struct ExFromHexError(hex::FromHexError);

/// Decodes `text` with `hex::decode`: it succeeds exactly on an even number of
/// hexadecimal digits (either case), and then gives the bytes the digit pairs
/// spell. Which error it reports otherwise is not stated.
#[verifier::external_body]
pub(crate) fn hex_decode(text: &[u8]) -> (r: Result<Vec<u8>, hex::FromHexError>)
    ensures
        r is Ok <==> hex_valid(text@),
        r matches Ok(v) ==> v@ == hex_bytes(text@),
{
    hex::decode(text)
}

/// Encodes `data` with `hex::encode`: two lowercase digits per byte.
#[verifier::external_body]
pub(crate) fn hex_encode(data: &[u8]) -> (r: String)
    ensures
        r@ == hex_lower(data@),
{
    hex::encode(data)
}

/// The path of the URL that `text` spells, or `None` when `url::Url::parse`
/// rejects `text`.
pub uninterp spec fn url_path_of(text: Seq<char>) -> Option<Seq<char>>;

/// The error `url::Url::parse` reports.
#[verifier::external_type_specification]
#[verifier::external_body]
pub struct ExParseError(url::ParseError);

/// Parses `text` with `url::Url::parse` and gives the URL's path (`Url::path`).
/// The parse is named, not described: it depends on `text` alone.
#[verifier::external_body]
pub(crate) fn url_path(text: &str) -> (r: Result<String, url::ParseError>)
    ensures
        r is Ok <==> url_path_of(text@) is Some,
        r matches Ok(p) ==> p@ == url_path_of(text@)->0,
{
    url::Url::parse(text).map(|u| u.path().to_string())
}

/// The events `xml::EventReader` reads from `text`, up to the end of the
/// document or the first error, each reduced to what the log parser reads.
pub uninterp spec fn xml_events_of(text: Seq<char>) -> Seq<XmlItem>;

/// Reads `text` with `xml::EventReader::from_str` and collects its events. A
/// start tag keeps the local names and values of its attributes; a read error
/// becomes `XmlItem::Error`, and the reader yields nothing after it. The events
/// are named, not described: they depend on `text` alone.
#[verifier::external_body]
pub(crate) fn xml_events(text: &str) -> (r: Vec<XmlItem>)
    ensures
        r@ == xml_events_of(text@),
{
    xml::EventReader::from_str(text).into_iter().map(|event| match event {
        Ok(xml::reader::XmlEvent::StartElement { attributes, .. }) => XmlItem::StartElement {
            attributes: attributes.into_iter().map(|a| XmlAttribute { local_name: a.name.local_name, value: a.value }).collect(),
        },
        Ok(xml::reader::XmlEvent::CData(x)) => XmlItem::CData(x),
        Ok(xml::reader::XmlEvent::EndElement { .. }) => XmlItem::EndElement,
        Ok(_) => XmlItem::Other,
        Err(_) => XmlItem::Error,
    }).collect()
}

/// `c` with an ASCII capital letter lowered.
pub open spec fn ascii_lower(c: char) -> char {
    if 'A' <= c <= 'Z' {
        ((c as int) + 32) as char
    } else {
        c
    }
}

/// `s` and `t` are equal when ASCII letter case is ignored.
pub open spec fn eq_ignore_ascii_case(s: Seq<char>, t: Seq<char>) -> bool {
    s.len() == t.len() && forall|i: int| 0 <= i < s.len() ==> ascii_lower(#[trigger] s[i]) == ascii_lower(t[i])
}

/// `c` is an ASCII decimal digit.
pub open spec fn is_decimal_digit(c: char) -> bool {
    '0' <= c <= '9'
}

/// The number the decimal digits `d` spell.
pub open spec fn digits_value(d: Seq<char>) -> int
    decreases d.len(),
{
    if d.len() == 0 {
        0
    } else {
        digits_value(d.drop_last()) * 10 + ((d.last() as int) - ('0' as int))
    }
}

/// The number `s` spells as an unsigned integer (an optional `+`, then one or
/// more decimal digits), or `None`.
pub open spec fn unsigned_text_value(s: Seq<char>) -> Option<int> {
    let d = if s.len() > 0 && s[0] == '+' { s.drop_first() } else { s };
    if d.len() > 0 && forall|i: int| 0 <= i < d.len() ==> is_decimal_digit(#[trigger] d[i]) {
        Some(digits_value(d))
    } else {
        None
    }
}

/// The log level `s` names, as `tracing::Level::from_str` reads it: the numbers
/// 1 to 5 stand for error, warn, info, debug and trace; otherwise the level's
/// name in any ASCII case.
pub open spec fn level_named(s: Seq<char>) -> Option<LogLevel> {
    let n = unsigned_text_value(s);
    if n == Some(1int) {
        Some(LogLevel::Error)
    } else if n == Some(2int) {
        Some(LogLevel::Warn)
    } else if n == Some(3int) {
        Some(LogLevel::Info)
    } else if n == Some(4int) {
        Some(LogLevel::Debug)
    } else if n == Some(5int) {
        Some(LogLevel::Trace)
    } else {
        if eq_ignore_ascii_case(s, "error"@) {
            Some(LogLevel::Error)
        } else if eq_ignore_ascii_case(s, "warn"@) {
            Some(LogLevel::Warn)
        } else if eq_ignore_ascii_case(s, "info"@) {
            Some(LogLevel::Info)
        } else if eq_ignore_ascii_case(s, "debug"@) {
            Some(LogLevel::Debug)
        } else if eq_ignore_ascii_case(s, "trace"@) {
            Some(LogLevel::Trace)
        } else {
            None
        }
    }
}

/// Parses a log level with `tracing::Level`'s `FromStr`; see `level_named`.
#[verifier::external_body]
pub(crate) fn parse_level(text: &str) -> (r: Option<LogLevel>)
    ensures
        r == level_named(text@),
{
    match text.parse::<tracing::Level>() {
        Ok(tracing::Level::TRACE) => Some(LogLevel::Trace),
        Ok(tracing::Level::DEBUG) => Some(LogLevel::Debug),
        Ok(tracing::Level::INFO) => Some(LogLevel::Info),
        Ok(tracing::Level::WARN) => Some(LogLevel::Warn),
        Ok(_) => Some(LogLevel::Error),
        Err(_) => None,
    }
}

} // verus!
