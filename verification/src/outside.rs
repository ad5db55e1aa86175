//! The functions of other crates that the library rests on, each behind one
//! function with a contract. Nothing here is proved of them.

use vstd::prelude::*;

verus! {

/// The SHA-256 digest of a sequence of bytes.
pub uninterp spec fn sha256_of(bytes: Seq<u8>) -> Seq<u8>;

/// `sha2::Sha256::digest`: the digest depends on the bytes alone and has 32
/// bytes.
#[verifier::external_body]
pub(crate) fn sha256(bytes: &[u8]) -> (r: Vec<u8>)
    ensures
        r@ == sha256_of(bytes@),
        r@.len() == 32,
{
    <sha2::Sha256 as sha2::Digest>::digest(bytes).to_vec()
}

/// A text as the debug notation of `str` writes it: in quotes, with escapes.
pub uninterp spec fn debug_text(s: Seq<char>) -> Seq<char>;

/// `format!` with `{:?}` on a string: what it gives depends on the text alone.
/// Which characters it escapes is left unsaid.
#[verifier::external_body]
pub(crate) fn debug_string(s: &str) -> (r: String)
    ensures
        r@ == debug_text(s@),
{
    format!("{:?}", s)
}

/// The hash of a text that a default `DefaultHasher` gives.
pub uninterp spec fn hash_of_text(s: Seq<char>) -> u64;

/// `std::hash::BuildHasher::hash_one`, of a string with a default
/// `DefaultHasher`: all such hashers are the same, so the number depends on the
/// text alone. Which number it is is left unsaid, since the algorithm is not
/// fixed.
#[verifier::external_body]
pub(crate) fn default_hash(s: &str) -> (r: u64)
    ensures
        r == hash_of_text(s@),
{
    let hashers: std::hash::BuildHasherDefault<std::hash::DefaultHasher> = Default::default();
    std::hash::BuildHasher::hash_one(&hashers, s)
}

/// A JSON text in its compact form, if it is one.
pub uninterp spec fn json_compact(text: Seq<char>) -> Option<Seq<char>>;

/// `serde_json::from_str` into a value and the text of that value: both
/// depend on the given text alone.
#[verifier::external_body]
pub(crate) fn compact_json(text: &str) -> (r: Option<String>)
    ensures
        match r {
            Some(s) => json_compact(text@) == Some(s@),
            None => json_compact(text@) is None,
        },
{
    match serde_json::from_str::<serde_json::Value>(text) {
        Ok(v) => Some(v.to_string()),
        Err(_) => None,
    }
}

/// The text of a member of the object that a JSON text is; absent where the
/// text is no JSON, is no object, or has no text there.
pub uninterp spec fn json_member(text: Seq<char>, key: Seq<char>) -> Option<Seq<char>>;

/// `serde_json::from_str` into a value, and the text of its member with a key:
/// what is found depends on the text and the key alone.
#[verifier::external_body]
pub(crate) fn text_in_json(text: &str, key: &str) -> (r: Option<String>)
    ensures
        crate::llm::types::text_view(r) == json_member(text@, key@),
{
    let v: serde_json::Value = serde_json::from_str(text).ok()?;
    v.get(key)?.as_str().map(|s| s.to_owned())
}

/// A random UUID in its usual notation: small hexadecimal digits in groups of
/// eight, four, four, four and twelve, the third of which begins with the
/// version, 4, and the fourth with a digit from 8 to b for the variant.
pub open spec fn is_uuid(s: Seq<char>) -> bool {
    &&& s.len() == 36
    &&& forall|i: int|
        0 <= i < 36 ==> if i == 8 || i == 13 || i == 18 || i == 23 {
            #[trigger] s[i] == '-'
        } else {
            '0' <= s[i] <= '9' || 'a' <= s[i] <= 'f'
        }
    &&& s[14] == '4'
    &&& s[19] == '8' || s[19] == '9' || s[19] == 'a' || s[19] == 'b'
}

/// `uuid::Uuid::new_v4` and its notation. The digits are random.
#[verifier::external_body]
pub(crate) fn new_uuid() -> (r: String)
    ensures
        is_uuid(r@),
{
    uuid::Uuid::new_v4().to_string()
}

/// A sequence of bytes read as UTF-8, with a replacement character for what
/// cannot be read.
pub uninterp spec fn lossy_text(bytes: Seq<u8>) -> Seq<char>;

/// `String::from_utf8_lossy`: the text depends on the bytes alone.
#[verifier::external_body]
pub(crate) fn utf8_lossy(bytes: &[u8]) -> (r: String)
    ensures
        r@ == lossy_text(bytes@),
{
    String::from_utf8_lossy(bytes).into_owned()
}

/// `String::from_utf8`: the text that the bytes are in UTF-8, if they are one.
#[verifier::external_body]
pub(crate) fn utf8_text(bytes: Vec<u8>) -> (r: Option<String>)
    ensures
        match r {
            Some(s) => vstd::utf8::valid_utf8(bytes@) && s@ == vstd::utf8::decode_utf8(bytes@),
            None => !vstd::utf8::valid_utf8(bytes@),
        },
{
    String::from_utf8(bytes).ok()
}

/// A character is a letter or a number, by the rules of Unicode.
pub uninterp spec fn alphanumeric(c: char) -> bool;

/// `char::is_alphanumeric`: the answer depends on the character alone.
#[verifier::external_body]
pub(crate) fn is_alphanumeric(c: char) -> (r: bool)
    ensures
        r == alphanumeric(c),
{
    c.is_alphanumeric()
}

/// The date and the time of day of a second before or after the start of 1970,
/// in UTC, if chrono has a date for it.
pub uninterp spec fn utc_text(secs: i64) -> Option<Seq<char>>;

/// `chrono::DateTime::from_timestamp`, and `format` with
/// `%Y-%m-%d %H:%M:%S UTC`: the text depends on the second alone. From 1970 to
/// the end of the year 9999 it is the date in the Gregorian calendar and the
/// time of day.
#[verifier::external_body]
pub(crate) fn utc_time(secs: i64) -> (r: Option<String>)
    ensures
        crate::llm::types::text_view(r) == utc_text(secs),
        crate::error_log::agrees_with_calendar(secs, crate::llm::types::text_view(r)),
{
    match chrono::DateTime::from_timestamp(secs, 0) {
        Some(d) => Some(d.format("%Y-%m-%d %H:%M:%S UTC").to_string()),
        None => None,
    }
}

/// A text in small letters, by the rules of Unicode.
pub uninterp spec fn lowercase_text(s: Seq<char>) -> Seq<char>;

/// `str::to_lowercase`: the text depends on the given one alone.
#[verifier::external_body]
pub(crate) fn lowercase(s: &str) -> (r: String)
    ensures
        r@ == lowercase_text(s@),
{
    s.to_lowercase()
}

/// A compiled regular expression.
#[verifier::external_type_specification]
#[verifier::external_body]
pub struct ExRegex(regex::Regex);

/// The pattern that a regular expression was compiled from.
pub uninterp spec fn regex_pattern(re: regex::Regex) -> Seq<char>;

/// A regular expression does not tell capitals from small letters.
pub uninterp spec fn regex_folds(re: regex::Regex) -> bool;

/// Why a pattern cannot be compiled, if it cannot.
pub uninterp spec fn regex_problem(pattern: Seq<char>, folds: bool) -> Option<Seq<char>>;

/// `regex::RegexBuilder::build`, with the flag of `case_insensitive`: whether
/// a pattern can be compiled, and the text of the error, depend on the pattern
/// and the flag alone, and what was compiled is that pattern with that flag.
#[verifier::external_body]
pub(crate) fn regex_compile(pattern: &str, folds: bool) -> (r: Result<regex::Regex, String>)
    ensures
        match r {
            Ok(re) => {
                &&& regex_problem(pattern@, folds) is None
                &&& regex_pattern(re) == pattern@
                &&& regex_folds(re) == folds
            },
            Err(e) => regex_problem(pattern@, folds) == Some(e@),
        },
{
    match regex::RegexBuilder::new(pattern).case_insensitive(folds).build() {
        Ok(re) => Ok(re),
        Err(e) => Err(e.to_string()),
    }
}

/// A pattern matches somewhere in a text.
pub uninterp spec fn regex_matches(pattern: Seq<char>, folds: bool, s: Seq<char>) -> bool;

/// `regex::Regex::is_match`: the answer depends on the pattern, its flag and
/// the text alone.
#[verifier::external_body]
pub(crate) fn regex_is_match(re: &regex::Regex, s: &str) -> (r: bool)
    ensures
        r == regex_matches(regex_pattern(*re), regex_folds(*re), s@),
{
    re.is_match(s)
}

/// The texts of the first and the second group of the first match of a
/// pattern, if there is a match.
pub uninterp spec fn regex_groups(pattern: Seq<char>, folds: bool, s: Seq<char>) -> Option<
    (Option<Seq<char>>, Option<Seq<char>>),
>;

/// The models of the texts of two groups.
pub open spec fn group_views(g: Option<(Option<String>, Option<String>)>) -> Option<
    (Option<Seq<char>>, Option<Seq<char>>),
> {
    match g {
        Some((a, b)) => Some(
            (
                match a {
                    Some(s) => Some(s@),
                    None => None,
                },
                match b {
                    Some(s) => Some(s@),
                    None => None,
                },
            ),
        ),
        None => None,
    }
}

/// `regex::Regex::captures`, and the groups 1 and 2 of what it gives: they
/// depend on the pattern, its flag and the text alone. A group that the
/// pattern does not have, or that took no part in the match, is absent.
#[verifier::external_body]
pub(crate) fn regex_capture(re: &regex::Regex, s: &str) -> (r: Option<
    (Option<String>, Option<String>),
>)
    ensures
        group_views(r) == regex_groups(regex_pattern(*re), regex_folds(*re), s@),
{
    match re.captures(s) {
        Some(c) => Some(
            (
                c.get(1).map(|m| m.as_str().to_owned()),
                c.get(2).map(|m| m.as_str().to_owned()),
            ),
        ),
        None => None,
    }
}

} // verus!
