//! The calls into other crates (and into parts of std that vstd leaves
//! unspecified) that the library's logic makes, each with the contract relied on.
use vstd::prelude::*;

verus! {

/// What `str::to_lowercase` returns for a string; it depends on the characters alone.
pub uninterp spec fn lower_of(s: Seq<char>) -> Seq<char>;

/// Relies on `str::to_lowercase`: the Unicode lower-case mapping of each character.
#[verifier::external_body]
pub(crate) fn lowercase(s: &str) -> (r: String)
    ensures
        r@ == lower_of(s@),
        s@.len() == 0 ==> r@.len() == 0,
{
    s.to_lowercase()
}

/// What `char::is_lowercase` answers for a character (the Unicode `Lowercase` property).
pub uninterp spec fn is_lower_char(c: char) -> bool;

/// Relies on `char::is_lowercase`: ASCII `a`..`z` are lower case, ASCII `A`..`Z` are not.
#[verifier::external_body]
pub(crate) fn char_is_lowercase(c: char) -> (r: bool)
    ensures
        r == is_lower_char(c),
        'a' <= c <= 'z' ==> r,
        'A' <= c <= 'Z' ==> !r,
{
    c.is_lowercase()
}

/// What `cookie::Cookie::parse` gives for one cookie string: `None` where it
/// fails, else the cookie's name and value.
pub uninterp spec fn cookie_pair_of(s: Seq<char>) -> Option<(Seq<char>, Seq<char>)>;

/// A character that `Cookie::parse` neither trims, splits at, nor unquotes.
pub open spec fn plain_cookie_char(c: char) -> bool {
    ('a' <= c <= 'z') || ('A' <= c <= 'Z') || ('0' <= c <= '9') || c == '_' || c == '-' || c == '.'
        || c == '%'
}

/// `s` is a plain `name=value` cookie whose `=` stands at `i`: a non-empty
/// name, and every other character plain.
pub open spec fn plain_cookie_at(s: Seq<char>, i: int) -> bool {
    &&& 0 < i < s.len()
    &&& s[i] == '='
    &&& forall|j: int| 0 <= j < s.len() && j != i ==> plain_cookie_char(#[trigger] s[j])
}

/// Relies on `cookie::Cookie::parse`, `Cookie::name` and `Cookie::value`. On a
/// plain `name=value` text the name is the text before the `=` and the value
/// the text after it (the parse splits at the first `=` and at `;`, trims
/// whitespace and strips surrounding quotes, none of which a plain text has).
#[verifier::external_body]
pub(crate) fn parse_cookie_pair(s: &str) -> (r: Option<(String, String)>)
    ensures
        match r {
            Some(p) => cookie_pair_of(s@) == Some((p.0@, p.1@)) && forall|i: int|
                #[trigger] plain_cookie_at(s@, i) ==> p.0@ == s@.take(i) && p.1@ == s@.skip(i + 1),
            None => cookie_pair_of(s@) is None && forall|i: int| !#[trigger] plain_cookie_at(s@, i),
        },
{
    match cookie::Cookie::parse(s) {
        Ok(c) => Some((c.name().to_string(), c.value().to_string())),
        Err(_) => None,
    }
}

#[verifier::external_type_specification]
#[verifier::external_body]
pub struct ExJsonError(serde_json::Error);

/// What one field of a JSON object looks like, as `serde_json` reads it:
/// `None` for `null` (an absent key reads as `null` too), else what
/// `as_bool`, `as_i64` and `as_str` give for it.
pub type JsonField = Option<(Option<bool>, Option<i64>, Option<String>)>;

pub open spec fn json_field_view(f: JsonField) -> Option<(Option<bool>, Option<i64>, Option<Seq<char>>)> {
    match f {
        None => None,
        Some((b, n, s)) => Some(
            (
                b,
                n,
                match s {
                    Some(t) => Some(t@),
                    None => None,
                },
            ),
        ),
    }
}

/// What `serde_json` reads from a text and a key: `None` where the text is no
/// JSON, else the field under that key (see `JsonField`).
pub uninterp spec fn json_field_of(text: Seq<char>, key: Seq<char>) -> Option<
    Option<(Option<bool>, Option<i64>, Option<Seq<char>>)>,
>;

/// Relies on `serde_json::from_str::<Value>`, on indexing a `Value` by a key, and on
/// `Value::as_bool`, `Value::as_i64` and `Value::as_str`.
#[verifier::external_body]
pub(crate) fn read_json_field(text: &str, key: &str) -> (r: Result<JsonField, serde_json::Error>)
    ensures
        match r {
            Ok(f) => json_field_of(text@, key@) == Some(json_field_view(f)),
            Err(_) => json_field_of(text@, key@) is None,
        },
{
    match serde_json::from_str::<serde_json::Value>(text) {
        Ok(v) => Ok(match &v[key] {
            serde_json::Value::Null => None,
            f => Some((f.as_bool(), f.as_i64(), f.as_str().map(String::from))),
        }),
        Err(e) => Err(e),
    }
}

} // verus!
