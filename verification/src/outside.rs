//! The calls this library makes into outside crates, each behind a small
//! trusted item whose contract states what the crate documents.
use vstd::prelude::*;
use crate::text::views;

verus! {

/// `uuid::Uuid::new_v4().to_string()`: a fresh random UUID in its hyphenated
/// lower-case form.  Only its documented shape is stated: 36 characters, `-`
/// at positions 8, 13, 18 and 23 and lower-case hexadecimal digits elsewhere.
#[verifier::external_body]
pub fn new_uuid_v4() -> (r: String)
    ensures
        is_hyphenated_uuid(r@),
{
    uuid::Uuid::new_v4().to_string()
}

/// The hyphenated lower-case text form of a UUID.
pub open spec fn is_hyphenated_uuid(s: Seq<char>) -> bool {
    &&& s.len() == 36
    &&& forall|i: int|
        0 <= i < 36 ==> if i == 8 || i == 13 || i == 18 || i == 23 {
            #[trigger] s[i] == '-'
        } else {
            ('0' <= s[i] <= '9') || ('a' <= s[i] <= 'f')
        }
}

/// `chrono::Utc::now().to_rfc3339()`: the current time as RFC 3339 text.
/// Nothing is stated of it: it depends on the clock.
#[verifier::external_body]
pub fn now_rfc3339() -> (r: String) {
    chrono::Utc::now().to_rfc3339()
}

/// What `serde_json::from_str::<Vec<String>>` yields for `s`: `None` when
/// `s` is not a JSON array of strings.
pub uninterp spec fn json_string_array(s: Seq<char>) -> Option<Seq<Seq<char>>>;

/// What `serde_json::to_string::<Vec<String>>` yields for the strings
/// (`None` for an error).
pub uninterp spec fn json_of_strings(items: Seq<Seq<char>>) -> Option<Seq<char>>;

/// `serde_json::from_str::<Vec<String>>(s).ok()`.
#[verifier::external_body]
pub fn parse_json_string_array(s: &str) -> (r: Option<Vec<String>>)
    ensures
        r matches Some(v) ==> json_string_array(s@) == Some(views(v@)),
        r is None ==> json_string_array(s@) is None,
{
    serde_json::from_str::<Vec<String>>(s).ok()
}

/// `serde_json::to_string(&items).ok()` for a list of strings.  Its
/// documentation names the only ways serialisation fails, a `Serialize`
/// impl that fails or a map with non-string keys; a list of strings has
/// neither, so the text is always there, and reading it back as a list of
/// strings gives the same strings.
#[verifier::external_body]
pub fn json_string_array_text(items: &Vec<String>) -> (r: Option<String>)
    ensures
        r matches Some(t) ==> json_of_strings(views(items@)) == Some(t@),
        r is None ==> json_of_strings(views(items@)) is None,
        r is Some,
        r matches Some(t) ==> json_string_array(t@) == Some(views(items@)),
{
    serde_json::to_string(items).ok()
}

} // verus!
