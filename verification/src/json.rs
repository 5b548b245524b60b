//! The little that is read out of JSON text without knowing its shape.

use vstd::prelude::*;

verus! {

/// What `serde_json` says of a member named `key` at the top of `contents`:
/// the error's description if `contents` is not JSON, nothing if it is JSON
/// but not an object, and otherwise whether the object has such a member.
pub uninterp spec fn json_member_presence(contents: Seq<char>, key: Seq<char>) -> Result<
    Option<bool>,
    Seq<char>,
>;

/// A presence's answer as plain values.
pub open spec fn presence_view(found: Result<Option<bool>, String>) -> Result<
    Option<bool>,
    Seq<char>,
> {
    match found {
        Ok(presence) => Ok(presence),
        Err(reason) => Err(reason@),
    }
}

/// What `serde_json` finds under `key` at the top of `contents`: the error's
/// description if `contents` is not JSON, the string if there is one under
/// that name, and nothing otherwise.
pub uninterp spec fn json_top_level_text(contents: Seq<char>, key: Seq<char>) -> Result<
    Option<Seq<char>>,
    Seq<char>,
>;

/// A lookup's answer as plain text.
pub open spec fn lookup_view(found: Result<Option<String>, String>) -> Result<
    Option<Seq<char>>,
    Seq<char>,
> {
    match found {
        Ok(Some(text)) => Ok(Some(text@)),
        Ok(None) => Ok(None),
        Err(reason) => Err(reason@),
    }
}

/// `serde_json::from_str` into a `Value`, then `Map::contains_key` where the
/// value is an object: the answer depends on the text and the key alone.
#[verifier::external_body]
pub(crate) fn member_presence(contents: &str, key: &str) -> (found: Result<Option<bool>, String>)
    ensures
        presence_view(found) == json_member_presence(contents@, key@),
{
    match serde_json::from_str::<serde_json::Value>(contents) {
        Ok(serde_json::Value::Object(members)) => Ok(Some(members.contains_key(key))),
        Ok(_) => Ok(None),
        Err(error) => Err(error.to_string()),
    }
}

/// `serde_json::from_str` into a `Value`, then the value's index by `key`
/// and `Value::as_str`: the answer depends on the text and the key alone.
#[verifier::external_body]
pub(crate) fn top_level_text(contents: &str, key: &str) -> (found: Result<Option<String>, String>)
    ensures
        lookup_view(found) == json_top_level_text(contents@, key@),
{
    match serde_json::from_str::<serde_json::Value>(contents) {
        Ok(value) => Ok(value[key].as_str().map(|text| text.to_string())),
        Err(error) => Err(error.to_string()),
    }
}

} // verus!
