//! Reading single values out of a JSON text.
//!
//! The texts come from the network. Each reader below parses the whole text,
//! follows a path of object keys from the root, and reports what it finds at
//! the end of the path. A step into something that is not an object, or to a
//! key that the object lacks, leads to `null`, as does every step after it.

use vstd::prelude::*;

verus! {

/// The keys of a path, as sequences of characters.
pub open spec fn path_view(path: Seq<&str>) -> Seq<Seq<char>> {
    path.map_values(|key: &str| key@)
}

/// The unsigned integer at the end of `path` in the JSON document `text`:
/// `None` if `text` is not one JSON value, or if the place holds anything
/// but an integer between 0 and 2^64 - 1.
pub uninterp spec fn json_u64_at(text: Seq<char>, path: Seq<Seq<char>>) -> Option<u64>;

/// The string at the end of `path` in the JSON document `text`: `None` if
/// `text` is not one JSON value, or if the place holds anything but a string.
pub uninterp spec fn json_text_at(text: Seq<char>, path: Seq<Seq<char>>) -> Option<Seq<char>>;

/// Whether the end of `path` in the JSON document `text` is `null`: `None`
/// if `text` is not one JSON value.
pub uninterp spec fn json_null_at(text: Seq<char>, path: Seq<Seq<char>>) -> Option<bool>;

/// The string that is element `index` of the array at the end of `path` in
/// the JSON document `text`: `None` if `text` is not one JSON value, if the
/// place holds no array of more than `index` elements, or if the element is
/// not a string.
pub uninterp spec fn json_element_text_at(
    text: Seq<char>,
    path: Seq<Seq<char>>,
    index: usize,
) -> Option<Seq<char>>;

/// Parses `text` with `serde_json::from_str`, follows `path` with the index
/// operator of `serde_json::Value`, and reads the place with
/// `Value::as_u64`. The result depends on the two arguments alone.
#[verifier::external_body]
pub(crate) fn read_u64(text: &str, path: &[&str]) -> (found: Option<u64>)
    ensures
        found == json_u64_at(text@, path_view(path@)),
{
    let document: serde_json::Value = serde_json::from_str(text).ok()?;
    let mut node: &serde_json::Value = &document;
    for key in path {
        node = &node[*key];
    }
    node.as_u64()
}

/// Parses `text` with `serde_json::from_str`, follows `path` with the index
/// operator of `serde_json::Value`, and reads the place with
/// `Value::as_str`. The result depends on the two arguments alone.
#[verifier::external_body]
pub(crate) fn read_text(text: &str, path: &[&str]) -> (found: Option<String>)
    ensures
        match found {
            Some(s) => json_text_at(text@, path_view(path@)) == Some(s@),
            None => json_text_at(text@, path_view(path@)) is None,
        },
{
    let document: serde_json::Value = serde_json::from_str(text).ok()?;
    let mut node: &serde_json::Value = &document;
    for key in path {
        node = &node[*key];
    }
    node.as_str().map(String::from)
}

/// Parses `text` with `serde_json::from_str`, follows `path` with the index
/// operator of `serde_json::Value`, and tests the place with
/// `Value::is_null`. The result depends on the two arguments alone.
#[verifier::external_body]
pub(crate) fn read_null(text: &str, path: &[&str]) -> (found: Option<bool>)
    ensures
        found == json_null_at(text@, path_view(path@)),
{
    let document: serde_json::Value = serde_json::from_str(text).ok()?;
    let mut node: &serde_json::Value = &document;
    for key in path {
        node = &node[*key];
    }
    Some(node.is_null())
}

/// Parses `text` with `serde_json::from_str`, follows `path` and then the
/// position `index` with the index operator of `serde_json::Value`, and
/// reads the place with `Value::as_str`. The result depends on the three
/// arguments alone.
#[verifier::external_body]
pub(crate) fn read_element_text(text: &str, path: &[&str], index: usize) -> (found: Option<String>)
    ensures
        match found {
            Some(s) => json_element_text_at(text@, path_view(path@), index) == Some(s@),
            None => json_element_text_at(text@, path_view(path@), index) is None,
        },
{
    let document: serde_json::Value = serde_json::from_str(text).ok()?;
    let mut node: &serde_json::Value = &document;
    for key in path {
        node = &node[*key];
    }
    node[index].as_str().map(String::from)
}

} // verus!
