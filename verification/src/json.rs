//! What the library reads from JSON documents: the strings they hold and the
//! keys under which they hold them. The documents themselves are values of
//! `serde_json`, known here only by what `get` and `as_str` tell of them.

use serde_json::Value;
use vstd::prelude::*;

verus! {

/// `serde_json::Value`: a JSON document, taken as it comes.
#[verifier::external_type_specification]
#[verifier::external_body]
pub struct ExValue(Value);

/// The strings in a document, each under the path of object keys that leads to
/// it. A document that is itself a string holds it under the empty path; numbers,
/// booleans, nulls and arrays hold none.
pub uninterp spec fn json_texts(v: Value) -> Map<Seq<Seq<char>>, Seq<char>>;

/// The keys of a document that is an object; empty for any other document.
pub uninterp spec fn json_keys(v: Value) -> Set<Seq<char>>;

/// The strings of `v` that lie under `key`, by the rest of their path.
pub open spec fn json_texts_below(v: Value, key: Seq<char>) -> Map<Seq<Seq<char>>, Seq<char>> {
    Map::new(
        |p: Seq<Seq<char>>| json_texts(v).contains_key(seq![key] + p),
        |p: Seq<Seq<char>>| json_texts(v)[seq![key] + p],
    )
}

/// The string of `v` at `path`, if there is one.
pub open spec fn json_text_at(v: Value, path: Seq<Seq<char>>) -> Option<Seq<char>> {
    if json_texts(v).contains_key(path) {
        Some(json_texts(v)[path])
    } else {
        None
    }
}

/// The characters of an optional string slice.
pub open spec fn slice_text(t: Option<&str>) -> Option<Seq<char>> {
    match t {
        Some(s) => Some(s@),
        None => None,
    }
}

/// `serde_json::Value::get` with a string key. It returns the member of that name
/// where the document is an object that has one, and nothing otherwise; the
/// strings of the member are those that the document holds under the key.
#[verifier::external_body]
pub(crate) fn member<'a>(v: &'a Value, key: &str) -> (r: Option<&'a Value>)
    ensures
        r is Some <==> json_keys(*v).contains(key@),
        json_texts_below(*v, key@) == match r {
            Some(m) => json_texts(*m),
            None => Map::empty(),
        },
{
    v.get(key)
}

/// `serde_json::Value::as_str`. It returns the string where the document is one,
/// which is the string held under the empty path, and nothing otherwise.
#[verifier::external_body]
pub(crate) fn text<'a>(v: &'a Value) -> (r: Option<&'a str>)
    ensures
        slice_text(r) == json_text_at(*v, Seq::empty()),
{
    v.as_str()
}

/// A string found under one key adds that key in front of its path.
pub proof fn lemma_text_below(v: Value, key: Seq<char>, path: Seq<Seq<char>>)
    ensures
        json_texts_below(v, key).contains_key(path) == json_texts(v).contains_key(seq![key] + path),
        json_texts_below(v, key).contains_key(path) ==> json_texts_below(v, key)[path]
            == json_texts(v)[seq![key] + path],
{
}

} // verus!
