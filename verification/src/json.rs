//! JSON documents, as far as profile responses are read from them.
use serde_json::Value;
use vstd::prelude::*;

verus! {

/// `serde_json::Value`, a JSON document.
#[verifier::external_type_specification]
#[verifier::external_body]
pub struct ExValue(Value);

/// The members of a JSON object: for each key the text of its value, or `None` if the value
/// is not a string. A document that is not an object has no members.
pub uninterp spec fn json_members(document: Value) -> Map<Seq<char>, Option<Seq<char>>>;

/// Looks a key up among members: `None` if it is not there, `Some(None)` if its value is not
/// a string.
pub open spec fn lookup(
    members: Map<Seq<char>, Option<Seq<char>>>,
    key: Seq<char>,
) -> Option<Option<Seq<char>>> {
    if members.dom().contains(key) {
        Some(members[key])
    } else {
        None
    }
}

/// What parsing a text as JSON gives: the document, or the complaint about the text.
pub uninterp spec fn json_parse(text: Seq<char>) -> Result<Value, Seq<char>>;

/// `serde_json::from_str`, to a `Value`: whether a text is JSON, and what it holds, depends
/// on the text alone. Of an error the message is kept.
#[verifier::external_body]
pub(crate) fn parse(text: &str) -> (parsed: Result<Value, String>)
    ensures
        match parsed {
            Ok(document) => json_parse(text@) == Ok::<_, Seq<char>>(document),
            Err(complaint) => json_parse(text@) == Err::<Value, _>(complaint@),
        },
{
    match serde_json::from_str::<Value>(text) {
        Ok(document) => Ok(document),
        Err(error) => Err(error.to_string()),
    }
}

/// `Value::get` with a key, and `Value::as_str` on what it finds: `None` if there is no such
/// member, `Some(None)` if the member is not a string.
#[verifier::external_body]
pub(crate) fn member(document: &Value, key: &str) -> (found: Option<Option<String>>)
    ensures
        match found {
            None => lookup(json_members(*document), key@) is None,
            Some(None) => lookup(json_members(*document), key@) == Some(None::<Seq<char>>),
            Some(Some(text)) => lookup(json_members(*document), key@) == Some(Some(text@)),
        },
{
    match document.get(key) {
        None => None,
        Some(value) => match value.as_str() {
            None => Some(None),
            Some(text) => Some(Some(text.to_owned())),
        },
    }
}

/// A key is found exactly if it is among the members, and then with the member's own value.
pub proof fn only_members_are_found(
    members: Map<Seq<char>, Option<Seq<char>>>,
    key: Seq<char>,
    value: Option<Seq<char>>,
)
    ensures
        lookup(members, key) is None <==> !members.dom().contains(key),
        lookup(members, key) == Some(value) <==> members.contains_pair(key, value),
        lookup(members.insert(key, value), key) == Some(value),
        lookup(members.remove(key), key) is None,
{
}

} // verus!
