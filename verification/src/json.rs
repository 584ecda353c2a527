//! JSON documents as trees.
//!
//! The grammar of JSON is left to `serde_json`; what this module holds is the
//! tree that comes out of it, in a form that the rest of the library can read
//! and reason about.

use vstd::prelude::*;

verus! {

/// A JSON value.
///
/// A number keeps its value only where it is an unsigned integer of at most
/// 64 bits, which is all that a report's schema asks of a number; every other
/// number is `Number(None)`. The members of an object are held in the order in
/// which the parser hands them out.
#[derive(Debug, PartialEq, Eq)]
pub enum Json {
    Null,
    Bool(bool),
    Number(Option<u64>),
    Text(String),
    Array(Vec<Json>),
    Object(Vec<(String, Json)>),
}

/// The mathematical tree that a [`Json`] value stands for.
pub ghost enum JsonTree {
    Null,
    Bool(bool),
    Number(Option<u64>),
    Text(Seq<char>),
    Array(Seq<JsonTree>),
    Object(Seq<(Seq<char>, JsonTree)>),
}

/// The tree of a value, by recursion on the value.
pub open spec fn tree_of(value: Json) -> JsonTree
    decreases value,
{
    match value {
        Json::Null => JsonTree::Null,
        Json::Bool(b) => JsonTree::Bool(b),
        Json::Number(n) => JsonTree::Number(n),
        Json::Text(s) => JsonTree::Text(s@),
        Json::Array(items) => JsonTree::Array(
            Seq::new(
                items.len() as nat,
                |i: int|
                    if 0 <= i < items.len() {
                        tree_of(items[i])
                    } else {
                        JsonTree::Null
                    },
            ),
        ),
        Json::Object(members) => JsonTree::Object(
            Seq::new(
                members.len() as nat,
                |i: int|
                    if 0 <= i < members.len() {
                        (members[i].0@, tree_of(members[i].1))
                    } else {
                        (Seq::empty(), JsonTree::Null)
                    },
            ),
        ),
    }
}

impl View for Json {
    type V = JsonTree;

    open spec fn view(&self) -> JsonTree {
        tree_of(*self)
    }
}

/// The value of the first member named `key` among `members[from..]`.
pub open spec fn member_from(
    members: Seq<(Seq<char>, JsonTree)>,
    key: Seq<char>,
    from: int,
) -> Option<JsonTree>
    decreases members.len() - from,
{
    if from < 0 || from >= members.len() {
        None
    } else if members[from].0 == key {
        Some(members[from].1)
    } else {
        member_from(members, key, from + 1)
    }
}

/// The value of the first member of an object that is named `key`.
pub open spec fn member(members: Seq<(Seq<char>, JsonTree)>, key: Seq<char>) -> Option<JsonTree> {
    member_from(members, key, 0)
}

/// The value that a member lookup yields once `null` is read as absence.
pub open spec fn present(found: Option<JsonTree>) -> Option<JsonTree> {
    match found {
        Some(JsonTree::Null) => None,
        other => other,
    }
}

impl Json {
    /// The text of a JSON string, and nothing for any other value.
    pub fn as_text(&self) -> (r: Option<&String>)
        ensures
            match self@ {
                JsonTree::Text(s) => r matches Some(t) && t@ == s,
                _ => r is None,
            },
    {
        match self {
            Json::Text(t) => Some(t),
            _ => None,
        }
    }

    /// The value of a number that is an unsigned integer of at most 64 bits.
    pub fn as_unsigned(&self) -> (r: Option<u64>)
        ensures
            r == match self@ {
                JsonTree::Number(n) => n,
                _ => None,
            },
    {
        match self {
            Json::Number(n) => *n,
            _ => None,
        }
    }

    /// The items of an array, in order.
    pub fn as_items(&self) -> (r: Option<&Vec<Json>>)
        ensures
            match self@ {
                JsonTree::Array(items) => r matches Some(v) && items_view(v@) == items,
                _ => r is None,
            },
    {
        match self {
            Json::Array(items) => {
                assert(items_view(items@) =~= self@->Array_0);
                Some(items)
            },
            _ => None,
        }
    }

    /// The members of an object, in order.
    pub fn as_members(&self) -> (r: Option<&Vec<(String, Json)>>)
        ensures
            match self@ {
                JsonTree::Object(members) => r matches Some(v) && members_view(v@) == members,
                _ => r is None,
            },
    {
        match self {
            Json::Object(members) => {
                assert(members_view(members@) =~= self@->Object_0);
                Some(members)
            },
            _ => None,
        }
    }

    /// Whether this is the value `null`.
    pub fn is_null(&self) -> (r: bool)
        ensures
            r == (self@ is Null),
    {
        match self {
            Json::Null => true,
            _ => false,
        }
    }
}

/// The items of an array as the tree holds them.
pub open spec fn items_view(items: Seq<Json>) -> Seq<JsonTree> {
    Seq::new(items.len(), |i: int| items[i]@)
}

/// The members of an object as the tree holds them.
pub open spec fn members_view(members: Seq<(String, Json)>) -> Seq<(Seq<char>, JsonTree)> {
    Seq::new(members.len(), |i: int| (members[i].0@, members[i].1@))
}

/// Looks a member up by name. Where a name occurs more than once, the first
/// occurrence is the one that counts.
pub fn find_member<'a>(members: &'a Vec<(String, Json)>, key: &str) -> (r: Option<&'a Json>)
    ensures
        match member(members_view(members@), key@) {
            Some(tree) => r matches Some(v) && v@ == tree,
            None => r is None,
        },
{
    let wanted = key.to_owned();
    let ghost tree = members_view(members@);
    let mut i: usize = 0;
    while i < members.len()
        invariant
            i <= members.len(),
            wanted@ == key@,
            tree == members_view(members@),
            member_from(tree, key@, i as int) == member(tree, key@),
        decreases members.len() - i,
    {
        if members[i].0 == wanted {
            return Some(&members[i].1);
        }
        i += 1;
    }
    None
}

/// Looks a member up by name and reads `null` as absence.
pub fn find_present<'a>(members: &'a Vec<(String, Json)>, key: &str) -> (r: Option<&'a Json>)
    ensures
        match present(member(members_view(members@), key@)) {
            Some(tree) => r matches Some(v) && v@ == tree,
            None => r is None,
        },
{
    match find_member(members, key) {
        Some(value) => {
            if value.is_null() {
                None
            } else {
                Some(value)
            }
        },
        None => None,
    }
}

/// `serde_json::Value`, of which nothing is known here but what
/// [`value_tree`] names.
#[verifier::external_type_specification]
#[verifier::external_body]
pub struct ExValue(serde_json::Value);

/// The tree that a `serde_json::Value` holds.
pub uninterp spec fn value_tree(value: serde_json::Value) -> JsonTree;

/// What `serde_json` makes of a text: the tree of the one JSON value that the
/// text spells out, or the parser's message where it does not spell one.
pub uninterp spec fn json_document(text: Seq<char>) -> Result<JsonTree, Seq<char>>;

/// Calls `serde_json::from_str` for a `serde_json::Value`. The parser reads
/// the whole text, fails on anything that is not exactly one JSON value, and
/// depends on nothing but the text; its error is handed on as the message it
/// displays.
#[verifier::external_body]
fn value_from_text(text: &str) -> (r: Result<serde_json::Value, String>)
    ensures
        match r {
            Ok(value) => json_document(text@) == Ok::<JsonTree, Seq<char>>(value_tree(value)),
            Err(message) => json_document(text@) == Err::<JsonTree, Seq<char>>(message@),
        },
{
    serde_json::from_str::<serde_json::Value>(text).map_err(|e| e.to_string())
}

/// Takes a `serde_json::Value` apart, variant by variant, into a [`Json`] of
/// the same shape. A number goes through `serde_json::Number::as_u64`.
#[verifier::external_body]
fn json_from_value(value: serde_json::Value) -> (r: Json)
    ensures
        r@ == value_tree(value),
{
    match value {
        serde_json::Value::Null => Json::Null,
        serde_json::Value::Bool(b) => Json::Bool(b),
        serde_json::Value::Number(n) => Json::Number(n.as_u64()),
        serde_json::Value::String(s) => Json::Text(s),
        serde_json::Value::Array(items) => Json::Array(
            items.into_iter().map(json_from_value).collect(),
        ),
        serde_json::Value::Object(members) => Json::Object(
            members.into_iter().map(|(k, v)| (k, json_from_value(v))).collect(),
        ),
    }
}

/// Reads a text as one JSON document.
pub fn parse_document(text: &str) -> (r: Result<Json, String>)
    ensures
        match r {
            Ok(document) => json_document(text@) == Ok::<JsonTree, Seq<char>>(document@),
            Err(message) => json_document(text@) == Err::<JsonTree, Seq<char>>(message@),
        },
{
    match value_from_text(text) {
        Ok(value) => Ok(json_from_value(value)),
        Err(message) => Err(message),
    }
}

} // verus!
