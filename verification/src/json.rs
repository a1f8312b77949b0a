//! JSON documents as trees of plain values.
//!
//! Reading JSON text is left to `serde_json`. What it reads is copied into
//! a tree of the library's own, and everything else works on that tree.

use crate::lists::{lemma_position_is, position};
use vstd::prelude::*;

verus! {

/// Makes `serde_json::Value` known as a type. Nothing is said of what a
/// value of it holds but through [`value_tree`].
#[verifier::external_type_specification]
#[verifier::external_body]
pub struct ExValue(serde_json::Value);

/// What `serde_json::from_str` reads from a text as a `serde_json::Value`;
/// `None` where it reads none.
pub uninterp spec fn parsed_json(text: Seq<char>) -> Option<Tree>;

/// What a `serde_json::Value` holds.
pub uninterp spec fn value_tree(value: serde_json::Value) -> Tree;

/// Calls `serde_json::from_str` for a `serde_json::Value`.
#[verifier::external_body]
fn parse_value(text: &str) -> (value: Option<serde_json::Value>)
    ensures
        match value {
            Some(value) => parsed_json(text@) == Some(value_tree(value)),
            None => parsed_json(text@) is None,
        },
{
    serde_json::from_str::<serde_json::Value>(text).ok()
}

/// Copies a `serde_json::Value` into a tree, variant by variant. A number
/// is kept as what `serde_json::Number::as_u64` and `as_i64` give for it;
/// the members of an object are kept in the order of its `iter`.
#[verifier::external_body]
fn from_value(value: &serde_json::Value) -> (json: Json)
    ensures
        json@ == value_tree(*value),
{
    match value {
        serde_json::Value::Null => Json::Null,
        serde_json::Value::Bool(b) => Json::Bool(*b),
        serde_json::Value::Number(n) => Json::Number(
            JsonNumber { unsigned: n.as_u64(), signed: n.as_i64() },
        ),
        serde_json::Value::String(s) => Json::Text(s.clone()),
        serde_json::Value::Array(items) => Json::Array(items.iter().map(from_value).collect()),
        serde_json::Value::Object(members) => Json::Object(
            members.iter().map(|(k, v)| (k.clone(), from_value(v))).collect(),
        ),
    }
}

/// What a JSON number is when read as an integer: as an unsigned one, and
/// as a signed one, each where it is one and fits.
#[derive(Clone, Copy, Debug, PartialEq, Eq, Structural)]
pub struct JsonNumber {
    pub unsigned: Option<u64>,
    pub signed: Option<i64>,
}

/// A JSON document. The members of an object stand in the order in which
/// the object hands them out.
pub enum Json {
    Null,
    Bool(bool),
    Number(JsonNumber),
    Text(String),
    Array(Vec<Json>),
    Object(Vec<(String, Json)>),
}

/// What a [`Json`] says, as mathematical values.
pub enum Tree {
    Null,
    Bool(bool),
    Number(JsonNumber),
    Text(Seq<char>),
    Array(Seq<Tree>),
    Object(Seq<(Seq<char>, Tree)>),
}

impl View for Json {
    type V = Tree;

    open spec fn view(&self) -> Tree {
        tree_of(*self)
    }
}

/// What a document says.
pub open spec fn tree_of(json: Json) -> Tree
    decreases json,
{
    match json {
        Json::Null => Tree::Null,
        Json::Bool(value) => Tree::Bool(value),
        Json::Number(number) => Tree::Number(number),
        Json::Text(text) => Tree::Text(text@),
        Json::Array(items) => Tree::Array(trees(items@)),
        Json::Object(members) => Tree::Object(named_trees(members@)),
    }
}

/// What the documents of a list say, one by one.
pub open spec fn trees(items: Seq<Json>) -> Seq<Tree>
    decreases items,
{
    if items.len() == 0 {
        Seq::empty()
    } else {
        trees(items.drop_last()).push(tree_of(items.last()))
    }
}

/// What named documents say, one by one, each under its name.
pub open spec fn named_trees(members: Seq<(String, Json)>) -> Seq<(Seq<char>, Tree)>
    decreases members,
{
    if members.len() == 0 {
        Seq::empty()
    } else {
        named_trees(members.drop_last()).push((members.last().0@, tree_of(members.last().1)))
    }
}

/// A list of documents says what each of them says, place by place.
pub proof fn lemma_trees(items: Seq<Json>)
    ensures
        trees(items).len() == items.len(),
        forall|i: int| 0 <= i < items.len() ==> (#[trigger] trees(items)[i]) == items[i]@,
    decreases items.len(),
{
    if items.len() > 0 {
        lemma_trees(items.drop_last());
    }
}

/// Named documents say what each of them says, place by place, each under
/// its name.
pub proof fn lemma_named_trees(members: Seq<(String, Json)>)
    ensures
        named_trees(members).len() == members.len(),
        forall|i: int|
            0 <= i < members.len() ==> (#[trigger] named_trees(members)[i]) == (
                members[i].0@,
                members[i].1@,
            ),
    decreases members.len(),
{
    if members.len() > 0 {
        lemma_named_trees(members.drop_last());
    }
}

/// The keys of the members of an object, member by member.
pub open spec fn keys(members: Seq<(Seq<char>, Tree)>) -> Seq<Seq<char>> {
    members.map_values(|member: (Seq<char>, Tree)| member.0)
}

impl Tree {
    /// The first member of an object under a key; `None` for an object
    /// without one and for what is no object.
    pub open spec fn member(self, key: Seq<char>) -> Option<Tree> {
        match self {
            Tree::Object(members) => {
                let at = position(keys(members), key);
                if at < members.len() {
                    Some(members[at].1)
                } else {
                    None
                }
            },
            _ => None,
        }
    }

    /// The characters of a text; `None` for what is none.
    pub open spec fn text(self) -> Option<Seq<char>> {
        match self {
            Tree::Text(text) => Some(text),
            _ => None,
        }
    }

    /// A number as an unsigned integer; `None` for a number that is none
    /// and for what is no number.
    pub open spec fn unsigned(self) -> Option<u64> {
        match self {
            Tree::Number(number) => number.unsigned,
            _ => None,
        }
    }

    /// A number as a signed integer; `None` for a number that is none and
    /// for what is no number.
    pub open spec fn signed(self) -> Option<i64> {
        match self {
            Tree::Number(number) => number.signed,
            _ => None,
        }
    }

    /// The value of a boolean; `None` for what is none.
    pub open spec fn boolean(self) -> Option<bool> {
        match self {
            Tree::Bool(value) => Some(value),
            _ => None,
        }
    }

    /// The items of an array; `None` for what is none.
    pub open spec fn items(self) -> Option<Seq<Tree>> {
        match self {
            Tree::Array(items) => Some(items),
            _ => None,
        }
    }

    /// The members of an object; `None` for what is none.
    pub open spec fn members(self) -> Option<Seq<(Seq<char>, Tree)>> {
        match self {
            Tree::Object(members) => Some(members),
            _ => None,
        }
    }

    /// The text under a key of an object; `None` where there is none.
    pub open spec fn text_at(self, key: Seq<char>) -> Option<Seq<char>> {
        match self.member(key) {
            Some(member) => member.text(),
            None => None,
        }
    }
}

impl Json {
    /// Reads a JSON text. What is read is what `serde_json` reads;
    /// `None` for a text that it does not take.
    pub fn parse(text: &str) -> (json: Option<Json>)
        ensures
            json is Some == parsed_json(text@) is Some,
            json is Some ==> json->0@ == parsed_json(text@)->0,
    {
        match parse_value(text) {
            Some(value) => Some(from_value(&value)),
            None => None,
        }
    }

    /// The first member of an object under a key.
    pub fn get(&self, key: &str) -> (found: Option<&Json>)
        ensures
            found is Some == self@.member(key@) is Some,
            found is Some ==> found->0@ == self@.member(key@)->0,
    {
        match self {
            Json::Object(members) => {
                let ghost names = keys(self@->Object_0);
                let name = key.to_owned();
                let mut at: usize = 0;
                proof {
                    lemma_named_trees(members@);
                }
                while at < members.len() && members[at].0 != name
                    invariant
                        at <= members@.len(),
                        self@ is Object,
                        names == keys(self@->Object_0),
                        names.len() == members@.len(),
                        forall|j: int| 0 <= j < members@.len() ==> names[j] == members@[j].0@,
                        name@ == key@,
                        forall|j: int| 0 <= j < at ==> names[j] != key@,
                    decreases members@.len() - at,
                {
                    at = at + 1;
                }
                proof {
                    lemma_position_is(names, key@, at as int);
                }
                if at < members.len() {
                    Some(&members[at].1)
                } else {
                    None
                }
            },
            _ => None,
        }
    }

    /// The characters of a text.
    pub fn as_str(&self) -> (text: Option<&str>)
        ensures
            text is Some == self@.text() is Some,
            text is Some ==> text->0@ == self@.text()->0,
    {
        match self {
            Json::Text(text) => Some(text.as_str()),
            _ => None,
        }
    }

    /// A number as an unsigned integer.
    pub fn as_u64(&self) -> (value: Option<u64>)
        ensures
            value == self@.unsigned(),
    {
        match self {
            Json::Number(number) => number.unsigned,
            _ => None,
        }
    }

    /// A number as a signed integer.
    pub fn as_i64(&self) -> (value: Option<i64>)
        ensures
            value == self@.signed(),
    {
        match self {
            Json::Number(number) => number.signed,
            _ => None,
        }
    }

    /// The value of a boolean.
    pub fn as_bool(&self) -> (value: Option<bool>)
        ensures
            value == self@.boolean(),
    {
        match self {
            Json::Bool(value) => Some(*value),
            _ => None,
        }
    }

    /// The items of an array.
    pub fn as_array(&self) -> (items: Option<&Vec<Json>>)
        ensures
            items is Some == self@.items() is Some,
            items is Some ==> trees(items->0@) == self@.items()->0,
    {
        match self {
            Json::Array(items) => {
                Some(items)
            },
            _ => None,
        }
    }

    /// The members of an object, in the order the object hands them out.
    pub fn as_object(&self) -> (members: Option<&Vec<(String, Json)>>)
        ensures
            members is Some == self@.members() is Some,
            members is Some ==> named_trees(members->0@) == self@.members()->0,
    {
        match self {
            Json::Object(members) => {
                Some(members)
            },
            _ => None,
        }
    }
}

} // verus!
