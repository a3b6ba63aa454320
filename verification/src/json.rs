//! JSON documents as plain values, read and written by `serde_json`.

use crate::error::{ErrorView, OkCoinClientError};
use vstd::prelude::*;
use vstd::string::StringExecFns;

verus! {

/// A JSON document. Objects keep their members in the order in which the
/// parser hands them out.
#[derive(Debug)]
pub enum Json {
    Null,
    Bool(bool),
    /// A number, by the text that stands for it.
    Number(String),
    Text(String),
    Array(Vec<Json>),
    Object(Vec<Member>),
}

/// One member of an object: a name and the value under it.
#[derive(Debug)]
pub struct Member {
    pub name: String,
    pub value: Json,
}

/// The mathematical value of a [`Json`] document.
pub enum JsonTree {
    Null,
    Bool(bool),
    Number(Seq<char>),
    Text(Seq<char>),
    Array(Seq<JsonTree>),
    Object(Seq<(Seq<char>, JsonTree)>),
}

/// The value that a document stands for.
pub open spec fn tree_of(doc: Json) -> JsonTree
    decreases doc,
{
    match doc {
        Json::Null => JsonTree::Null,
        Json::Bool(b) => JsonTree::Bool(b),
        Json::Number(n) => JsonTree::Number(n@),
        Json::Text(t) => JsonTree::Text(t@),
        Json::Array(items) => JsonTree::Array(
            Seq::new(
                items@.len(),
                |i: int|
                    if 0 <= i < items@.len() {
                        tree_of(items@[i])
                    } else {
                        JsonTree::Null
                    },
            ),
        ),
        Json::Object(members) => JsonTree::Object(
            Seq::new(
                members@.len(),
                |i: int|
                    if 0 <= i < members@.len() {
                        (members@[i].name@, tree_of(members@[i].value))
                    } else {
                        (Seq::<char>::empty(), JsonTree::Null)
                    },
            ),
        ),
    }
}

impl View for Json {
    type V = JsonTree;

    open spec fn view(&self) -> JsonTree {
        tree_of(*self)
    }
}

/// The values of a run of documents, one for one.
pub open spec fn trees(items: Seq<Json>) -> Seq<JsonTree> {
    Seq::new(items.len(), |i: int| items[i]@)
}

/// The member of `members` that comes first under the name `name`.
pub open spec fn first_member(members: Seq<(Seq<char>, JsonTree)>, name: Seq<char>) -> Option<
    JsonTree,
>
    decreases members.len(),
{
    if members.len() == 0 {
        None
    } else if members[0].0 == name {
        Some(members[0].1)
    } else {
        first_member(members.drop_first(), name)
    }
}

impl JsonTree {
    /// The value under `name` if this is an object that has such a member.
    pub open spec fn member(self, name: Seq<char>) -> Option<JsonTree> {
        match self {
            JsonTree::Object(members) => first_member(members, name),
            _ => None,
        }
    }

    /// The characters of this value if it is a string.
    pub open spec fn text(self) -> Option<Seq<char>> {
        match self {
            JsonTree::Text(t) => Some(t),
            _ => None,
        }
    }

    /// The elements of this value if it is an array.
    pub open spec fn items(self) -> Option<Seq<JsonTree>> {
        match self {
            JsonTree::Array(items) => Some(items),
            _ => None,
        }
    }
}

/// Skipping members that do not carry the name does not change what is found.
proof fn lemma_first_member_skip(members: Seq<(Seq<char>, JsonTree)>, name: Seq<char>, k: int)
    requires
        0 <= k <= members.len(),
        forall|j: int| 0 <= j < k ==> members[j].0 != name,
    ensures
        first_member(members, name) == first_member(members.skip(k), name),
    decreases k,
{
    if k == 0 {
        assert(members.skip(0) =~= members);
    } else {
        lemma_first_member_skip(members, name, k - 1);
        let rest = members.skip(k - 1);
        assert(rest[0] == members[k - 1]);
        assert(rest.drop_first() =~= members.skip(k));
    }
}

impl Json {
    /// Looks up a member of an object by name.
    pub fn member(&self, name: &str) -> (found: Option<&Json>)
        ensures
            match found {
                Some(value) => self@.member(name@) == Some(value@),
                None => self@.member(name@) is None,
            },
    {
        match self {
            Json::Object(members) => {
                let key = String::from_str(name);
                let mut i: usize = 0;
                while i < members.len()
                    invariant
                        i <= members.len(),
                        key@ == name@,
                        self@ matches JsonTree::Object(m) && m.len() == members.len()
                            && (forall|j: int|
                            0 <= j < m.len() ==> m[j] == (members[j].name@, members[j].value@)),
                        forall|j: int| 0 <= j < i ==> members[j].name@ != name@,
                    decreases members.len() - i,
                {
                    if members[i].name == key {
                        proof {
                            let m = self@->Object_0;
                            lemma_first_member_skip(m, name@, i as int);
                            assert(m.skip(i as int)[0] == m[i as int]);
                        }
                        return Some(&members[i].value);
                    }
                    i += 1;
                }
                proof {
                    let m = self@->Object_0;
                    lemma_first_member_skip(m, name@, m.len() as int);
                }
                None
            },
            _ => None,
        }
    }

    /// The text of a string value.
    pub fn as_text(&self) -> (found: Option<&String>)
        ensures
            match found {
                Some(t) => self@.text() == Some(t@),
                None => self@.text() is None,
            },
    {
        match self {
            Json::Text(t) => Some(t),
            _ => None,
        }
    }

    /// The elements of an array value.
    pub fn as_array(&self) -> (found: Option<&Vec<Json>>)
        ensures
            match found {
                Some(items) => self@.items() == Some(trees(items@)),
                None => self@.items() is None,
            },
    {
        match self {
            Json::Array(items) => {
                assert(self@->Array_0 =~= trees(items@));
                Some(items)
            },
            _ => None,
        }
    }
}

/// `serde_json::Error`, carried from the parser to the caller that maps it.
#[verifier::external_type_specification]
#[verifier::external_body]
pub struct ExJsonError(serde_json::Error);

/// `serde_json::Value`, the parser's own document type.
#[verifier::external_type_specification]
#[verifier::external_body]
pub struct ExJsonValue(serde_json::Value);

/// What a `serde_json::Value` holds: its variant, and under it the flag, the
/// number's printed text, the string, the elements in order, or the members
/// in the order in which the value's map hands them out.
pub uninterp spec fn value_tree(value: serde_json::Value) -> JsonTree;

/// What `serde_json::from_str` reads from a text: the document that it
/// returns, or `None` where it rejects the text.
pub uninterp spec fn json_document(text: Seq<char>) -> Option<JsonTree>;

/// The text that `serde_json::to_string` writes for the object into which
/// the given values are inserted under the given names, in the given order.
pub uninterp spec fn json_object_text(members: Seq<(Seq<char>, JsonTree)>) -> Seq<char>;

/// The names of a run of members and what their values hold.
pub open spec fn member_trees(members: Seq<(String, serde_json::Value)>) -> Seq<
    (Seq<char>, JsonTree),
> {
    Seq::new(members.len(), |i: int| (members[i].0@, value_tree(members[i].1)))
}

/// Whether a value is a string or a number.
pub open spec fn is_scalar(tree: JsonTree) -> bool {
    tree is Text || tree is Number
}

/// `serde_json::from_str` at the type `serde_json::Value`: the parser's
/// answer depends on the text alone, so a text that is accepted always gives
/// the same document and a text that is rejected is always rejected.
#[verifier::external_body]
pub(crate) fn parse_value(text: &str) -> (parsed: Result<serde_json::Value, serde_json::Error>)
    ensures
        match parsed {
            Ok(value) => json_document(text@) == Some(value_tree(value)),
            Err(_) => json_document(text@) is None,
        },
{
    serde_json::from_str::<serde_json::Value>(text)
}

/// Copies a `serde_json::Value` into a [`Json`], variant for variant; a number
/// is kept as the text that `serde_json::Number` prints for it. The copy
/// holds what the value holds.
#[verifier::external_body]
fn json_of_value(value: serde_json::Value) -> (doc: Json)
    ensures
        doc@ == value_tree(value),
{
    match value {
        serde_json::Value::Null => Json::Null,
        serde_json::Value::Bool(b) => Json::Bool(b),
        serde_json::Value::Number(n) => Json::Number(n.to_string()),
        serde_json::Value::String(t) => Json::Text(t),
        serde_json::Value::Array(items) => Json::Array(
            items.into_iter().map(json_of_value).collect(),
        ),
        serde_json::Value::Object(members) => Json::Object(
            members.into_iter().map(|(name, v)| Member { name, value: json_of_value(v) }).collect(),
        ),
    }
}

/// `serde_json::Value::is_number`: whether the value is of the variant
/// `Number`.
#[verifier::external_body]
pub(crate) fn value_is_number(value: &serde_json::Value) -> (number: bool)
    ensures
        number == (value_tree(*value) is Number),
{
    value.is_number()
}

/// `serde_json::Value::String`: the value that holds the given string.
#[verifier::external_body]
pub(crate) fn text_value(text: String) -> (value: serde_json::Value)
    ensures
        value_tree(value) == JsonTree::Text(text@),
{
    serde_json::Value::String(text)
}

/// `serde_json::to_string` on an object whose values are strings and
/// numbers. Writing such an object into memory cannot fail: its keys are
/// strings and neither kind of value has a failing path. The text depends on
/// the members alone.
#[verifier::external_body]
pub(crate) fn render_object(members: Vec<(String, serde_json::Value)>) -> (rendered: Result<
    String,
    serde_json::Error,
>)
    requires
        forall|i: int| 0 <= i < members@.len() ==> is_scalar(value_tree(#[trigger] members@[i].1)),
    ensures
        rendered is Ok,
        rendered matches Ok(text) ==> text@ == json_object_text(member_trees(members@)),
{
    let mut object = serde_json::Map::new();
    for (name, value) in members {
        object.insert(name, value);
    }
    serde_json::to_string(&serde_json::Value::Object(object))
}

/// Reads a JSON document from a text. A text that is no JSON is a
/// `Serialization` failure.
pub fn parse_json(text: &str) -> (parsed: Result<Json, OkCoinClientError>)
    ensures
        match parsed {
            Ok(doc) => json_document(text@) == Some(doc@),
            Err(e) => json_document(text@) is None && e@ == ErrorView::Serialization,
        },
{
    match parse_value(text) {
        Ok(value) => Ok(json_of_value(value)),
        Err(_) => Err(OkCoinClientError::Serialization),
    }
}

} // verus!
