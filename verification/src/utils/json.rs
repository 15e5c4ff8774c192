//! JSON documents as trees of plain values, and the extension manifest read
//! from such a tree.

use crate::error::Failure;
use crate::error::ProcessError;
use vstd::prelude::*;
use vstd::string::*;

verus! {

/// `serde_json::Value`: what the parser hands out, before it is turned into a
/// [`JsonValue`]. Verified code never holds one.
#[verifier::external_type_specification]
#[verifier::external_body]
pub struct ExValue(serde_json::Value);

/// A JSON document as a tree of plain values. A number is kept as the text
/// that stands for it; the members of an object are kept as a list of names
/// and values, in the order in which the parser hands them out.
#[derive(Debug, PartialEq, Eq)]
pub enum JsonValue {
    Null,
    Bool(bool),
    Number(String),
    Text(String),
    Array(Vec<JsonValue>),
    Object(Vec<(String, JsonValue)>),
}

/// The mathematical content of a [`JsonValue`].
pub enum JsonTree {
    Null,
    Bool(bool),
    Number(Seq<char>),
    Text(Seq<char>),
    Array(Seq<JsonTree>),
    Object(Seq<(Seq<char>, JsonTree)>),
}

impl View for JsonValue {
    type V = JsonTree;

    open spec fn view(&self) -> JsonTree
        decreases self,
    {
        match self {
            JsonValue::Null => JsonTree::Null,
            JsonValue::Bool(b) => JsonTree::Bool(*b),
            JsonValue::Number(n) => JsonTree::Number(n@),
            JsonValue::Text(s) => JsonTree::Text(s@),
            JsonValue::Array(items) => JsonTree::Array(
                Seq::new(
                    items@.len(),
                    |i: int|
                        if 0 <= i < items@.len() {
                            items@[i].view()
                        } else {
                            JsonTree::Null
                        },
                ),
            ),
            JsonValue::Object(members) => JsonTree::Object(
                Seq::new(
                    members@.len(),
                    |i: int|
                        if 0 <= i < members@.len() {
                            (members@[i].0@, members@[i].1.view())
                        } else {
                            (Seq::empty(), JsonTree::Null)
                        },
                ),
            ),
        }
    }
}

/// The tree that `serde_json::from_str` reads from `text`, `None` where it
/// refuses the text.
pub uninterp spec fn json_document(text: Seq<char>) -> Option<JsonTree>;

/// One `serde_json::Value` as a [`JsonValue`], variant by variant: a number
/// as the text `serde_json` prints for it, the members of an object in the
/// order in which its map hands them out.
#[verifier::external_body]
fn lift_json(value: serde_json::Value) -> JsonValue {
    match value {
        serde_json::Value::Null => JsonValue::Null,
        serde_json::Value::Bool(b) => JsonValue::Bool(b),
        serde_json::Value::Number(n) => JsonValue::Number(n.to_string()),
        serde_json::Value::String(s) => JsonValue::Text(s),
        serde_json::Value::Array(a) => JsonValue::Array(a.into_iter().map(lift_json).collect()),
        serde_json::Value::Object(m) => JsonValue::Object(
            m.into_iter().map(|(k, v)| (k, lift_json(v))).collect(),
        ),
    }
}

/// `serde_json::from_str`, read as a `serde_json::Value`: the document that
/// `text` holds, or the error with which the parser refuses it.
#[verifier::external_body]
fn parse_json(text: &str) -> (r: Result<JsonValue, serde_json::Error>)
    ensures
        match r {
            Ok(doc) => json_document(text@) == Some(doc@),
            Err(_) => json_document(text@) is None,
        },
{
    serde_json::from_str::<serde_json::Value>(text).map(lift_json)
}

/// The value of the first member of `tree` named `key`, where `tree` is an
/// object that has one.
pub open spec fn member(tree: JsonTree, key: Seq<char>) -> Option<JsonTree> {
    match tree {
        JsonTree::Object(members) => member_from(members, key, 0),
        _ => None,
    }
}

/// The value of the first of `members` at or after `from` that is named `key`.
pub open spec fn member_from(
    members: Seq<(Seq<char>, JsonTree)>,
    key: Seq<char>,
    from: int,
) -> Option<JsonTree>
    decreases members.len() - from,
{
    if from < 0 || from >= members.len() {
        None
    } else if members[from].0 == key {
        Some(members[from].1)
    } else {
        member_from(members, key, from + 1)
    }
}

/// The strings among `items`, in order; what is no string is passed over.
pub open spec fn strings_of(items: Seq<JsonTree>) -> Seq<Seq<char>>
    decreases items.len(),
{
    if items.len() == 0 {
        Seq::empty()
    } else {
        match items.last() {
            JsonTree::Text(s) => strings_of(items.drop_last()).push(s),
            _ => strings_of(items.drop_last()),
        }
    }
}

/// The extension identifiers that the manifest `tree` lists: the strings of
/// the array under `recommendations`. `None` where the document has no such
/// member or it is no array.
pub open spec fn extension_ids(tree: JsonTree) -> Option<Seq<Seq<char>>> {
    match member(tree, "recommendations"@) {
        Some(JsonTree::Array(items)) => Some(strings_of(items)),
        _ => None,
    }
}

/// What reading the manifest comes to, for a document that parsed.
pub open spec fn manifest_of(tree: JsonTree) -> Result<Seq<Seq<char>>, Failure> {
    match extension_ids(tree) {
        Some(ids) => Ok(ids),
        None => Err(Failure::Configuration { message: "Invalid extensions.json format"@ }),
    }
}

impl JsonValue {
    /// The value of the member named `key`, where this is an object that has
    /// one.
    pub fn get(&self, key: &str) -> (found: Option<&JsonValue>)
        ensures
            match found {
                Some(v) => member(self@, key@) == Some(v@),
                None => member(self@, key@) is None,
            },
    {
        match self {
            JsonValue::Object(members) => {
                let name = key.to_string();
                let ghost list = member_trees(members@);
                assert(self@ == JsonTree::Object(list)) by {
                    assert(self@->Object_0 =~= list);
                }
                let mut at: usize = 0;
                while at < members.len()
                    invariant
                        at <= members.len(),
                        name@ == key@,
                        list == member_trees(members@),
                        self@ == JsonTree::Object(list),
                        member_from(list, key@, 0) == member_from(list, key@, at as int),
                    decreases members.len() - at,
                {
                    assert(list[at as int] == (members@[at as int].0@, members@[at as int].1@));
                    if members[at].0 == name {
                        return Some(&members[at].1);
                    }
                    at += 1;
                }
                None
            },
            _ => None,
        }
    }

    /// The items, where this is an array.
    pub fn as_array(&self) -> (items: Option<&Vec<JsonValue>>)
        ensures
            match items {
                Some(list) => self@ == JsonTree::Array(trees(list@)),
                None => !(self@ is Array),
            },
    {
        match self {
            JsonValue::Array(list) => {
                assert(self@->Array_0 =~= trees(list@));
                Some(list)
            },
            _ => None,
        }
    }

    /// The text, where this is a string.
    pub fn as_str(&self) -> (text: Option<&str>)
        ensures
            match text {
                Some(s) => self@ == JsonTree::Text(s@),
                None => !(self@ is Text),
            },
    {
        match self {
            JsonValue::Text(s) => Some(s.as_str()),
            _ => None,
        }
    }
}

/// The members of an object, each as its name and the tree of its value.
pub open spec fn member_trees(members: Seq<(String, JsonValue)>) -> Seq<(Seq<char>, JsonTree)> {
    Seq::new(members.len(), |i: int| (members[i].0@, members[i].1@))
}

/// The trees of `items`, in order.
pub open spec fn trees(items: Seq<JsonValue>) -> Seq<JsonTree> {
    Seq::new(items.len(), |i: int| items[i]@)
}

/// Reads the list of extension identifiers out of a parsed manifest: the
/// strings of the array under `recommendations`, in the order of the document.
/// A document without that member, or with something other than an array under
/// it, is a configuration error.
pub fn recommended_extensions(doc: &JsonValue) -> (r: Result<Vec<String>, ProcessError>)
    ensures
        match r {
            Ok(ids) => manifest_of(doc@) == Ok::<Seq<Seq<char>>, Failure>(
                crate::utils::cmd_builder::texts(ids@),
            ),
            Err(e) => manifest_of(doc@) == Err::<Seq<Seq<char>>, Failure>(e@),
        },
{
    let items = match doc.get("recommendations") {
        Some(field) => field.as_array(),
        None => None,
    };
    match items {
        None => Err(
            ProcessError::Configuration { message: "Invalid extensions.json format".to_string() },
        ),
        Some(list) => {
            let mut ids: Vec<String> = Vec::new();
            let mut at: usize = 0;
            assert(trees(list@).take(0) =~= Seq::empty());
            assert(crate::utils::cmd_builder::texts(ids@) =~= Seq::empty());
            while at < list.len()
                invariant
                    at <= list.len(),
                    crate::utils::cmd_builder::texts(ids@) == strings_of(
                        trees(list@).take(at as int),
                    ),
                decreases list.len() - at,
            {
                let ghost before = ids@;
                proof {
                    let head = trees(list@).take(at + 1);
                    assert(head.drop_last() == trees(list@).take(at as int));
                    assert(head.last() == list@[at as int]@);
                }
                match list[at].as_str() {
                    Some(id) => {
                        ids.push(id.to_string());
                        assert(crate::utils::cmd_builder::texts(ids@)
                            =~= crate::utils::cmd_builder::texts(before).push(id@));
                    },
                    None => {},
                }
                at += 1;
            }
            assert(trees(list@).take(list@.len() as int) == trees(list@));
            Ok(ids)
        },
    }
}

/// Parses the extension manifest `text` and reads its list of extension
/// identifiers. Text that is no JSON document is a [`ProcessError::Json`];
/// for a document, see [`recommended_extensions`].
pub fn parse_extensions(text: &str) -> (r: Result<Vec<String>, ProcessError>)
    ensures
        match json_document(text@) {
            Some(tree) => match r {
                Ok(ids) => manifest_of(tree) == Ok::<Seq<Seq<char>>, Failure>(
                    crate::utils::cmd_builder::texts(ids@),
                ),
                Err(e) => manifest_of(tree) == Err::<Seq<Seq<char>>, Failure>(e@),
            },
            None => r matches Err(e) && e@ is Json,
        },
{
    match parse_json(text) {
        Ok(doc) => recommended_extensions(&doc),
        Err(e) => Err(ProcessError::Json(e)),
    }
}

} // verus!
