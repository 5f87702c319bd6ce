//! JSON values as the library reads them.

use vstd::prelude::*;

verus! {

/// Declares `serde_json::Value`, of which nothing is known but what
/// [`value_tree`] names.
#[verifier::external_type_specification]
#[verifier::external_body]
pub struct ExValue(serde_json::Value);

/// A JSON value.
#[derive(PartialEq, Eq, Hash, Debug)]
pub enum Json {
    Null,
    Bool(bool),
    /// A whole number.
    Int(i128),
    /// A number that is not whole, as its decimal text.
    Real(String),
    Text(String),
    Array(Vec<Json>),
    /// The members of an object, each with its key.
    Object(Vec<Member>),
}

/// A member of an object.
#[derive(PartialEq, Eq, Hash, Debug)]
pub struct Member {
    pub key: String,
    pub value: Json,
}

/// A member of an object as plain values.
pub struct MemberTree {
    pub key: Seq<char>,
    pub value: JsonTree,
}

/// A JSON value as plain values.
pub enum JsonTree {
    Null,
    Bool(bool),
    Int(int),
    Real(Seq<char>),
    Text(Seq<char>),
    Array(Seq<JsonTree>),
    Object(Seq<MemberTree>),
}

impl View for Json {
    type V = JsonTree;

    open spec fn view(&self) -> JsonTree
        decreases self,
    {
        match self {
            Json::Null => JsonTree::Null,
            Json::Bool(b) => JsonTree::Bool(*b),
            Json::Int(i) => JsonTree::Int(*i as int),
            Json::Real(t) => JsonTree::Real(t@),
            Json::Text(t) => JsonTree::Text(t@),
            Json::Array(items) => JsonTree::Array(
                Seq::new(
                    items@.len(),
                    |i: int|
                        if 0 <= i < items@.len() {
                            items@[i]@
                        } else {
                            JsonTree::Null
                        },
                ),
            ),
            Json::Object(members) => JsonTree::Object(
                Seq::new(
                    members@.len(),
                    |i: int|
                        if 0 <= i < members@.len() {
                            MemberTree { key: members@[i].key@, value: members@[i].value@ }
                        } else {
                            MemberTree { key: Seq::empty(), value: JsonTree::Null }
                        },
                ),
            ),
        }
    }
}

/// What a `serde_json::Value` holds: the variant, and what the variant
/// holds in turn. A number stands as [`JsonTree::Int`] where
/// `Number::as_i128` gives one, else as [`JsonTree::Real`] with the text
/// that the number prints as; the members of an object stand in the order
/// of their keys.
pub uninterp spec fn value_tree(value: serde_json::Value) -> JsonTree;

/// The value that `serde_json::from_str` reads from a text, where it reads
/// one.
pub uninterp spec fn text_tree(text: Seq<char>) -> Option<JsonTree>;

/// Why a text is not JSON: what the parser said, and where it stopped.
#[derive(Clone, PartialEq, Eq, Hash, Debug)]
pub struct SyntaxReport {
    pub message: String,
    pub line: usize,
    pub column: usize,
}

/// The outermost layer of a `serde_json::Value`.
pub enum Shape<'a> {
    Null,
    Bool(bool),
    Int(i128),
    Real(String),
    Text(&'a str),
    Array(&'a Vec<serde_json::Value>),
    Object(Vec<(&'a String, &'a serde_json::Value)>),
}

/// The tree of each value of a list.
pub open spec fn item_trees(items: Seq<serde_json::Value>) -> Seq<JsonTree> {
    Seq::new(items.len(), |i: int| value_tree(items[i]))
}

/// The key and the tree of each member of a list.
pub open spec fn member_trees(members: Seq<(&String, &serde_json::Value)>) -> Seq<MemberTree> {
    Seq::new(
        members.len(),
        |i: int| MemberTree { key: members[i].0@, value: value_tree(*members[i].1) },
    )
}

/// The tree that a value with the outermost layer `shape` holds.
pub open spec fn shape_tree(shape: Shape) -> JsonTree {
    match shape {
        Shape::Null => JsonTree::Null,
        Shape::Bool(b) => JsonTree::Bool(b),
        Shape::Int(i) => JsonTree::Int(i as int),
        Shape::Real(t) => JsonTree::Real(t@),
        Shape::Text(t) => JsonTree::Text(t@),
        Shape::Array(items) => JsonTree::Array(item_trees(items@)),
        Shape::Object(members) => JsonTree::Object(member_trees(members@)),
    }
}

/// Calls `serde_json::from_str` for a `serde_json::Value`. Nothing is
/// claimed of what is read but that the text decides it: the value that
/// comes back holds what [`text_tree`] names, and an error comes back where
/// it names nothing. The error is handed on as its message, its line and its
/// column.
#[verifier::external_body]
fn read_value(text: &str) -> (r: Result<serde_json::Value, SyntaxReport>)
    ensures
        match r {
            Ok(value) => text_tree(text@) == Some(value_tree(value)),
            Err(_) => text_tree(text@).is_none(),
        },
{
    match serde_json::from_str::<serde_json::Value>(text) {
        Ok(value) => Ok(value),
        Err(e) => Err(SyntaxReport { message: e.to_string(), line: e.line(), column: e.column() }),
    }
}

/// Tells the variants of a `serde_json::Value` apart and hands out what the
/// variant holds: a whole number through `Number::as_i128`, any other number
/// as the text that `Number` prints, the items of an array as they are, the
/// members of an object in the order of `Map::iter`. What comes back is the
/// outermost layer of what [`value_tree`] names.
#[verifier::external_body]
fn shape_of<'a>(value: &'a serde_json::Value) -> (shape: Shape<'a>)
    ensures
        shape_tree(shape) == value_tree(*value),
{
    match value {
        serde_json::Value::Null => Shape::Null,
        serde_json::Value::Bool(b) => Shape::Bool(*b),
        serde_json::Value::Number(n) => match n.as_i128() {
            Some(i) => Shape::Int(i),
            None => Shape::Real(n.to_string()),
        },
        serde_json::Value::String(t) => Shape::Text(t),
        serde_json::Value::Array(items) => Shape::Array(items),
        serde_json::Value::Object(members) => Shape::Object(members.iter().collect()),
    }
}

impl Json {
    /// Copies a `serde_json::Value` into a value of the library.
    fn from_value(value: &serde_json::Value) -> (json: Json)
        ensures
            json@ == value_tree(*value),
        decreases value_tree(*value),
    {
        match shape_of(value) {
            Shape::Null => Json::Null,
            Shape::Bool(b) => Json::Bool(b),
            Shape::Int(i) => Json::Int(i),
            Shape::Real(t) => Json::Real(t),
            Shape::Text(t) => Json::Text(String::from_str(t)),
            Shape::Array(items) => {
                let mut out: Vec<Json> = Vec::new();
                let mut i: usize = 0;
                while i < items.len()
                    invariant
                        i <= items.len(),
                        out.len() == i,
                        value_tree(*value) == JsonTree::Array(item_trees(items@)),
                        forall|j: int| 0 <= j < i ==> out@[j]@ == value_tree(items@[j]),
                    decreases items.len() - i,
                {
                    proof {
                        let tree = value_tree(*value);
                        let trees = tree->Array_0;
                        assert(trees[i as int] == value_tree(items@[i as int]));
                        assert(decreases_to!(tree => trees));
                        assert(decreases_to!(trees => trees[i as int]));
                    }
                    let item = Json::from_value(&items[i]);
                    out.push(item);
                    i = i + 1;
                }
                let json = Json::Array(out);
                assert(json@->Array_0 =~= item_trees(items@));
                json
            },
            Shape::Object(members) => {
                let mut out: Vec<Member> = Vec::new();
                let mut i: usize = 0;
                while i < members.len()
                    invariant
                        i <= members.len(),
                        out.len() == i,
                        value_tree(*value) == JsonTree::Object(member_trees(members@)),
                        forall|j: int|
                            0 <= j < i ==> out@[j].key@ == members@[j].0@ && out@[j].value@
                                == value_tree(*members@[j].1),
                    decreases members.len() - i,
                {
                    proof {
                        let tree = value_tree(*value);
                        let trees = tree->Object_0;
                        assert(trees[i as int].value == value_tree(*members@[i as int].1));
                        assert(decreases_to!(tree => trees));
                        assert(decreases_to!(trees => trees[i as int]));
                        assert(decreases_to!(trees[i as int] => trees[i as int].value));
                    }
                    let key = members[i].0.clone();
                    let value = Json::from_value(members[i].1);
                    out.push(Member { key, value });
                    i = i + 1;
                }
                let json = Json::Object(out);
                assert(json@->Object_0 =~= member_trees(members@));
                json
            },
        }
    }

    /// Reads a JSON text.
    pub fn parse(text: &str) -> (r: Result<Json, SyntaxReport>)
        ensures
            match r {
                Ok(json) => text_tree(text@) == Some(json@),
                Err(_) => text_tree(text@).is_none(),
            },
    {
        match read_value(text) {
            Ok(value) => Ok(Json::from_value(&value)),
            Err(report) => Err(report),
        }
    }
}

} // verus!
