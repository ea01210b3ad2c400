//! JSON documents as plain data, and the parser that reads them.
//!
//! Reading JSON is the work of `serde_json`. What is taken on trust of it is
//! little: `read` calls its parser, `open` tells the variants of one of its
//! values apart, `numeral` writes one of its numbers, `members` lists one of
//! its maps, and an error of it tells its line and its column. What they
//! return is named by `document`, `held`, `numeral_of`, `members_of`,
//! `reported_line` and `reported_column`; everything else here is proved
//! from what they promise.

use vstd::prelude::*;

verus! {

/// A JSON value.
#[derive(Debug, PartialEq, Eq)]
pub enum Json {
    Null,
    Bool(bool),
    /// A number, held as the numeral that writes it: integers as an optional
    /// minus sign and digits, anything else with a fraction or an exponent.
    Number(String),
    Text(String),
    Array(Vec<Json>),
    /// The members of an object with their keys, in the order they are held
    /// in.
    Object(Vec<(String, Json)>),
}

/// A JSON value as a mathematical tree.
pub enum JsonView {
    Null,
    Bool(bool),
    Number(Seq<char>),
    Text(Seq<char>),
    Array(Seq<JsonView>),
    Object(Seq<(Seq<char>, JsonView)>),
}

/// The tree of a value.
pub open spec fn json_view(json: Json) -> JsonView
    decreases json,
{
    match json {
        Json::Null => JsonView::Null,
        Json::Bool(flag) => JsonView::Bool(flag),
        Json::Number(numeral) => JsonView::Number(numeral@),
        Json::Text(text) => JsonView::Text(text@),
        Json::Array(items) => JsonView::Array(
            Seq::new(
                items@.len(),
                |i: int|
                    if 0 <= i < items@.len() {
                        json_view(items@[i])
                    } else {
                        JsonView::Null
                    },
            ),
        ),
        Json::Object(members) => JsonView::Object(
            Seq::new(
                members@.len(),
                |i: int|
                    if 0 <= i < members@.len() {
                        (members@[i].0@, json_view(members@[i].1))
                    } else {
                        (Seq::empty(), JsonView::Null)
                    },
            ),
        ),
    }
}

impl View for Json {
    type V = JsonView;

    open spec fn view(&self) -> JsonView {
        json_view(*self)
    }
}

/// The trees of a list of values.
pub open spec fn items_view(items: Seq<Json>) -> Seq<JsonView> {
    Seq::new(items.len(), |i: int| items[i]@)
}

/// The keys of a list of members, each with the tree of its value.
pub open spec fn members_view(members: Seq<(String, Json)>) -> Seq<(Seq<char>, JsonView)> {
    Seq::new(members.len(), |i: int| (members[i].0@, members[i].1@))
}

/// The tree of a list is the list of the trees of its items.
pub proof fn lemma_array_view(items: Vec<Json>)
    ensures
        Json::Array(items)@ == JsonView::Array(items_view(items@)),
{
    assert(Json::Array(items)@->Array_0 =~= items_view(items@));
}

/// The tree of an object holds the keys of its members, each with the tree of
/// its value.
pub proof fn lemma_object_view(members: Vec<(String, Json)>)
    ensures
        Json::Object(members)@ == JsonView::Object(members_view(members@)),
{
    assert(Json::Object(members)@->Object_0 =~= members_view(members@));
}

/// Where in a text the JSON parser gave up. Lines and columns count from one.
#[derive(Debug, Clone, Copy, PartialEq, Eq)]
pub struct SyntaxError {
    pub line: usize,
    pub column: usize,
}

/// `serde_json::Value`, of which nothing is known here but what `open` tells.
#[verifier::external_type_specification]
#[verifier::external_body]
pub struct ExValue(serde_json::Value);

/// `serde_json::Number`, of which nothing is known here but what `numeral`
/// tells.
#[verifier::external_type_specification]
#[verifier::external_body]
pub struct ExNumber(serde_json::Number);

/// `serde_json::Map`, of which nothing is known here but what `members`
/// tells.
#[verifier::external_type_specification]
#[verifier::external_body]
#[verifier::reject_recursive_types(K)]
#[verifier::reject_recursive_types(V)]
pub struct ExMap<K, V>(serde_json::Map<K, V>);

/// `serde_json::Error`, of which nothing is known here but its line and its
/// column.
#[verifier::external_type_specification]
#[verifier::external_body]
pub struct ExError(serde_json::Error);

/// What `serde_json::from_str` makes of a text: the tree of the document it
/// reads, or the place where it gives up.
pub uninterp spec fn document(text: Seq<char>) -> Result<JsonView, SyntaxError>;

/// The tree that a `serde_json::Value` holds.
pub uninterp spec fn held(value: serde_json::Value) -> JsonView;

/// The numeral that `to_string` writes for a `serde_json::Number`.
pub uninterp spec fn numeral_of(number: serde_json::Number) -> Seq<char>;

/// The keys of a `serde_json::Map`, each with the tree that its value holds,
/// in the order in which `into_iter` hands the entries out.
pub uninterp spec fn members_of(map: serde_json::Map<String, serde_json::Value>) -> Seq<
    (Seq<char>, JsonView),
>;

/// The line that a `serde_json::Error` reports.
pub uninterp spec fn reported_line(error: serde_json::Error) -> usize;

/// The column that a `serde_json::Error` reports.
pub uninterp spec fn reported_column(error: serde_json::Error) -> usize;

/// `line` of a `serde_json::Error` gives the line that the error reports.
pub assume_specification[ serde_json::Error::line ](error: &serde_json::Error) -> (line: usize)
    ensures
        line == reported_line(*error),
;

/// `column` of a `serde_json::Error` gives the column that the error
/// reports.
pub assume_specification[ serde_json::Error::column ](error: &serde_json::Error) -> (column: usize)
    ensures
        column == reported_column(*error),
;

/// The top of a `serde_json::Value`, with what is inside it still closed.
enum Node {
    Null,
    Bool(bool),
    Number(serde_json::Number),
    Text(String),
    Array(Vec<serde_json::Value>),
    Object(serde_json::Map<String, serde_json::Value>),
}

impl Node {
    /// Whether this is the top of `tree`: of the same kind, with the same
    /// flag, number, text or members, or with as many values inside, each
    /// holding the part of the tree at its place.
    spec fn tops(self, tree: JsonView) -> bool {
        match self {
            Node::Null => tree == JsonView::Null,
            Node::Bool(flag) => tree == JsonView::Bool(flag),
            Node::Number(number) => tree == JsonView::Number(numeral_of(number)),
            Node::Text(text) => tree == JsonView::Text(text@),
            Node::Array(items) => {
                &&& tree is Array
                &&& tree->Array_0.len() == items@.len()
                &&& forall|i: int|
                    0 <= i < items@.len() ==> tree->Array_0[i] == held(#[trigger] items@[i])
            },
            Node::Object(map) => tree == JsonView::Object(members_of(map)),
        }
    }
}

/// Calls `serde_json::from_str` for a `serde_json::Value`. The parser reads
/// the whole text or fails, and what it returns depends on the text alone:
/// `document` is the name of that result.
#[verifier::external_body]
fn read(text: &str) -> (r: Result<serde_json::Value, serde_json::Error>)
    ensures
        match r {
            Ok(value) => document(text@) == Ok::<JsonView, SyntaxError>(held(value)),
            Err(error) => document(text@) == Err::<JsonView, SyntaxError>(
                SyntaxError { line: reported_line(error), column: reported_column(error) },
            ),
        },
{
    serde_json::from_str::<serde_json::Value>(text)
}

/// Tells the variants of a `serde_json::Value` apart and hands out what each
/// holds, as it is. `held` is the name of the tree that a value holds.
#[verifier::external_body]
fn open(value: serde_json::Value) -> (node: Node)
    ensures
        node.tops(held(value)),
{
    match value {
        serde_json::Value::Null => Node::Null,
        serde_json::Value::Bool(flag) => Node::Bool(flag),
        serde_json::Value::Number(number) => Node::Number(number),
        serde_json::Value::String(text) => Node::Text(text),
        serde_json::Value::Array(items) => Node::Array(items),
        serde_json::Value::Object(map) => Node::Object(map),
    }
}

/// Calls `to_string` of a `serde_json::Number`, which writes the number as a
/// numeral.
#[verifier::external_body]
fn numeral(number: serde_json::Number) -> (text: String)
    ensures
        text@ == numeral_of(number),
{
    number.to_string()
}

/// Calls `into_iter` of a `serde_json::Map` and collects the entries in the
/// order in which they come.
#[verifier::external_body]
fn members(map: serde_json::Map<String, serde_json::Value>) -> (list: Vec<
    (String, serde_json::Value),
>)
    ensures
        list@.len() == members_of(map).len(),
        forall|i: int|
            0 <= i < list@.len() ==> members_of(map)[i] == (
                (#[trigger] list@[i]).0@,
                held(list@[i].1),
            ),
{
    map.into_iter().collect()
}

/// Turns a list around.
fn reversed<T>(items: Vec<T>) -> (turned: Vec<T>)
    ensures
        turned@ == items@.reverse(),
{
    let mut rest = items;
    let mut turned: Vec<T> = Vec::new();
    while rest.len() > 0
        invariant
            rest.len() <= items.len(),
            rest@ == items@.take(rest.len() as int),
            turned.len() == items.len() - rest.len(),
            forall|i: int| 0 <= i < turned.len() ==> turned[i] == items[items.len() - 1 - i],
        decreases rest.len(),
    {
        let last = rest.pop().unwrap();
        assert(rest@ =~= items@.take(rest.len() as int));
        turned.push(last);
    }
    assert(turned@ =~= items@.reverse());
    turned
}

/// Copies what a `serde_json::Value` holds into a [`Json`].
fn tree(value: serde_json::Value) -> (json: Json)
    ensures
        json@ == held(value),
    decreases held(value),
{
    let ghost whole = held(value);
    match open(value) {
        Node::Null => Json::Null,
        Node::Bool(flag) => Json::Bool(flag),
        Node::Number(number) => Json::Number(numeral(number)),
        Node::Text(text) => Json::Text(text),
        Node::Array(items) => {
            let ghost inner = items@;
            let mut rest = items;
            let mut built: Vec<Json> = Vec::new();
            while rest.len() > 0
                invariant
                    whole == held(value),
                    whole is Array,
                    whole->Array_0.len() == inner.len(),
                    forall|i: int|
                        0 <= i < inner.len() ==> whole->Array_0[i] == held(#[trigger] inner[i]),
                    rest.len() <= inner.len(),
                    rest@ == inner.take(rest.len() as int),
                    built.len() == inner.len() - rest.len(),
                    forall|i: int|
                        0 <= i < built.len() ==> built[i]@ == whole->Array_0[inner.len() - 1 - i],
                decreases rest.len(),
            {
                let last = rest.pop().unwrap();
                assert(rest@ =~= inner.take(rest.len() as int));
                assert(last == inner[rest.len() as int]);
                assert(decreases_to!(whole => whole->Array_0[rest.len() as int]));
                built.push(tree(last));
            }
            let items = reversed(built);
            proof {
                lemma_array_view(items);
                assert(items_view(items@) =~= whole->Array_0);
            }
            Json::Array(items)
        },
        Node::Object(map) => {
            let mut rest = members(map);
            let ghost inner = rest@;
            let mut built: Vec<(String, Json)> = Vec::new();
            while rest.len() > 0
                invariant
                    whole == held(value),
                    whole is Object,
                    whole->Object_0.len() == inner.len(),
                    forall|i: int|
                        0 <= i < inner.len() ==> whole->Object_0[i] == (
                            (#[trigger] inner[i]).0@,
                            held(inner[i].1),
                        ),
                    rest.len() <= inner.len(),
                    rest@ == inner.take(rest.len() as int),
                    built.len() == inner.len() - rest.len(),
                    forall|i: int|
                        0 <= i < built.len() ==> (built[i].0@, built[i].1@)
                            == whole->Object_0[inner.len() - 1 - i],
                decreases rest.len(),
            {
                let last = rest.pop().unwrap();
                assert(rest@ =~= inner.take(rest.len() as int));
                assert(last == inner[rest.len() as int]);
                assert(decreases_to!(whole => whole->Object_0[rest.len() as int].1));
                let (key, inside) = last;
                built.push((key, tree(inside)));
            }
            let members = reversed(built);
            proof {
                lemma_object_view(members);
                assert(members_view(members@) =~= whole->Object_0);
            }
            Json::Object(members)
        },
    }
}

impl Json {
    /// Reads a JSON document.
    pub fn parse(text: &str) -> (r: Result<Json, SyntaxError>)
        ensures
            match r {
                Ok(json) => document(text@) == Ok::<JsonView, SyntaxError>(json@),
                Err(at) => document(text@) == Err::<JsonView, SyntaxError>(at),
            },
    {
        match read(text) {
            Ok(value) => Ok(tree(value)),
            Err(error) => Err(SyntaxError { line: error.line(), column: error.column() }),
        }
    }
}

} // verus!
