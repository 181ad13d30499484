//! JSON documents, one level at a time.
//!
//! A document is parsed by `serde_json` into a `JsonNode`: its top-level
//! value, with the members of an array or object kept as their own JSON text.
//! Walking into a member parses that text in turn, so every step of a path
//! such as `choices[0].message.content` is a parse of plain text.
use vstd::prelude::*;
use serde_json::Value;

verus! {

/// The top level of a parsed JSON document.
#[derive(Debug)]
pub enum JsonNode {
    Null,
    Bool(bool),
    /// A number, as serde_json prints it.
    Number(String),
    Str(String),
    /// The members of an array, each as JSON text.
    Array(Vec<String>),
    /// The entries of an object (key, member as JSON text).
    Object(Vec<(String, String)>),
}

/// The mathematical view of a `JsonNode`.
pub enum JsonView {
    Null,
    Bool(bool),
    Number(Seq<char>),
    Str(Seq<char>),
    Array(Seq<Seq<char>>),
    Object(Seq<(Seq<char>, Seq<char>)>),
}

impl View for JsonNode {
    type V = JsonView;

    open spec fn view(&self) -> JsonView {
        match self {
            JsonNode::Null => JsonView::Null,
            JsonNode::Bool(b) => JsonView::Bool(*b),
            JsonNode::Number(n) => JsonView::Number(n@),
            JsonNode::Str(s) => JsonView::Str(s@),
            JsonNode::Array(items) => JsonView::Array(items@.map_values(|s: String| s@)),
            JsonNode::Object(entries) => JsonView::Object(
                entries@.map_values(|e: (String, String)| (e.0@, e.1@)),
            ),
        }
    }
}

/// An optional string, by its view.
pub open spec fn opt_view(o: Option<String>) -> Option<Seq<char>> {
    match o {
        Some(s) => Some(s@),
        None => None,
    }
}

/// A parse result, by its view.
pub open spec fn parse_view(r: Result<JsonNode, String>) -> Result<JsonView, Seq<char>> {
    match r {
        Ok(n) => Ok(n@),
        Err(e) => Err(e@),
    }
}

/// What `serde_json::from_str::<serde_json::Value>` makes of `text`: the
/// top-level value (members as their compact JSON text), or the error's message.
pub uninterp spec fn json_parse_result(text: Seq<char>) -> Result<JsonView, Seq<char>>;

/// Calls `serde_json::from_str::<serde_json::Value>` and converts the value's
/// top level to a `JsonNode`: numbers and members are printed with
/// `Display` (compact JSON), an error becomes its `Display` message.  The
/// result is named by `json_parse_result`; of it the contract states only that
/// an object's keys are distinct (serde_json keeps objects in a map).
#[verifier::external_body]
pub fn parse_json(text: &str) -> (r: Result<JsonNode, String>)
    ensures
        parse_view(r) == json_parse_result(text@),
        r matches Ok(JsonNode::Object(es)) ==> forall|i: int, j: int|
            0 <= i < j < es@.len() ==> es@[i].0@ != es@[j].0@,
{
    match serde_json::from_str::<Value>(text) {
        Err(e) => Err(e.to_string()),
        Ok(Value::Null) => Ok(JsonNode::Null),
        Ok(Value::Bool(b)) => Ok(JsonNode::Bool(b)),
        Ok(Value::Number(n)) => Ok(JsonNode::Number(n.to_string())),
        Ok(Value::String(s)) => Ok(JsonNode::Str(s)),
        Ok(Value::Array(a)) => Ok(JsonNode::Array(a.iter().map(Value::to_string).collect())),
        Ok(Value::Object(m)) => Ok(
            JsonNode::Object(m.keys().cloned().zip(m.values().map(Value::to_string)).collect()),
        ),
    }
}

/// The member text of the first entry with key `key`.
pub open spec fn lookup(es: Seq<(Seq<char>, Seq<char>)>, key: Seq<char>) -> Option<Seq<char>>
    decreases es.len(),
{
    if es.len() == 0 {
        None
    } else if es[0].0 == key {
        Some(es[0].1)
    } else {
        lookup(es.drop_first(), key)
    }
}

/// `value.get(key)` on a parse result: the member `key` of an object, as JSON text.
pub open spec fn parsed_field(p: Result<JsonView, Seq<char>>, key: Seq<char>) -> Option<Seq<char>> {
    match p {
        Ok(JsonView::Object(es)) => lookup(es, key),
        _ => None,
    }
}

/// `value.get(i)` on a parse result: the `i`-th member of an array, as JSON text.
pub open spec fn parsed_item(p: Result<JsonView, Seq<char>>, i: int) -> Option<Seq<char>> {
    match p {
        Ok(JsonView::Array(items)) => if 0 <= i < items.len() {
            Some(items[i])
        } else {
            None
        },
        _ => None,
    }
}

/// `value.as_array()` on a parse result: the members of an array.
pub open spec fn parsed_items(p: Result<JsonView, Seq<char>>) -> Option<Seq<Seq<char>>> {
    match p {
        Ok(JsonView::Array(items)) => Some(items),
        _ => None,
    }
}

/// `value.as_str()` on a parse result: the string of a string value.
pub open spec fn parsed_str(p: Result<JsonView, Seq<char>>) -> Option<Seq<char>> {
    match p {
        Ok(JsonView::Str(s)) => Some(s),
        _ => None,
    }
}

/// `value.get(key)`: the member `key` of an object document, as JSON text.
pub open spec fn json_field(doc: Seq<char>, key: Seq<char>) -> Option<Seq<char>> {
    parsed_field(json_parse_result(doc), key)
}

/// `value.get(i)`: the `i`-th member of an array document, as JSON text.
pub open spec fn json_item(doc: Seq<char>, i: int) -> Option<Seq<char>> {
    parsed_item(json_parse_result(doc), i)
}

/// `value.as_array()`: the members of an array document.
pub open spec fn json_items(doc: Seq<char>) -> Option<Seq<Seq<char>>> {
    parsed_items(json_parse_result(doc))
}

/// `value.as_str()`: the string of a string document.
pub open spec fn json_str(doc: Seq<char>) -> Option<Seq<char>> {
    parsed_str(json_parse_result(doc))
}

/// `json_field` followed by `json_str`, with `None` for a missing document.
pub open spec fn field_str(doc: Option<Seq<char>>, key: Seq<char>) -> Option<Seq<char>> {
    match doc {
        Some(d) => match json_field(d, key) {
            Some(m) => json_str(m),
            None => None,
        },
        None => None,
    }
}

/// `json_field` on an optional document.
pub open spec fn field_of_opt(doc: Option<Seq<char>>, key: Seq<char>) -> Option<Seq<char>> {
    match doc {
        Some(d) => json_field(d, key),
        None => None,
    }
}

/// `json_item` on an optional document.
pub open spec fn item_of_opt(doc: Option<Seq<char>>, i: int) -> Option<Seq<char>> {
    match doc {
        Some(d) => json_item(d, i),
        None => None,
    }
}

/// `json_str` on an optional document.
pub open spec fn str_of_opt(doc: Option<Seq<char>>) -> Option<Seq<char>> {
    match doc {
        Some(d) => json_str(d),
        None => None,
    }
}

/// The member text of the first entry with key `key`.
pub fn lookup_member(es: &Vec<(String, String)>, key: &str) -> (r: Option<String>)
    ensures
        opt_view(r) == lookup(es@.map_values(|e: (String, String)| (e.0@, e.1@)), key@),
{
    let k = String::from_str(key);
    let ghost ev = es@.map_values(|e: (String, String)| (e.0@, e.1@));
    let mut i: usize = 0;
    assert(ev.subrange(0, ev.len() as int) =~= ev);
    while i < es.len()
        invariant
            i <= es.len(),
            ev == es@.map_values(|e: (String, String)| (e.0@, e.1@)),
            k@ == key@,
            lookup(ev, key@) == lookup(ev.subrange(i as int, ev.len() as int), key@),
        decreases es.len() - i,
    {
        assert(ev.subrange(i as int, ev.len() as int).drop_first() =~= ev.subrange(
            i + 1,
            ev.len() as int,
        ));
        assert(ev[i as int] == (es@[i as int].0@, es@[i as int].1@));
        assert(ev.subrange(i as int, ev.len() as int)[0] == ev[i as int]);
        if es[i].0 == k {
            let r = es[i].1.clone();
            assert(lookup(ev.subrange(i as int, ev.len() as int), key@) == Some(r@));
            return Some(r);
        }
        i = i + 1;
    }
    None
}

/// The member `key` of a parsed object, as JSON text.
pub fn field_of_parsed(parsed: &Result<JsonNode, String>, key: &str) -> (r: Option<String>)
    ensures
        opt_view(r) == parsed_field(parse_view(*parsed), key@),
{
    match parsed {
        Ok(JsonNode::Object(es)) => lookup_member(es, key),
        _ => None,
    }
}

/// The `i`-th member of a parsed array, as JSON text.
pub fn item_of_parsed(parsed: &Result<JsonNode, String>, i: usize) -> (r: Option<String>)
    ensures
        opt_view(r) == parsed_item(parse_view(*parsed), i as int),
{
    match parsed {
        Ok(JsonNode::Array(items)) => {
            if i < items.len() {
                Some(items[i].clone())
            } else {
                None
            }
        },
        _ => None,
    }
}

/// The members of a parsed array, as JSON texts.
pub fn items_of_parsed(parsed: Result<JsonNode, String>) -> (r: Option<Vec<String>>)
    ensures
        match r {
            Some(v) => parsed_items(parse_view(parsed)) == Some(v@.map_values(|s: String| s@)),
            None => parsed_items(parse_view(parsed)) is None,
        },
{
    match parsed {
        Ok(JsonNode::Array(items)) => Some(items),
        _ => None,
    }
}

/// The string of a parsed string value.
pub fn str_of_parsed(parsed: Result<JsonNode, String>) -> (r: Option<String>)
    ensures
        opt_view(r) == parsed_str(parse_view(parsed)),
{
    match parsed {
        Ok(JsonNode::Str(s)) => Some(s),
        _ => None,
    }
}

/// The member `key` of the object document `doc`, as JSON text.
pub fn field_of(doc: &str, key: &str) -> (r: Option<String>)
    ensures
        opt_view(r) == json_field(doc@, key@),
{
    field_of_parsed(&parse_json(doc), key)
}

/// The `i`-th member of the array document `doc`, as JSON text.
pub fn item_of(doc: &str, i: usize) -> (r: Option<String>)
    ensures
        opt_view(r) == json_item(doc@, i as int),
{
    item_of_parsed(&parse_json(doc), i)
}

/// The members of the array document `doc`, as JSON texts.
pub fn items_of(doc: &str) -> (r: Option<Vec<String>>)
    ensures
        match r {
            Some(v) => json_items(doc@) == Some(v@.map_values(|s: String| s@)),
            None => json_items(doc@) is None,
        },
{
    items_of_parsed(parse_json(doc))
}

/// The string of the string document `doc`.
pub fn str_of(doc: &str) -> (r: Option<String>)
    ensures
        opt_view(r) == json_str(doc@),
{
    str_of_parsed(parse_json(doc))
}

/// The string member `key` of the object document `doc`.
pub fn str_field_of(doc: &str, key: &str) -> (r: Option<String>)
    ensures
        opt_view(r) == field_str(Some(doc@), key@),
{
    match field_of(doc, key) {
        Some(m) => str_of(m.as_str()),
        None => None,
    }
}

} // verus!
