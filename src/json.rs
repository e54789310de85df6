//! JSON documents, read one level at a time.
//!
//! Parsing and building go through `serde_json`; what the library reads of a
//! document is its top-level shape, `json_node`, whose children are again
//! documents.
use serde_json::Value;
use vstd::prelude::*;

verus! {

/// `serde_json::Value`, a parsed JSON document; the library sees it only through
/// `json_node`.
#[verifier::external_type_specification]
#[verifier::external_body]
pub struct ExValue(serde_json::Value);

/// `serde_json::Error`, why a text is not JSON.
#[verifier::external_type_specification]
#[verifier::external_body]
pub struct ExJsonError(serde_json::Error);

/// The top level of a JSON document, as the library reasons about it.
pub enum JsonNodeView {
    Null,
    Bool(bool),
    /// A number, with its value where it is an integer that fits `i64`.
    Number(Option<i64>),
    Str(Seq<char>),
    Array(Seq<Value>),
    Object(Map<Seq<char>, Value>),
}

/// What a document holds at its top level.
pub uninterp spec fn json_node(v: Value) -> JsonNodeView;

/// The document that a text parses to, if it is valid JSON.
pub uninterp spec fn json_document(text: Seq<char>) -> Option<Value>;

/// The top level of a document, with its children as documents.
pub enum JsonNode {
    Null,
    Bool(bool),
    Number(Option<i64>),
    Str(String),
    Array(Vec<Value>),
    Object(Vec<(String, Value)>),
}

/// Every entry of `entries` is in `m` and `m` holds nothing else.
pub open spec fn entries_match(entries: Seq<(String, Value)>, m: Map<Seq<char>, Value>) -> bool {
    &&& forall|i: int|
        0 <= i < entries.len() ==> #[trigger] m.contains_key(entries[i].0@) && m[entries[i].0@]
            == entries[i].1
    &&& forall|k: Seq<char>|
        #[trigger] m.contains_key(k) ==> exists|i: int| 0 <= i < entries.len() && entries[i].0@ == k
}

/// No two entries share a key.
pub open spec fn keys_distinct(entries: Seq<(String, Value)>) -> bool {
    forall|i: int, j: int|
        0 <= i < entries.len() && 0 <= j < entries.len() && i != j ==> entries[i].0@
            != entries[j].0@
}

/// `node` is the exec form of the view `n`.
pub open spec fn node_matches(node: JsonNode, n: JsonNodeView) -> bool {
    match (node, n) {
        (JsonNode::Null, JsonNodeView::Null) => true,
        (JsonNode::Bool(a), JsonNodeView::Bool(b)) => a == b,
        (JsonNode::Number(a), JsonNodeView::Number(b)) => a == b,
        (JsonNode::Str(a), JsonNodeView::Str(b)) => a@ == b,
        (JsonNode::Array(a), JsonNodeView::Array(b)) => a@ == b,
        (JsonNode::Object(es), JsonNodeView::Object(m)) => entries_match(es@, m),
        _ => false,
    }
}

/// Relies on `serde_json::from_str::<Value>`: parsing depends on the text alone.
#[verifier::external_body]
pub(crate) fn parse_json(text: &str) -> (r: Result<Value, serde_json::Error>)
    ensures
        r is Ok <==> json_document(text@) is Some,
        r matches Ok(v) ==> json_document(text@) == Some(v),
{
    serde_json::from_str::<Value>(text)
}

/// Relies on the `Debug` format of `serde_json::Error` to describe a parse failure.
#[verifier::external_body]
pub(crate) fn json_error_detail(e: &serde_json::Error) -> (r: String) {
    format!("{:?}", e)
}

/// Relies on the variants of `serde_json::Value` and on `Number::as_i64`: the top
/// level of `v`, its children moved out of a copy of it.
#[verifier::external_body]
pub(crate) fn unfold(v: &Value) -> (r: JsonNode)
    ensures
        node_matches(r, json_node(*v)),
{
    match v.clone() {
        Value::Null => JsonNode::Null,
        Value::Bool(b) => JsonNode::Bool(b),
        Value::Number(n) => JsonNode::Number(n.as_i64()),
        Value::String(s) => JsonNode::Str(s),
        Value::Array(a) => JsonNode::Array(a),
        Value::Object(m) => JsonNode::Object(m.into_iter().collect()),
    }
}

/// Relies on the variants of `serde_json::Value`, on `Value::from` for an integer,
/// and on `serde_json::Map` collecting entries with distinct keys as they are.
#[verifier::external_body]
pub(crate) fn build(node: JsonNode) -> (r: Value)
    requires
        node matches JsonNode::Number(n) ==> n is Some,
        node matches JsonNode::Object(es) ==> keys_distinct(es@),
    ensures
        node_matches(node, json_node(r)),
{
    match node {
        JsonNode::Null => Value::Null,
        JsonNode::Bool(b) => Value::Bool(b),
        JsonNode::Number(n) => Value::from(n),
        JsonNode::Str(s) => Value::String(s),
        JsonNode::Array(a) => Value::Array(a),
        JsonNode::Object(es) => Value::Object(es.into_iter().collect()),
    }
}

/// The value under `key` in the object `m`.
pub open spec fn field(m: Map<Seq<char>, Value>, key: Seq<char>) -> Option<Value> {
    if m.contains_key(key) {
        Some(m[key])
    } else {
        None
    }
}

/// The text of a string document.
pub open spec fn str_of(v: Value) -> Option<Seq<char>> {
    match json_node(v) {
        JsonNodeView::Str(s) => Some(s),
        _ => None,
    }
}

/// The value of a boolean document.
pub open spec fn bool_of(v: Value) -> Option<bool> {
    match json_node(v) {
        JsonNodeView::Bool(b) => Some(b),
        _ => None,
    }
}

/// The value of a number document that is an integer in the range of `i32`.
pub open spec fn i32_of(v: Value) -> Option<i32> {
    match json_node(v) {
        JsonNodeView::Number(Some(i)) => if i32::MIN <= i <= i32::MAX {
            Some(i as i32)
        } else {
            None
        },
        _ => None,
    }
}

/// The text of the member `key`, which must be present.
pub open spec fn str_member(m: Map<Seq<char>, Value>, key: Seq<char>) -> Option<Seq<char>> {
    match field(m, key) {
        Some(x) => str_of(x),
        None => None,
    }
}

/// The boolean member `key`, which must be present.
pub open spec fn bool_member(m: Map<Seq<char>, Value>, key: Seq<char>) -> Option<bool> {
    match field(m, key) {
        Some(x) => bool_of(x),
        None => None,
    }
}

/// The `i32` member `key`, which must be present.
pub open spec fn i32_member(m: Map<Seq<char>, Value>, key: Seq<char>) -> Option<i32> {
    match field(m, key) {
        Some(x) => i32_of(x),
        None => None,
    }
}

/// An optional boolean member: absent or `null` reads as `Some(None)`.
pub open spec fn opt_bool_member(m: Map<Seq<char>, Value>, key: Seq<char>) -> Option<
    Option<bool>,
> {
    match field(m, key) {
        None => Some(None),
        Some(x) => if json_node(x) is Null {
            Some(None)
        } else {
            match bool_of(x) {
                Some(b) => Some(Some(b)),
                None => None,
            }
        },
    }
}

/// An optional text member: absent or `null` reads as `Some(None)`.
pub open spec fn opt_str_member(m: Map<Seq<char>, Value>, key: Seq<char>) -> Option<
    Option<Seq<char>>,
> {
    match field(m, key) {
        None => Some(None),
        Some(x) => if json_node(x) is Null {
            Some(None)
        } else {
            match str_of(x) {
                Some(t) => Some(Some(t)),
                None => None,
            }
        },
    }
}

/// A document that is `null`, or that `field` reads as absent.
pub open spec fn absent_or_null(member: Option<Value>) -> bool {
    match member {
        None => true,
        Some(x) => json_node(x) is Null,
    }
}

/// The entries of an object document, or `None` for any other document.
pub fn object_entries(v: &Value) -> (r: Option<Vec<(String, Value)>>)
    ensures
        r is Some <==> json_node(*v) is Object,
        r matches Some(es) ==> entries_match(es@, json_node(*v)->Object_0),
{
    match unfold(v) {
        JsonNode::Object(es) => Some(es),
        _ => None,
    }
}

/// The elements of an array document, or `None` for any other document.
pub fn array_items(v: &Value) -> (r: Option<Vec<Value>>)
    ensures
        r is Some <==> json_node(*v) is Array,
        r matches Some(a) ==> a@ == json_node(*v)->Array_0,
{
    match unfold(v) {
        JsonNode::Array(a) => Some(a),
        _ => None,
    }
}

/// Whether a document is `null`.
pub fn is_null(v: &Value) -> (r: bool)
    ensures
        r == json_node(*v) is Null,
{
    match unfold(v) {
        JsonNode::Null => true,
        _ => false,
    }
}

/// The member `key` of an object whose entries are `entries`.
pub fn find_field<'a>(
    entries: &'a Vec<(String, Value)>,
    key: &str,
    Ghost(m): Ghost<Map<Seq<char>, Value>>,
) -> (r: Option<&'a Value>)
    requires
        entries_match(entries@, m),
    ensures
        r matches Some(x) ==> field(m, key@) == Some(*x),
        r is None ==> field(m, key@) is None,
{
    let wanted = String::from_str(key);
    let mut i: usize = 0;
    while i < entries.len()
        invariant
            i <= entries.len(),
            wanted@ == key@,
            entries_match(entries@, m),
            forall|j: int| 0 <= j < i ==> entries@[j].0@ != key@,
        decreases entries.len() - i,
    {
        if entries[i].0 == wanted {
            assert(m.contains_key(entries@[i as int].0@));
            return Some(&entries[i].1);
        }
        i = i + 1;
    }
    None
}

/// The text of a string document.
pub fn read_str(v: &Value) -> (r: Option<String>)
    ensures
        r matches Some(s) ==> str_of(*v) == Some(s@),
        r is None ==> str_of(*v) is None,
{
    match unfold(v) {
        JsonNode::Str(s) => Some(s),
        _ => None,
    }
}

/// The value of a boolean document.
pub fn read_bool(v: &Value) -> (r: Option<bool>)
    ensures
        r == bool_of(*v),
{
    match unfold(v) {
        JsonNode::Bool(b) => Some(b),
        _ => None,
    }
}

/// The value of an integer document in the range of `i32`.
pub fn read_i32(v: &Value) -> (r: Option<i32>)
    ensures
        r == i32_of(*v),
{
    match unfold(v) {
        JsonNode::Number(Some(i)) => if i32::MIN as i64 <= i && i <= i32::MAX as i64 {
            Some(i as i32)
        } else {
            None
        },
        _ => None,
    }
}

/// A string document holding `s`.
pub fn str_value(s: String) -> (r: Value)
    ensures
        json_node(r) == JsonNodeView::Str(s@),
{
    build(JsonNode::Str(s))
}

/// A boolean document.
pub fn bool_value(b: bool) -> (r: Value)
    ensures
        json_node(r) == JsonNodeView::Bool(b),
{
    build(JsonNode::Bool(b))
}

/// An integer document.
pub fn i32_value(i: i32) -> (r: Value)
    ensures
        json_node(r) == JsonNodeView::Number(Some(i as i64)),
{
    build(JsonNode::Number(Some(i as i64)))
}

/// The `null` document.
pub fn null_value() -> (r: Value)
    ensures
        json_node(r) is Null,
{
    build(JsonNode::Null)
}

/// The text member `key` of an object with entries `es`.
pub fn read_str_member(
    es: &Vec<(String, Value)>,
    key: &str,
    Ghost(m): Ghost<Map<Seq<char>, Value>>,
) -> (r: Option<String>)
    requires
        entries_match(es@, m),
    ensures
        r matches Some(s) ==> str_member(m, key@) == Some(s@),
        r is None ==> str_member(m, key@) is None,
{
    match find_field(es, key, Ghost(m)) {
        Some(x) => read_str(x),
        None => None,
    }
}

/// The boolean member `key` of an object with entries `es`.
pub fn read_bool_member(
    es: &Vec<(String, Value)>,
    key: &str,
    Ghost(m): Ghost<Map<Seq<char>, Value>>,
) -> (r: Option<bool>)
    requires
        entries_match(es@, m),
    ensures
        r == bool_member(m, key@),
{
    match find_field(es, key, Ghost(m)) {
        Some(x) => read_bool(x),
        None => None,
    }
}

/// The `i32` member `key` of an object with entries `es`.
pub fn read_i32_member(
    es: &Vec<(String, Value)>,
    key: &str,
    Ghost(m): Ghost<Map<Seq<char>, Value>>,
) -> (r: Option<i32>)
    requires
        entries_match(es@, m),
    ensures
        r == i32_member(m, key@),
{
    match find_field(es, key, Ghost(m)) {
        Some(x) => read_i32(x),
        None => None,
    }
}

/// The optional boolean member `key` of an object with entries `es`.
pub fn read_opt_bool_member(
    es: &Vec<(String, Value)>,
    key: &str,
    Ghost(m): Ghost<Map<Seq<char>, Value>>,
) -> (r: Option<Option<bool>>)
    requires
        entries_match(es@, m),
    ensures
        r == opt_bool_member(m, key@),
{
    match find_field(es, key, Ghost(m)) {
        None => Some(None),
        Some(x) => if is_null(x) {
            Some(None)
        } else {
            match read_bool(x) {
                Some(b) => Some(Some(b)),
                None => None,
            }
        },
    }
}

/// The optional text member `key` of an object with entries `es`.
pub fn read_opt_str_member(
    es: &Vec<(String, Value)>,
    key: &str,
    Ghost(m): Ghost<Map<Seq<char>, Value>>,
) -> (r: Option<Option<String>>)
    requires
        entries_match(es@, m),
    ensures
        r matches Some(Some(s)) ==> opt_str_member(m, key@) == Some(Some(s@)),
        r matches Some(None) ==> opt_str_member(m, key@) == Some(None::<Seq<char>>),
        r is None ==> opt_str_member(m, key@) is None,
{
    match find_field(es, key, Ghost(m)) {
        None => Some(None),
        Some(x) => if is_null(x) {
            Some(None)
        } else {
            match read_str(x) {
                Some(t) => Some(Some(t)),
                None => None,
            }
        },
    }
}

/// An object document with no members.
pub fn empty_object() -> (r: Value)
    ensures
        json_node(r) == JsonNodeView::Object(Map::empty()),
{
    let r = build(JsonNode::Object(Vec::new()));
    assert(json_node(r)->Object_0 =~= Map::empty());
    r
}

/// Relies on `Value::as_object_mut` and `serde_json::Map::insert`: the member `key`
/// of an object document is set to `v`.
#[verifier::external_body]
pub(crate) fn insert_member(obj: &mut Value, key: String, v: Value)
    requires
        json_node(*old(obj)) is Object,
    ensures
        json_node(*final(obj)) == JsonNodeView::Object(
            json_node(*old(obj))->Object_0.insert(key@, v),
        ),
{
    if let Some(m) = obj.as_object_mut() {
        m.insert(key, v);
    }
}

/// An array document with the elements `items`.
pub fn array_value(items: Vec<Value>) -> (r: Value)
    ensures
        json_node(r) == JsonNodeView::Array(items@),
{
    build(JsonNode::Array(items))
}

} // verus!
