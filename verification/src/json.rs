//! A small document model for the JSON frames that travel on the wire.
//!
//! Frames are read and written by `serde_json`; this module holds the
//! document as plain data so that everything built on it can be reasoned
//! about.

use serde_json::Value;
use vstd::prelude::*;

verus! {

/// A JSON number: an integer that fits `i64`, or any other number held by
/// the literal that stands for it in a frame (`5.0`, `-3.25`, `1e21`).
#[derive(Debug, PartialEq, Eq)]
pub enum Number {
    Int(i64),
    Decimal(String),
}

/// The mathematical value of a [`Number`].
pub enum NumberView {
    Int(i64),
    Decimal(Seq<char>),
}

impl View for Number {
    type V = NumberView;

    open spec fn view(&self) -> NumberView {
        match self {
            Number::Int(i) => NumberView::Int(*i),
            Number::Decimal(s) => NumberView::Decimal(s@),
        }
    }
}

impl Clone for Number {
    fn clone(&self) -> (copy: Self)
        ensures
            copy@ == self@,
    {
        match self {
            Number::Int(i) => Number::Int(*i),
            Number::Decimal(s) => Number::Decimal(s.clone()),
        }
    }
}

/// One member of a JSON object.
#[derive(Debug, PartialEq, Eq)]
pub struct Member {
    pub key: String,
    pub value: Json,
}

/// A JSON document.
#[derive(Debug, PartialEq, Eq)]
pub enum Json {
    Null,
    Bool(bool),
    Number(Number),
    Text(String),
    List(Vec<Json>),
    Object(Vec<Member>),
}

/// The mathematical value of a [`Json`] document.
pub enum JsonView {
    Null,
    Bool(bool),
    Number(NumberView),
    Text(Seq<char>),
    List(Seq<JsonView>),
    Object(Seq<(Seq<char>, JsonView)>),
}

impl Json {
    /// The value of the document, item by item and member by member.
    pub open spec fn model(&self) -> JsonView
        decreases self,
    {
        match self {
            Json::Null => JsonView::Null,
            Json::Bool(b) => JsonView::Bool(*b),
            Json::Number(n) => JsonView::Number(n@),
            Json::Text(s) => JsonView::Text(s@),
            Json::List(items) => JsonView::List(
                Seq::new(
                    items@.len(),
                    |i: int|
                        if 0 <= i < items@.len() {
                            items@[i].model()
                        } else {
                            JsonView::Null
                        },
                ),
            ),
            Json::Object(members) => JsonView::Object(
                Seq::new(
                    members@.len(),
                    |i: int|
                        if 0 <= i < members@.len() {
                            (members@[i].key@, members@[i].value.model())
                        } else {
                            (Seq::empty(), JsonView::Null)
                        },
                ),
            ),
        }
    }
}

impl View for Json {
    type V = JsonView;

    open spec fn view(&self) -> JsonView {
        self.model()
    }
}

/// The value of the first member named `key` among `members[from..]`.
pub open spec fn member_from(members: Seq<(Seq<char>, JsonView)>, key: Seq<char>, from: int) -> Option<
    JsonView,
>
    decreases members.len() - from,
{
    if from < 0 || from >= members.len() {
        None
    } else if members[from].0 == key {
        Some(members[from].1)
    } else {
        member_from(members, key, from + 1)
    }
}

impl JsonView {
    /// The member named `key` of an object; `None` for a missing member and
    /// for a document that is no object.
    pub open spec fn field(self, key: Seq<char>) -> Option<JsonView> {
        match self {
            JsonView::Object(members) => member_from(members, key, 0),
            _ => None,
        }
    }

    /// The text of a string document.
    pub open spec fn text(self) -> Option<Seq<char>> {
        match self {
            JsonView::Text(s) => Some(s),
            _ => None,
        }
    }

    /// The value of an integer document.
    pub open spec fn integer(self) -> Option<i64> {
        match self {
            JsonView::Number(NumberView::Int(i)) => Some(i),
            _ => None,
        }
    }

    /// The value of a number document.
    pub open spec fn number(self) -> Option<NumberView> {
        match self {
            JsonView::Number(n) => Some(n),
            _ => None,
        }
    }

    /// The items of an array document.
    pub open spec fn list(self) -> Option<Seq<JsonView>> {
        match self {
            JsonView::List(items) => Some(items),
            _ => None,
        }
    }
}

/// `field` through an optional document: a missing parent has no members.
pub open spec fn field_of(doc: Option<JsonView>, key: Seq<char>) -> Option<JsonView> {
    match doc {
        Some(d) => d.field(key),
        None => None,
    }
}

/// The text of an optional document.
pub open spec fn text_of(doc: Option<JsonView>) -> Option<Seq<char>> {
    match doc {
        Some(d) => d.text(),
        None => None,
    }
}

/// The integer of an optional document.
pub open spec fn integer_of(doc: Option<JsonView>) -> Option<i64> {
    match doc {
        Some(d) => d.integer(),
        None => None,
    }
}

/// The number of an optional document.
pub open spec fn number_of(doc: Option<JsonView>) -> Option<NumberView> {
    match doc {
        Some(d) => d.number(),
        None => None,
    }
}

/// The items of an optional document.
pub open spec fn list_of(doc: Option<JsonView>) -> Option<Seq<JsonView>> {
    match doc {
        Some(d) => d.list(),
        None => None,
    }
}

/// The view of an array is the array of its items' views.
pub proof fn lemma_list_view(items: Vec<Json>)
    ensures
        Json::List(items)@ matches JsonView::List(views) && views.len() == items@.len() && forall|
            i: int,
        |
            0 <= i < items@.len() ==> #[trigger] views[i] == items@[i]@,
{
    reveal_with_fuel(Json::model, 2);
}

/// The view of an object is the sequence of its members' names and views.
pub proof fn lemma_object_view(members: Vec<Member>)
    ensures
        Json::Object(members)@ matches JsonView::Object(views) && views.len() == members@.len()
            && forall|i: int|
            0 <= i < members@.len() ==> #[trigger] views[i] == (
                members@[i].key@,
                members@[i].value@,
            ),
{
    reveal_with_fuel(Json::model, 2);
}

/// Whether two texts hold the same characters.
pub fn text_eq(a: &str, b: &str) -> (same: bool)
    ensures
        same == (a@ == b@),
{
    String::from_str(a) == String::from_str(b)
}

/// The view of an optional document.
pub open spec fn view_of(doc: Option<&Json>) -> Option<JsonView> {
    match doc {
        Some(d) => Some(d@),
        None => None,
    }
}

impl Json {
    /// Looks a member of an object up by its name.
    pub fn get(&self, key: &str) -> (found: Option<&Json>)
        ensures
            view_of(found) == self@.field(key@),
    {
        match self {
            Json::Object(members) => {
                proof {
                    lemma_object_view(*members);
                }
                let ghost view = self@->Object_0;
                let mut i: usize = 0;
                while i < members.len()
                    invariant
                        i <= members.len(),
                        self@ == JsonView::Object(view),
                        view.len() == members@.len(),
                        forall|j: int|
                            0 <= j < members@.len() ==> #[trigger] view[j] == (
                                members@[j].key@,
                                members@[j].value@,
                            ),
                        member_from(view, key@, 0) == member_from(view, key@, i as int),
                    decreases members.len() - i,
                {
                    if text_eq(members[i].key.as_str(), key) {
                        return Some(&members[i].value);
                    }
                    i += 1;
                }
                None
            },
            _ => None,
        }
    }

    /// The text of a string document.
    pub fn as_text(&self) -> (found: Option<&str>)
        ensures
            found.is_some() == self@.text().is_some(),
            found matches Some(s) ==> Some(s@) == self@.text(),
    {
        match self {
            Json::Text(s) => Some(s.as_str()),
            _ => None,
        }
    }

    /// The value of an integer document.
    pub fn as_int(&self) -> (found: Option<i64>)
        ensures
            found == self@.integer(),
    {
        match self {
            Json::Number(Number::Int(i)) => Some(*i),
            _ => None,
        }
    }

    /// The value of a number document.
    pub fn as_number(&self) -> (found: Option<Number>)
        ensures
            found.is_some() == self@.number().is_some(),
            found matches Some(n) ==> Some(n@) == self@.number(),
    {
        match self {
            Json::Number(n) => Some(n.clone()),
            _ => None,
        }
    }

    /// The items of an array document.
    pub fn as_list(&self) -> (found: Option<&Vec<Json>>)
        ensures
            found.is_some() == self@.list().is_some(),
            found matches Some(items) ==> {
                &&& self@.list() matches Some(views)
                &&& views.len() == items@.len()
                &&& forall|i: int| 0 <= i < items@.len() ==> #[trigger] views[i] == items@[i]@
            },
    {
        match self {
            Json::List(items) => {
                proof {
                    lemma_list_view(*items);
                }
                Some(items)
            },
            _ => None,
        }
    }
}

/// The text member `key` of an object.
pub fn field_text<'a>(doc: &'a Json, key: &str) -> (found: Option<&'a str>)
    ensures
        found.is_some() == text_of(doc@.field(key@)).is_some(),
        found matches Some(s) ==> text_of(doc@.field(key@)) == Some(s@),
{
    match doc.get(key) {
        Some(d) => d.as_text(),
        None => None,
    }
}

/// The integer member `key` of an object.
pub fn field_integer(doc: &Json, key: &str) -> (found: Option<i64>)
    ensures
        found == integer_of(doc@.field(key@)),
{
    match doc.get(key) {
        Some(d) => d.as_int(),
        None => None,
    }
}

/// The member `inner` of the member `outer` of an object.
pub fn nested<'a>(doc: &'a Json, outer: &str, inner: &str) -> (found: Option<&'a Json>)
    ensures
        view_of(found) == field_of(doc@.field(outer@), inner@),
{
    match doc.get(outer) {
        Some(d) => d.get(inner),
        None => None,
    }
}

/// The number at `outer.inner` of an object.
pub fn nested_number(doc: &Json, outer: &str, inner: &str) -> (found: Option<Number>)
    ensures
        found.is_some() == number_of(field_of(doc@.field(outer@), inner@)).is_some(),
        found matches Some(n) ==> number_of(field_of(doc@.field(outer@), inner@)) == Some(n@),
{
    match nested(doc, outer, inner) {
        Some(d) => d.as_number(),
        None => None,
    }
}

/// `serde_json::Value`, carried through as it is: nothing is known of what
/// one holds.
#[verifier::external_type_specification]
#[verifier::external_body]
pub struct ExValue(serde_json::Value);

/// Copies a `serde_json::Value` into a [`Json`], variant by variant. An
/// integer that `Number::as_i64` yields becomes `Number::Int`; any other
/// number is kept as the literal that `Number`'s `Display` writes. Nothing is
/// claimed of the copy here: `parse_json` names the outcome.
#[verifier::external_body]
fn lift(value: &Value) -> Json {
    match value {
        Value::Null => Json::Null,
        Value::Bool(b) => Json::Bool(*b),
        Value::Number(n) => match n.as_i64() {
            Some(i) => Json::Number(Number::Int(i)),
            None => Json::Number(Number::Decimal(n.to_string())),
        },
        Value::String(s) => Json::Text(s.clone()),
        Value::Array(items) => Json::List(items.iter().map(lift).collect()),
        Value::Object(map) => Json::Object(
            map.iter().map(|(k, v)| Member { key: k.clone(), value: lift(v) }).collect(),
        ),
    }
}

/// Builds the `serde_json::Value` that a [`Json`] stands for, variant by
/// variant. A decimal goes through `Number`'s `FromStr`; one that is no JSON
/// number becomes `null`. Nothing is claimed of the value here:
/// `render_json` names the outcome.
#[verifier::external_body]
fn lower(doc: &Json) -> Value {
    match doc {
        Json::Null => Value::Null,
        Json::Bool(b) => Value::Bool(*b),
        Json::Number(Number::Int(i)) => Value::from(*i),
        Json::Number(Number::Decimal(s)) => s.parse().map_or(Value::Null, Value::Number),
        Json::Text(s) => Value::String(s.clone()),
        Json::List(items) => Value::Array(items.iter().map(lower).collect()),
        Json::Object(members) => Value::Object(
            members.iter().map(|m| (m.key.clone(), lower(&m.value))).collect(),
        ),
    }
}

/// The document that `serde_json` reads from a text; `None` where the text
/// is no JSON.
pub uninterp spec fn parsed_json(text: Seq<char>) -> Option<JsonView>;

/// The text that `serde_json` writes for a document.
pub uninterp spec fn rendered_json(doc: JsonView) -> Seq<char>;

/// Reads a text with `serde_json::from_str`. The contract gives the outcome
/// a name and says no more: the same text always reads as the same
/// document, and a text that is no JSON reads as `None`.
#[verifier::external_body]
pub(crate) fn parse_json(text: &str) -> (doc: Option<Json>)
    ensures
        doc.is_some() == parsed_json(text@).is_some(),
        doc matches Some(d) ==> Some(d@) == parsed_json(text@),
{
    match serde_json::from_str::<Value>(text) {
        Ok(value) => Some(lift(&value)),
        Err(_) => None,
    }
}

/// Writes a document with the `Display` of `serde_json::Value` (compact,
/// members in the order of their names). The contract gives the text a name
/// and says no more.
#[verifier::external_body]
pub(crate) fn render_json(doc: &Json) -> (text: String)
    ensures
        text@ == rendered_json(doc@),
{
    lower(doc).to_string()
}

} // verus!
