//! A JSON value held as plain data, with its mathematical model.

use crate::errors::{ClientError, ClientErrorView};
use serde_json::Value;
use vstd::prelude::*;

verus! {

/// A JSON number.
#[derive(Debug, PartialEq, Eq)]
pub enum Number {
    /// A non-negative integer.
    Unsigned(u64),
    /// A negative integer.
    Negative(i64),
    /// Any other number, by its decimal text.
    Real(String),
}

/// A JSON value.
#[derive(Debug, PartialEq, Eq)]
pub enum Json {
    /// The value `null`.
    Null,
    /// A boolean.
    Bool(bool),
    /// A number.
    Number(Number),
    /// A string.
    String(String),
    /// An array: its items in order.
    Array(Vec<Json>),
    /// An object: its members, each with its key. Of two members with one
    /// key the later one counts.
    Object(Vec<(String, Json)>),
}

/// Model of [`Number`].
pub enum NumberView {
    Unsigned(u64),
    Negative(i64),
    Real(Seq<char>),
}

/// Model of [`Json`]: the same tree, with texts and lists as sequences.
pub enum JsonView {
    Null,
    Bool(bool),
    Number(NumberView),
    String(Seq<char>),
    Array(Seq<JsonView>),
    Object(Seq<(Seq<char>, JsonView)>),
}

impl DeepView for Number {
    type V = NumberView;

    open spec fn deep_view(&self) -> NumberView {
        match self {
            Number::Unsigned(n) => NumberView::Unsigned(*n),
            Number::Negative(n) => NumberView::Negative(*n),
            Number::Real(text) => NumberView::Real(text@),
        }
    }
}

/// The model of a value, member by member.
pub open spec fn json_view(value: Json) -> JsonView
    decreases value,
{
    match value {
        Json::Null => JsonView::Null,
        Json::Bool(b) => JsonView::Bool(b),
        Json::Number(n) => JsonView::Number(n.deep_view()),
        Json::String(s) => JsonView::String(s@),
        Json::Array(items) => JsonView::Array(
            Seq::new(
                items@.len(),
                |i: int|
                    if 0 <= i < items@.len() {
                        json_view(items@[i])
                    } else {
                        JsonView::Null
                    },
            ),
        ),
        Json::Object(entries) => JsonView::Object(
            Seq::new(
                entries@.len(),
                |i: int|
                    if 0 <= i < entries@.len() {
                        (entries@[i].0@, json_view(entries@[i].1))
                    } else {
                        (Seq::empty(), JsonView::Null)
                    },
            ),
        ),
    }
}

impl DeepView for Json {
    type V = JsonView;

    open spec fn deep_view(&self) -> JsonView {
        json_view(*self)
    }
}

/// The value that an object's entries give for a key: that of the last entry
/// with this key, as a later entry replaces an earlier one of the same key.
pub open spec fn lookup(entries: Seq<(Seq<char>, JsonView)>, key: Seq<char>) -> Option<JsonView>
    decreases entries.len(),
{
    if entries.len() == 0 {
        None
    } else if entries.last().0 == key {
        Some(entries.last().1)
    } else {
        lookup(entries.drop_last(), key)
    }
}

/// Looking a key up after one more entry was appended.
pub broadcast proof fn lemma_lookup_push(
    entries: Seq<(Seq<char>, JsonView)>,
    name: Seq<char>,
    value: JsonView,
    key: Seq<char>,
)
    ensures
        #[trigger] lookup(entries.push((name, value)), key) == if name == key {
            Some(value)
        } else {
            lookup(entries, key)
        },
{
    let longer = entries.push((name, value));
    assert(longer.last() == (name, value));
    assert(longer.drop_last() =~= entries);
}

/// Looking a key up in two lists joined: the second list decides where it
/// has the key.
pub proof fn lemma_lookup_add(
    front: Seq<(Seq<char>, JsonView)>,
    back: Seq<(Seq<char>, JsonView)>,
    key: Seq<char>,
)
    ensures
        lookup(front + back, key) == match lookup(back, key) {
            Some(value) => Some(value),
            None => lookup(front, key),
        },
    decreases back.len(),
{
    if back.len() == 0 {
        assert(front + back =~= front);
    } else {
        let whole = front + back;
        assert(whole.last() == back.last());
        assert(whole.drop_last() =~= front + back.drop_last());
        lemma_lookup_add(front, back.drop_last(), key);
    }
}

/// A key that no entry has is not found.
pub proof fn lemma_lookup_absent(entries: Seq<(Seq<char>, JsonView)>, key: Seq<char>)
    requires
        forall|i: int| 0 <= i < entries.len() ==> (#[trigger] entries[i]).0 != key,
    ensures
        lookup(entries, key) is None,
    decreases entries.len(),
{
    if entries.len() > 0 {
        lemma_lookup_absent(entries.drop_last(), key);
    }
}

/// Whether no key occurs twice in a list of entries.
pub open spec fn distinct_keys<V>(entries: Seq<(Seq<char>, V)>) -> bool {
    forall|i: int, j: int|
        0 <= i < j < entries.len() ==> (#[trigger] entries[i]).0 != (#[trigger] entries[j]).0
}

impl NumberView {
    /// Whether the number is held in its own variant: a negative integer is
    /// below zero.
    pub open spec fn well_formed(self) -> bool {
        match self {
            NumberView::Negative(n) => n < 0,
            _ => true,
        }
    }
}

impl JsonView {
    /// The member of an object under a key; nothing for a value that is no object.
    pub open spec fn field(self, key: Seq<char>) -> Option<JsonView> {
        match self {
            JsonView::Object(entries) => lookup(entries, key),
            _ => None,
        }
    }

    /// Whether the value is one that a JSON text can stand for: every object
    /// in it holds each key once, as a map does, and every number is held in
    /// its own variant.
    pub open spec fn well_formed(self) -> bool
        decreases self,
    {
        match self {
            JsonView::Number(n) => n.well_formed(),
            JsonView::Array(items) => forall|i: int|
                0 <= i < items.len() ==> (#[trigger] items[i]).well_formed(),
            JsonView::Object(entries) => distinct_keys(entries) && forall|i: int|
                0 <= i < entries.len() ==> (#[trigger] entries[i]).1.well_formed(),
            _ => true,
        }
    }
}

/// Whether a list of entries is that of a well-formed object.
pub open spec fn entries_well_formed(entries: Seq<(Seq<char>, JsonView)>) -> bool {
    JsonView::Object(entries).well_formed()
}

/// What is found in well-formed entries is well formed, and is the value of
/// one of the entries.
pub proof fn lemma_lookup_well_formed(entries: Seq<(Seq<char>, JsonView)>, key: Seq<char>)
    requires
        lookup(entries, key) is Some,
    ensures
        exists|i: int|
            0 <= i < entries.len() && (#[trigger] entries[i]) == (
                key,
                lookup(entries, key)->Some_0,
            ),
        entries_well_formed(entries) ==> lookup(entries, key)->Some_0.well_formed(),
    decreases entries.len(),
{
    if entries.last().0 == key {
        assert(entries[entries.len() - 1] == (key, lookup(entries, key)->Some_0));
    } else {
        let shorter = entries.drop_last();
        lemma_lookup_well_formed(shorter, key);
        let i = choose|i: int|
            0 <= i < shorter.len() && (#[trigger] shorter[i]) == (
                key,
                lookup(shorter, key)->Some_0,
            );
        assert(entries[i] == shorter[i]);
    }
}

/// A member of a well-formed value is well formed.
pub proof fn lemma_field_well_formed(value: JsonView, key: Seq<char>)
    requires
        value.well_formed(),
        value.field(key) is Some,
    ensures
        value.field(key)->Some_0.well_formed(),
{
    lemma_lookup_well_formed(value->Object_0, key);
}

/// The model of an array is the list of its items' models.
pub proof fn lemma_array_view(items: Vec<Json>)
    ensures
        Json::Array(items).deep_view() == JsonView::Array(items.deep_view()),
{
    assert(Json::Array(items).deep_view()->Array_0 =~= items.deep_view());
}

/// The model of an object is the list of its entries' models.
pub proof fn lemma_object_view(entries: Vec<(String, Json)>)
    ensures
        Json::Object(entries).deep_view() == JsonView::Object(entries.deep_view()),
{
    assert(Json::Object(entries).deep_view()->Object_0 =~= entries.deep_view());
}

/// Finds the member of a list of entries under a key.
pub fn find_entry<'a>(entries: &'a Vec<(String, Json)>, key: &str) -> (found: Option<&'a Json>)
    ensures
        found.deep_view() == lookup(entries.deep_view(), key@),
{
    let ghost all = entries.deep_view();
    let mut i: usize = entries.len();
    assert(all.take(i as int) =~= all);
    while i > 0
        invariant
            i <= entries.len(),
            all == entries.deep_view(),
            lookup(all, key@) == lookup(all.take(i as int), key@),
        decreases i,
    {
        i -= 1;
        proof {
            let upto = all.take(i + 1);
            assert(upto.last() == all[i as int]);
            assert(upto.drop_last() =~= all.take(i as int));
        }
        if crate::text::str_eq(entries[i].0.as_str(), key) {
            return Some(&entries[i].1);
        }
    }
    proof {
        assert(all.take(0).len() == 0);
    }
    None
}

impl Json {
    /// The member of an object under a key.
    pub fn get<'a>(&'a self, key: &str) -> (found: Option<&'a Json>)
        ensures
            found.deep_view() == self.deep_view().field(key@),
            self.deep_view().well_formed() ==> (found matches Some(member)
                ==> member.deep_view().well_formed()),
    {
        match self {
            Json::Object(entries) => {
                proof {
                    lemma_object_view(*entries);
                    if self.deep_view().well_formed() && self.deep_view().field(key@) is Some {
                        lemma_field_well_formed(self.deep_view(), key@);
                    }
                }
                find_entry(entries, key)
            },
            _ => None,
        }
    }
}

impl Clone for Number {
    fn clone(&self) -> (copy: Number)
        ensures
            copy.deep_view() == self.deep_view(),
    {
        match self {
            Number::Unsigned(n) => Number::Unsigned(*n),
            Number::Negative(n) => Number::Negative(*n),
            Number::Real(text) => Number::Real(text.clone()),
        }
    }
}

/// Copies a list of values.
pub fn clone_items(items: &Vec<Json>) -> (copies: Vec<Json>)
    ensures
        copies.deep_view() == items.deep_view(),
    decreases items,
{
    let mut copies: Vec<Json> = Vec::new();
    let mut i: usize = 0;
    while i < items.len()
        invariant
            i <= items.len(),
            copies.len() == i,
            forall|j: int| 0 <= j < i ==> copies@[j].deep_view() == items@[j].deep_view(),
        decreases items.len() - i,
    {
        assert(decreases_to!(items => items@[i as int]));
        copies.push(items[i].clone());
        i += 1;
    }
    assert(copies.deep_view() =~= items.deep_view());
    copies
}

/// Copies a list of object entries.
pub fn clone_entries(entries: &Vec<(String, Json)>) -> (copies: Vec<(String, Json)>)
    ensures
        copies.deep_view() == entries.deep_view(),
    decreases entries,
{
    let mut copies: Vec<(String, Json)> = Vec::new();
    let mut i: usize = 0;
    while i < entries.len()
        invariant
            i <= entries.len(),
            copies.len() == i,
            forall|j: int|
                0 <= j < i ==> copies@[j].0@ == entries@[j].0@ && copies@[j].1.deep_view()
                    == entries@[j].1.deep_view(),
        decreases entries.len() - i,
    {
        assert(decreases_to!(entries => entries@[i as int].1));
        copies.push((entries[i].0.clone(), entries[i].1.clone()));
        i += 1;
    }
    assert(copies.deep_view() =~= entries.deep_view());
    copies
}

impl Clone for Json {
    fn clone(&self) -> (copy: Json)
        ensures
            copy.deep_view() == self.deep_view(),
        decreases self,
    {
        match self {
            Json::Null => Json::Null,
            Json::Bool(b) => Json::Bool(*b),
            Json::Number(n) => Json::Number(n.clone()),
            Json::String(s) => Json::String(s.clone()),
            Json::Array(items) => {
                let copies = clone_items(items);
                proof {
                    lemma_array_view(copies);
                    lemma_array_view(*items);
                }
                Json::Array(copies)
            },
            Json::Object(entries) => {
                let copies = clone_entries(entries);
                proof {
                    lemma_object_view(copies);
                    lemma_object_view(*entries);
                }
                Json::Object(copies)
            },
        }
    }
}

/// The outside JSON tree, carried between the parser and the conversions below.
#[verifier::external_type_specification]
#[verifier::external_body]
pub struct ExValue(Value);

/// The reason the outside parser gives for refusing a text.
#[verifier::external_type_specification]
#[verifier::external_body]
pub struct ExJsonError(serde_json::Error);

/// What `serde_json::from_str` makes of a text: the value it reads, or its refusal.
pub uninterp spec fn parsed_json(text: Seq<char>) -> Result<JsonView, serde_json::Error>;

/// The compact text that `serde_json` writes for a value.
pub uninterp spec fn json_text(value: JsonView) -> Seq<char>;

/// Copies an outside `serde_json::Value` into a [`Json`], variant by variant
/// and member by member, in the order in which the outside map hands its
/// members out. A number goes by `as_u64` where that gives a value, else by
/// `as_i64`, else by the decimal text that `to_string` writes for it.
#[verifier::external_body]
fn json_from_value(value: Value) -> Json {
    match value {
        Value::Null => Json::Null,
        Value::Bool(b) => Json::Bool(b),
        Value::String(s) => Json::String(s),
        Value::Array(a) => Json::Array(a.into_iter().map(json_from_value).collect()),
        Value::Object(m) => Json::Object(m.into_iter().map(|(k, v)| (k, json_from_value(v))).collect()),
        n => Json::Number(match (n.as_u64(), n.as_i64()) {
            (Some(u), _) => Number::Unsigned(u),
            (None, Some(i)) => Number::Negative(i),
            _ => Number::Real(n.to_string()),
        }),
    }
}

/// Calls `serde_json::from_str` for a `serde_json::Value` and copies the outcome
/// into a [`Json`]. The contract names the outcome. Of a value it claims
/// besides only what the outside types hold by construction: an object is
/// a map and hands each key out once, and a number that `as_u64` does not
/// give but `as_i64` does is below zero.
#[verifier::external_body]
pub(crate) fn parse_text(text: &str) -> (parsed: Result<Json, serde_json::Error>)
    ensures
        match parsed {
            Ok(value) => parsed_json(text@) == Ok::<JsonView, serde_json::Error>(value.deep_view()),
            Err(e) => parsed_json(text@) == Err::<JsonView, serde_json::Error>(e),
        },
        parsed matches Ok(value) ==> value.deep_view().well_formed(),
{
    serde_json::from_str::<Value>(text).map(json_from_value)
}

/// Copies a [`Json`] into an outside `serde_json::Value`, variant by variant
/// and member by member; of two members with one key the later one stays. A
/// `Real` whose text `serde_json::Number` does not read becomes `null`.
#[verifier::external_body]
fn json_to_value(value: &Json) -> Value {
    match value {
        Json::Null => Value::Null,
        Json::Bool(b) => Value::Bool(*b),
        Json::Number(Number::Unsigned(u)) => Value::from(*u),
        Json::Number(Number::Negative(i)) => Value::from(*i),
        Json::Number(Number::Real(t)) => t.parse().map_or(Value::Null, Value::Number),
        Json::String(s) => Value::String(s.clone()),
        Json::Array(a) => Value::Array(a.iter().map(json_to_value).collect()),
        Json::Object(m) => Value::Object(m.iter().map(|(k, v)| (k.clone(), json_to_value(v))).collect()),
    }
}

/// Copies the value into a `serde_json::Value` and writes it with that type's
/// `to_string`. The contract names the text and claims nothing else of it.
#[verifier::external_body]
pub(crate) fn write_text(value: &Json) -> (text: String)
    ensures
        text@ == json_text(value.deep_view()),
{
    json_to_value(value).to_string()
}

impl Json {
    /// Parses a JSON text.
    pub fn parse(text: &str) -> (parsed: Result<Json, ClientError>)
        ensures
            match parsed {
                Ok(value) => parsed_json(text@) == Ok::<_, serde_json::Error>(value.deep_view()),
                Err(error) => parsed_json(text@) matches Err(e) && error.deep_view()
                    == ClientErrorView::SerdeJson(e),
            },
            parsed matches Ok(value) ==> value.deep_view().well_formed(),
    {
        match parse_text(text) {
            Ok(value) => Ok(value),
            Err(e) => Err(ClientError::SerdeJson(e)),
        }
    }

    /// Writes the value as compact JSON text.
    pub fn to_text(&self) -> (text: String)
        ensures
            text@ == json_text(self.deep_view()),
    {
        write_text(self)
    }
}

} // verus!
