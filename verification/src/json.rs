//! JSON values.
//!
//! `Json` holds a JSON value in plain data, and `JsonView` is its model. Text is
//! read and written by `serde_json`; what it makes of a text, and the text that it
//! writes, have names here and nothing more is said of them.

use vstd::prelude::*;

use crate::text::{str_eq, texts};

verus! {

/// A JSON value.
///
/// An object lists its members; where a key occurs twice, the later member
/// counts. A number that is not an integer of 64 bits is held as its text.
#[derive(Debug)]
pub enum Json {
    Null,
    Bool(bool),
    /// An integer that is not negative.
    UInt(u64),
    /// A negative integer.
    Int(i64),
    /// A number with a fraction or an exponent, as text.
    Float(String),
    Str(String),
    Array(Vec<Json>),
    Object(Vec<(String, Json)>),
}

/// The model of a JSON value.
pub enum JsonView {
    Null,
    Bool(bool),
    UInt(u64),
    Int(i64),
    Float(Seq<char>),
    Str(Seq<char>),
    Array(Seq<JsonView>),
    Object(Seq<(Seq<char>, JsonView)>),
}

impl View for Json {
    type V = JsonView;

    open spec fn view(&self) -> JsonView {
        model_of(*self)
    }
}

/// The model of a value.
pub open spec fn model_of(j: Json) -> JsonView
    decreases j,
{
    match j {
        Json::Null => JsonView::Null,
        Json::Bool(b) => JsonView::Bool(b),
        Json::UInt(n) => JsonView::UInt(n),
        Json::Int(n) => JsonView::Int(n),
        Json::Float(t) => JsonView::Float(t@),
        Json::Str(t) => JsonView::Str(t@),
        Json::Array(items) => JsonView::Array(
            Seq::new(
                items@.len(),
                |i: int|
                    if 0 <= i < items@.len() {
                        model_of(items@[i])
                    } else {
                        arbitrary()
                    },
            ),
        ),
        Json::Object(members) => JsonView::Object(
            Seq::new(
                members@.len(),
                |i: int|
                    if 0 <= i < members@.len() {
                        (members@[i].0@, model_of(members@[i].1))
                    } else {
                        arbitrary()
                    },
            ),
        ),
    }
}

/// The models of a list of values.
pub open spec fn views(items: Seq<Json>) -> Seq<JsonView> {
    Seq::new(items.len(), |i: int| items[i]@)
}

/// The models of a list of members.
pub open spec fn member_views(members: Seq<(String, Json)>) -> Seq<(Seq<char>, JsonView)> {
    Seq::new(members.len(), |i: int| (members[i].0@, members[i].1@))
}

/// The model of an array is the list of the models of its items.
pub broadcast proof fn array_view(items: Vec<Json>)
    ensures
        #[trigger] Json::Array(items)@ == JsonView::Array(views(items@)),
{
    assert(Json::Array(items)@->Array_0 =~= views(items@));
}

/// The model of an object is the list of the models of its members.
pub broadcast proof fn object_view(members: Vec<(String, Json)>)
    ensures
        #[trigger] Json::Object(members)@ == JsonView::Object(member_views(members@)),
{
    assert(Json::Object(members)@->Object_0 =~= member_views(members@));
}

impl Clone for Json {
    fn clone(&self) -> (r: Self)
        ensures
            r@ == self@,
        decreases self,
    {
        broadcast use {array_view, object_view};

        match self {
            Json::Null => Json::Null,
            Json::Bool(b) => Json::Bool(*b),
            Json::UInt(n) => Json::UInt(*n),
            Json::Int(n) => Json::Int(*n),
            Json::Float(t) => Json::Float(t.clone()),
            Json::Str(t) => Json::Str(t.clone()),
            Json::Array(items) => {
                let mut out: Vec<Json> = Vec::new();
                let mut i: usize = 0;
                while i < items.len()
                    invariant
                        i <= items@.len(),
                        out@.len() == i,
                        *self is Array,
                        self->Array_0 == *items,
                        forall|k: int| 0 <= k < i ==> out@[k]@ == items@[k]@,
                    decreases items@.len() - i,
                {
                    assert(decreases_to!(*items => items@[i as int]));
                    out.push(items[i].clone());
                    i = i + 1;
                }
                assert(views(out@) =~= views(items@));
                Json::Array(out)
            },
            Json::Object(members) => {
                let mut out: Vec<(String, Json)> = Vec::new();
                let mut i: usize = 0;
                while i < members.len()
                    invariant
                        i <= members@.len(),
                        out@.len() == i,
                        *self is Object,
                        self->Object_0 == *members,
                        forall|k: int|
                            0 <= k < i ==> out@[k].0@ == members@[k].0@ && out@[k].1@
                                == members@[k].1@,
                    decreases members@.len() - i,
                {
                    assert(decreases_to!(*members => members@[i as int]));
                    out.push((members[i].0.clone(), members[i].1.clone()));
                    i = i + 1;
                }
                assert(member_views(out@) =~= member_views(members@));
                Json::Object(out)
            },
        }
    }
}

/// The value of the last member with the key `key`.
pub open spec fn lookup(members: Seq<(Seq<char>, JsonView)>, key: Seq<char>) -> Option<JsonView>
    decreases members.len(),
{
    if members.len() == 0 {
        None
    } else if members.last().0 == key {
        Some(members.last().1)
    } else {
        lookup(members.drop_last(), key)
    }
}

impl JsonView {
    /// The member `key` of an object; nothing for another value.
    pub open spec fn field(self, key: Seq<char>) -> Option<JsonView> {
        match self {
            JsonView::Object(members) => lookup(members, key),
            _ => None,
        }
    }

    /// The text of a string; nothing for another value.
    pub open spec fn text(self) -> Option<Seq<char>> {
        match self {
            JsonView::Str(t) => Some(t),
            _ => None,
        }
    }

    /// The text of the string member `key`.
    pub open spec fn field_text(self, key: Seq<char>) -> Option<Seq<char>> {
        match self.field(key) {
            Some(v) => v.text(),
            None => None,
        }
    }

    /// The integer of a number that is an integer and not negative.
    pub open spec fn unsigned(self) -> Option<u64> {
        match self {
            JsonView::UInt(n) => Some(n),
            _ => None,
        }
    }

    /// The integer of the unsigned member `key`.
    pub open spec fn field_unsigned(self, key: Seq<char>) -> Option<u64> {
        match self.field(key) {
            Some(v) => v.unsigned(),
            None => None,
        }
    }

    /// The integer of a number that is a signed integer of 64 bits.
    pub open spec fn signed(self) -> Option<i64> {
        match self {
            JsonView::UInt(n) => if n <= i64::MAX {
                Some(n as i64)
            } else {
                None
            },
            JsonView::Int(n) => Some(n),
            _ => None,
        }
    }

    /// The items of an array; nothing for another value.
    pub open spec fn items(self) -> Option<Seq<JsonView>> {
        match self {
            JsonView::Array(items) => Some(items),
            _ => None,
        }
    }
}

/// The model of an optional value.
pub open spec fn opt_json(o: Option<Json>) -> Option<JsonView> {
    match o {
        Some(j) => Some(j@),
        None => None,
    }
}

/// The model of a reference to a value, if there is one.
pub open spec fn ref_json(o: Option<&Json>) -> Option<JsonView> {
    match o {
        Some(j) => Some(j@),
        None => None,
    }
}

/// The text of a reference to a string, if there is one.
pub open spec fn ref_text(o: Option<&String>) -> Option<Seq<char>> {
    match o {
        Some(s) => Some(s@),
        None => None,
    }
}

impl Json {
    /// The string `s`.
    pub fn str(s: &str) -> (j: Json)
        ensures
            j@ == JsonView::Str(s@),
    {
        Json::Str(s.to_owned())
    }

    /// The array of the strings in `list`.
    pub fn strings(list: &Vec<String>) -> (j: Json)
        ensures
            j@ == string_array(texts(list@)),
    {
        broadcast use array_view;

        let mut out: Vec<Json> = Vec::new();
        let mut i: usize = 0;
        while i < list.len()
            invariant
                i <= list@.len(),
                out@.len() == i,
                forall|k: int| 0 <= k < i ==> out@[k]@ == JsonView::Str(list@[k]@),
            decreases list@.len() - i,
        {
            out.push(Json::Str(list[i].clone()));
            i = i + 1;
        }
        assert(views(out@) =~= Seq::new(
            list@.len(),
            |k: int| JsonView::Str(texts(list@)[k]),
        ));
        Json::Array(out)
    }

    /// The array of `items`.
    pub fn array(items: Vec<Json>) -> (j: Json)
        ensures
            j@ == JsonView::Array(views(items@)),
    {
        broadcast use array_view;

        Json::Array(items)
    }

    /// The object with `members`.
    pub fn object(members: Vec<(String, Json)>) -> (j: Json)
        ensures
            j@ == JsonView::Object(member_views(members@)),
    {
        broadcast use object_view;

        Json::Object(members)
    }

    /// The member `key` of an object.
    pub fn get(&self, key: &str) -> (r: Option<&Json>)
        ensures
            ref_json(r) == self@.field(key@),
    {
        broadcast use object_view;

        match self {
            Json::Object(members) => {
                let mut i: usize = members.len();
                let ghost all = member_views(members@);
                assert(all.subrange(0, all.len() as int) =~= all);
                while i > 0
                    invariant
                        i <= members@.len(),
                        all == member_views(members@),
                        lookup(all, key@) == lookup(all.subrange(0, i as int), key@),
                        self@ == JsonView::Object(all),
                    decreases i,
                {
                    i = i - 1;
                    let ghost front = all.subrange(0, i + 1);
                    assert(front.last() == (members@[i as int].0@, members@[i as int].1@));
                    assert(front.drop_last() =~= all.subrange(0, i as int));
                    if str_eq(members[i].0.as_str(), key) {
                        return Some(&members[i].1);
                    }
                }
                None
            },
            _ => None,
        }
    }

    /// The text of a string.
    pub fn as_str(&self) -> (r: Option<&String>)
        ensures
            ref_text(r) == self@.text(),
    {
        match self {
            Json::Str(t) => Some(t),
            _ => None,
        }
    }

    /// The text of the string member `key`.
    pub fn get_str(&self, key: &str) -> (r: Option<&String>)
        ensures
            ref_text(r) == self@.field_text(key@),
    {
        match self.get(key) {
            Some(v) => v.as_str(),
            None => None,
        }
    }

    /// The integer of a number that is an integer and not negative.
    pub fn as_u64(&self) -> (r: Option<u64>)
        ensures
            r == self@.unsigned(),
    {
        match self {
            Json::UInt(n) => Some(*n),
            _ => None,
        }
    }

    /// The integer of the unsigned member `key`.
    pub fn get_u64(&self, key: &str) -> (r: Option<u64>)
        ensures
            r == self@.field_unsigned(key@),
    {
        match self.get(key) {
            Some(v) => v.as_u64(),
            None => None,
        }
    }

    /// The integer of a number that is a signed integer of 64 bits.
    pub fn as_i64(&self) -> (r: Option<i64>)
        ensures
            r == self@.signed(),
    {
        match self {
            Json::UInt(n) => if *n <= 9223372036854775807u64 {
                Some(*n as i64)
            } else {
                None
            },
            Json::Int(n) => Some(*n),
            _ => None,
        }
    }

    /// The items of an array.
    pub fn as_array(&self) -> (r: Option<&Vec<Json>>)
        ensures
            match r {
                Some(v) => self@.items() == Some(views(v@)),
                None => self@.items() is None,
            },
    {
        broadcast use array_view;

        match self {
            Json::Array(items) => Some(items),
            _ => None,
        }
    }
}

/// The array of strings with the texts `list`.
pub open spec fn string_array(list: Seq<Seq<char>>) -> JsonView {
    JsonView::Array(Seq::new(list.len(), |i: int| JsonView::Str(list[i])))
}

/// The object member with the key `key`.
pub fn member(key: &str, value: Json) -> (m: (String, Json))
    ensures
        m.0@ == key@,
        m.1 == value,
{
    (key.to_owned(), value)
}

// ---------------------------------------------------------------------------
// Reading and writing text
// ---------------------------------------------------------------------------

/// A value of `serde_json`.
#[verifier::external_type_specification]
#[verifier::external_body]
pub struct ExValue(serde_json::Value);

/// The error with which `serde_json` refuses a text.
#[verifier::external_type_specification]
#[verifier::external_body]
pub struct ExJsonError(serde_json::Error);

/// What a `serde_json` value holds.
pub uninterp spec fn held_by(v: serde_json::Value) -> JsonView;

/// What `serde_json::from_str` makes of a text.
pub uninterp spec fn value_parsed(text: Seq<char>) -> Result<serde_json::Value, serde_json::Error>;

/// The message of a `serde_json` error.
pub uninterp spec fn message_of(e: serde_json::Error) -> Seq<char>;

/// The `serde_json` value for a value of this library.
pub uninterp spec fn value_for(j: JsonView) -> serde_json::Value;

/// The compact text of a `serde_json` value.
pub uninterp spec fn compact_text(v: serde_json::Value) -> Seq<char>;

/// `serde_json::from_str` at the type `Value`: the text read as one JSON value, or
/// an error. The contract says only that the text decides the result.
#[verifier::external_body]
fn parse_value(text: &str) -> (r: Result<serde_json::Value, serde_json::Error>)
    ensures
        r == value_parsed(text@),
{
    serde_json::from_str(text)
}

/// The `Display` text of a `serde_json::Error`. The contract says only that the
/// error decides it.
#[verifier::external_body]
fn error_message(e: &serde_json::Error) -> (s: String)
    ensures
        s@ == message_of(*e),
{
    e.to_string()
}

/// Takes a `serde_json::Value` apart, variant by variant. The contract says that
/// the result is the model that `held_by` gives the value.
#[verifier::external_body]
fn from_value(v: serde_json::Value) -> (j: Json)
    ensures
        j@ == held_by(v),
{
    match v {
        serde_json::Value::Null => Json::Null,
        serde_json::Value::Bool(b) => Json::Bool(b),
        serde_json::Value::Number(n) => match (n.as_u64(), n.as_i64()) {
            (Some(u), _) => Json::UInt(u),
            (None, Some(i)) => Json::Int(i),
            (None, None) => Json::Float(n.to_string()),
        },
        serde_json::Value::String(t) => Json::Str(t),
        serde_json::Value::Array(a) => Json::Array(a.into_iter().map(from_value).collect()),
        serde_json::Value::Object(m) => {
            Json::Object(m.into_iter().map(|(k, v)| (k, from_value(v))).collect())
        },
    }
}

/// Builds the `serde_json::Value` for a value, variant by variant. The contract
/// says only that the value decides the result.
#[verifier::external_body]
fn to_value(j: &Json) -> (v: serde_json::Value)
    ensures
        v == value_for(j@),
{
    match j {
        Json::Null => serde_json::Value::Null,
        Json::Bool(b) => serde_json::Value::from(*b),
        Json::UInt(n) => serde_json::Value::from(*n),
        Json::Int(n) => serde_json::Value::from(*n),
        Json::Float(t) => {
            serde_json::Value::from(t.parse().ok().and_then(serde_json::Number::from_f64))
        },
        Json::Str(t) => serde_json::Value::from(t.as_str()),
        Json::Array(a) => a.iter().map(to_value).collect(),
        Json::Object(m) => m.iter().map(|(k, v)| (k.clone(), to_value(v))).collect(),
    }
}

/// `Value::to_string`: the value as compact JSON text. The contract says only that
/// the value decides it.
#[verifier::external_body]
fn value_text(v: &serde_json::Value) -> (s: String)
    ensures
        s@ == compact_text(*v),
{
    v.to_string()
}

/// What is read from a JSON text: a value, or the message of the error.
pub open spec fn parsed(text: Seq<char>) -> Result<JsonView, Seq<char>> {
    match value_parsed(text) {
        Ok(v) => Ok(held_by(v)),
        Err(e) => Err(message_of(e)),
    }
}

/// The compact text of a value.
pub open spec fn written(j: JsonView) -> Seq<char> {
    compact_text(value_for(j))
}

/// The model of the outcome of reading a text.
pub open spec fn outcome(r: Result<Json, String>) -> Result<JsonView, Seq<char>> {
    match r {
        Ok(j) => Ok(j@),
        Err(e) => Err(e@),
    }
}

/// Reads `text` as one JSON value.
pub fn parse_json(text: &str) -> (r: Result<Json, String>)
    ensures
        outcome(r) == parsed(text@),
{
    match parse_value(text) {
        Ok(v) => Ok(from_value(v)),
        Err(e) => Err(error_message(&e)),
    }
}

/// Writes a value as compact JSON text.
pub fn write_json(j: &Json) -> (s: String)
    ensures
        s@ == written(j@),
{
    value_text(&to_value(j))
}

} // verus!
