//! Reading records out of JSON values.
//!
//! A record is an object that has the fields as members, or an array that lists
//! them in order. In an object, members that are no field are ignored; an array
//! has no more items than there are fields.

use vstd::prelude::*;

use crate::json::{ref_json, views, array_view, object_view, member_views, Json, JsonView};
use crate::text::opt_text;

verus! {

/// `j` has the form of a record with `count` fields.
pub open spec fn is_record(j: JsonView, count: nat) -> bool {
    match j {
        JsonView::Object(_) => true,
        JsonView::Array(items) => items.len() <= count,
        _ => false,
    }
}

/// `j` has the form of a record with `count` fields, none of which may be missing
/// from a list.
pub open spec fn is_full_record(j: JsonView, count: nat) -> bool {
    match j {
        JsonView::Object(_) => true,
        JsonView::Array(items) => items.len() == count,
        _ => false,
    }
}

/// Tells whether `j` has the form of a full record with `count` fields.
pub fn has_full_form(j: &Json, count: usize) -> (r: bool)
    ensures
        r == is_full_record(j@, count as nat),
{
    broadcast use {array_view, object_view};

    match j {
        Json::Object(_) => true,
        Json::Array(items) => items.len() == count,
        _ => false,
    }
}

/// The field `key` of a record, which stands at `index` if the record is an array.
pub open spec fn field_at(j: JsonView, key: Seq<char>, index: int) -> Option<JsonView> {
    match j {
        JsonView::Array(items) => if 0 <= index < items.len() {
            Some(items[index])
        } else {
            None
        },
        _ => j.field(key),
    }
}

/// Tells whether `j` has the form of a record with `count` fields.
pub fn has_record_form(j: &Json, count: usize) -> (r: bool)
    ensures
        r == is_record(j@, count as nat),
{
    broadcast use {array_view, object_view};

    match j {
        Json::Object(_) => true,
        Json::Array(items) => items.len() <= count,
        _ => false,
    }
}

/// Returns the field `key` of a record.
pub fn record_field<'a>(j: &'a Json, key: &str, index: usize) -> (r: Option<&'a Json>)
    ensures
        ref_json(r) == field_at(j@, key@, index as int),
{
    broadcast use {array_view, object_view};

    match j {
        Json::Array(items) => if index < items.len() {
            Some(&items[index])
        } else {
            None
        },
        _ => j.get(key),
    }
}

/// A required text. Nothing if the value is missing or no string.
pub open spec fn text_of(v: Option<JsonView>) -> Option<Seq<char>> {
    match v {
        Some(JsonView::Str(t)) => Some(t),
        _ => None,
    }
}

/// An optional text, absent if the value is missing or null. Nothing if the value
/// is something other than a string.
pub open spec fn maybe_text_of(v: Option<JsonView>) -> Option<Option<Seq<char>>> {
    match v {
        None => Some(None),
        Some(JsonView::Null) => Some(None),
        Some(JsonView::Str(t)) => Some(Some(t)),
        _ => None,
    }
}

/// A truth value that is false if it is missing. Nothing if it is no truth value.
pub open spec fn flag_of(v: Option<JsonView>) -> Option<bool> {
    match v {
        None => Some(false),
        Some(JsonView::Bool(b)) => Some(b),
        _ => None,
    }
}

/// A required number. Nothing if the value is missing or no unsigned integer.
pub open spec fn number_of(v: Option<JsonView>) -> Option<u64> {
    match v {
        Some(JsonView::UInt(n)) => Some(n),
        _ => None,
    }
}

/// An optional number, absent if the value is missing or null. Nothing if the
/// value is something other than an unsigned integer.
pub open spec fn maybe_number_of(v: Option<JsonView>) -> Option<Option<u64>> {
    match v {
        None => Some(None),
        Some(JsonView::Null) => Some(None),
        Some(JsonView::UInt(n)) => Some(Some(n)),
        _ => None,
    }
}

/// The name of a variant without data: a string, or an object with the name as its
/// only member, which is null.
pub open spec fn variant_of(v: JsonView) -> Option<Seq<char>> {
    match v {
        JsonView::Str(t) => Some(t),
        JsonView::Object(m) => if m.len() == 1 && m[0].1 is Null {
            Some(m[0].0)
        } else {
            None
        },
        _ => None,
    }
}

/// A required record field that is present. Missing and null count as absent.
pub open spec fn not_null(v: Option<JsonView>) -> Option<JsonView> {
    match v {
        Some(JsonView::Null) => None,
        other => other,
    }
}

/// Drops a field that is null.
pub fn drop_null<'a>(v: Option<&'a Json>) -> (r: Option<&'a Json>)
    ensures
        ref_json(r) == not_null(ref_json(v)),
{
    match v {
        Some(Json::Null) => None,
        other => other,
    }
}

/// The texts of an array of strings. Nothing if the value is no such array.
pub open spec fn text_list_of(v: JsonView) -> Option<Seq<Seq<char>>> {
    match v {
        JsonView::Array(items) => if forall|i: int|
            0 <= i < items.len() ==> (#[trigger] items[i]) is Str {
            Some(Seq::new(items.len(), |i: int| items[i]->Str_0))
        } else {
            None
        },
        _ => None,
    }
}

/// The model of an optional text that could not be read.
pub open spec fn opt_opt_text(o: Option<Option<String>>) -> Option<Option<Seq<char>>> {
    match o {
        Some(t) => Some(opt_text(t)),
        None => None,
    }
}

/// Reads a required text.
pub fn read_text(v: Option<&Json>) -> (r: Option<String>)
    ensures
        opt_text(r) == text_of(ref_json(v)),
{
    match v {
        Some(Json::Str(t)) => Some(t.clone()),
        _ => None,
    }
}

/// Reads an optional text.
pub fn read_maybe_text(v: Option<&Json>) -> (r: Option<Option<String>>)
    ensures
        opt_opt_text(r) == maybe_text_of(ref_json(v)),
{
    match v {
        None => Some(None),
        Some(Json::Null) => Some(None),
        Some(Json::Str(t)) => Some(Some(t.clone())),
        _ => None,
    }
}

/// Reads a truth value.
pub fn read_flag(v: Option<&Json>) -> (r: Option<bool>)
    ensures
        r == flag_of(ref_json(v)),
{
    match v {
        None => Some(false),
        Some(Json::Bool(b)) => Some(*b),
        _ => None,
    }
}

/// Reads a required number.
pub fn read_number(v: Option<&Json>) -> (r: Option<u64>)
    ensures
        r == number_of(ref_json(v)),
{
    match v {
        Some(Json::UInt(n)) => Some(*n),
        _ => None,
    }
}

/// Reads an optional number.
pub fn read_maybe_number(v: Option<&Json>) -> (r: Option<Option<u64>>)
    ensures
        r == maybe_number_of(ref_json(v)),
{
    match v {
        None => Some(None),
        Some(Json::Null) => Some(None),
        Some(Json::UInt(n)) => Some(Some(*n)),
        _ => None,
    }
}

/// Reads the name of a variant without data.
pub fn read_variant(v: &Json) -> (r: Option<String>)
    ensures
        opt_text(r) == variant_of(v@),
{
    broadcast use object_view;

    match v {
        Json::Str(t) => Some(t.clone()),
        Json::Object(m) => {
            assert(v@ == JsonView::Object(member_views(m@)));
            if m.len() == 1 {
                assert(member_views(m@)[0] == (m@[0].0@, m@[0].1@));
                match &m[0].1 {
                    Json::Null => Some(m[0].0.clone()),
                    _ => None,
                }
            } else {
                None
            }
        },
        _ => None,
    }
}

/// The model of an optional list of texts.
pub open spec fn opt_texts(o: Option<Vec<String>>) -> Option<Seq<Seq<char>>> {
    match o {
        Some(v) => Some(crate::text::texts(v@)),
        None => None,
    }
}

/// Reads an array of strings.
pub fn read_text_list(v: &Json) -> (r: Option<Vec<String>>)
    ensures
        opt_texts(r) == text_list_of(v@),
{
    broadcast use array_view;

    match v {
        Json::Array(items) => {
            assert(v@ == JsonView::Array(views(items@)));
            let mut out: Vec<String> = Vec::new();
            let mut i: usize = 0;
            while i < items.len()
                invariant
                    v@ == JsonView::Array(views(items@)),
                    i <= items@.len(),
                    out@.len() == i,
                    forall|k: int| 0 <= k < i ==> (#[trigger] views(items@)[k]) is Str,
                    forall|k: int|
                        0 <= k < i ==> (#[trigger] out@[k])@ == views(items@)[k]->Str_0,
                decreases items@.len() - i,
            {
                assert(views(items@)[i as int] == items@[i as int]@);
                match &items[i] {
                    Json::Str(t) => {
                        out.push(t.clone());
                    },
                    _ => {
                        return None;
                    },
                }
                i = i + 1;
            }
            assert(crate::text::texts(out@) =~= Seq::new(
                views(items@).len(),
                |k: int| views(items@)[k]->Str_0,
            ));
            Some(out)
        },
        _ => None,
    }
}

} // verus!
