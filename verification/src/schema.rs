//! JSON schemas for the inputs of tools.

use vstd::prelude::*;

use crate::json::{member, member_views, string_array, Json, JsonView};
use crate::text::texts;

verus! {

/// The schema of a value of the type `t`.
pub open spec fn typed(t: Seq<char>) -> JsonView {
    JsonView::Object(seq![("type"@, JsonView::Str(t))])
}

/// The schema of a value of the type `t`, with a description.
pub open spec fn described(t: Seq<char>, description: Seq<char>) -> JsonView {
    JsonView::Object(
        seq![("type"@, JsonView::Str(t)), ("description"@, JsonView::Str(description))],
    )
}

/// The schema of a string that is one of `values`.
pub open spec fn one_of(values: Seq<Seq<char>>) -> JsonView {
    JsonView::Object(seq![("type"@, JsonView::Str("string"@)), ("enum"@, string_array(values))])
}

/// The schema of an array of `items`.
pub open spec fn array_of(items: JsonView) -> JsonView {
    JsonView::Object(seq![("type"@, JsonView::Str("array"@)), ("items"@, items)])
}

/// The schema of an object with the given properties.
pub open spec fn object_with(properties: Seq<(Seq<char>, JsonView)>) -> JsonView {
    JsonView::Object(
        seq![
            ("type"@, JsonView::Str("object"@)),
            ("properties"@, JsonView::Object(properties)),
        ],
    )
}

/// The schema of an object with the given properties, some of which are required.
pub open spec fn object_requiring(
    required: Seq<Seq<char>>,
    properties: Seq<(Seq<char>, JsonView)>,
) -> JsonView {
    JsonView::Object(
        seq![
            ("type"@, JsonView::Str("object"@)),
            ("required"@, string_array(required)),
            ("properties"@, JsonView::Object(properties)),
        ],
    )
}

/// The schema of an integer that is at least `minimum`.
pub open spec fn integer_from(minimum: u64) -> JsonView {
    JsonView::Object(
        seq![("type"@, JsonView::Str("integer"@)), ("minimum"@, JsonView::UInt(minimum))],
    )
}

/// The schema of an integer between 1 and 50 with a default.
pub open spec fn limit_with(default: u64) -> JsonView {
    JsonView::Object(
        seq![
            ("type"@, JsonView::Str("integer"@)),
            ("default"@, JsonView::UInt(default)),
            ("minimum"@, JsonView::UInt(1)),
            ("maximum"@, JsonView::UInt(50)),
        ],
    )
}

/// Builds the schema of a value of the type `t`.
pub fn make_typed(t: &str) -> (j: Json)
    ensures
        j@ == typed(t@),
{
    let members = vec![member("type", Json::str(t))];
    assert(member_views(members@) =~= typed(t@)->Object_0);
    Json::object(members)
}

/// Builds the schema of a value with a description.
pub fn make_described(t: &str, description: &str) -> (j: Json)
    ensures
        j@ == described(t@, description@),
{
    let members = vec![
        member("type", Json::str(t)),
        member("description", Json::str(description)),
    ];
    assert(member_views(members@) =~= described(t@, description@)->Object_0);
    Json::object(members)
}

/// Builds the schema of a string that is one of `values`.
pub fn make_one_of(values: Vec<String>) -> (j: Json)
    ensures
        j@ == one_of(texts(values@)),
{
    let members = vec![
        member("type", Json::str("string")),
        member("enum", Json::strings(&values)),
    ];
    assert(member_views(members@) =~= one_of(texts(values@))->Object_0);
    Json::object(members)
}

/// Builds the schema of an array.
pub fn make_array_of(items: Json) -> (j: Json)
    ensures
        j@ == array_of(items@),
{
    let members = vec![member("type", Json::str("array")), member("items", items)];
    assert(member_views(members@) =~= array_of(items@)->Object_0);
    Json::object(members)
}

/// Builds the schema of an object.
pub fn make_object_with(properties: Vec<(String, Json)>) -> (j: Json)
    ensures
        j@ == object_with(member_views(properties@)),
{
    let ghost p = member_views(properties@);
    let members = vec![
        member("type", Json::str("object")),
        member("properties", Json::object(properties)),
    ];
    assert(member_views(members@) =~= object_with(p)->Object_0);
    Json::object(members)
}

/// Builds the schema of an object with required properties.
pub fn make_object_requiring(required: Vec<String>, properties: Vec<(String, Json)>) -> (j: Json)
    ensures
        j@ == object_requiring(texts(required@), member_views(properties@)),
{
    let ghost p = member_views(properties@);
    let members = vec![
        member("type", Json::str("object")),
        member("required", Json::strings(&required)),
        member("properties", Json::object(properties)),
    ];
    assert(member_views(members@) =~= object_requiring(texts(required@), p)->Object_0);
    Json::object(members)
}

/// Builds the schema of an integer that is at least `minimum`.
pub fn make_integer_from(minimum: u64) -> (j: Json)
    ensures
        j@ == integer_from(minimum),
{
    let members = vec![
        member("type", Json::str("integer")),
        member("minimum", Json::UInt(minimum)),
    ];
    assert(member_views(members@) =~= integer_from(minimum)->Object_0);
    Json::object(members)
}

/// Builds the schema of an integer between 1 and 50 with a default.
pub fn make_limit_with(default: u64) -> (j: Json)
    ensures
        j@ == limit_with(default),
{
    let members = vec![
        member("type", Json::str("integer")),
        member("default", Json::UInt(default)),
        member("minimum", Json::UInt(1)),
        member("maximum", Json::UInt(50)),
    ];
    assert(member_views(members@) =~= limit_with(default)->Object_0);
    Json::object(members)
}

} // verus!
