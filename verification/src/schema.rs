//! The pieces that JSON schemas are put together from.

use crate::json::{Json, JsonView, ObjectBuilder};
use vstd::prelude::*;

verus! {

/// The array of the given names.
pub open spec fn name_array(names: Seq<&'static str>) -> JsonView {
    JsonView::Array(Seq::new(names.len(), |i: int| JsonView::Str(names[i]@)))
}

/// The schema of a value of one type: `{"type": name}`.
pub open spec fn typed(name: Seq<char>) -> JsonView {
    JsonView::Object(seq![("type"@, JsonView::Str(name))])
}

/// The schema of a value of one of several types: `{"type": [names]}`.
pub open spec fn typed_any(names: Seq<&'static str>) -> JsonView {
    JsonView::Object(seq![("type"@, name_array(names))])
}

/// The schema of a string that is one of the given values.
pub open spec fn one_of(values: Seq<&'static str>) -> JsonView {
    JsonView::Object(seq![("enum"@, name_array(values)), ("type"@, JsonView::Str("string"@))])
}

/// The schema of an object: its properties, the names of those that must be there, and
/// its type.
pub open spec fn object_schema(
    properties: Seq<(Seq<char>, JsonView)>,
    required: JsonView,
    kind: JsonView,
) -> JsonView {
    JsonView::Object(
        seq![
            ("properties"@, JsonView::Object(properties)),
            ("required"@, required),
            ("type"@, kind),
        ],
    )
}

/// The schema of a list: the schema of its items, and its type.
pub open spec fn list_schema(items: JsonView, kind: JsonView) -> JsonView {
    JsonView::Object(seq![("items"@, items), ("type"@, kind)])
}

/// The list that holds one name.
pub fn single(name: &'static str) -> (r: Vec<&'static str>)
    ensures
        r@ == seq![name],
{
    let mut r: Vec<&'static str> = Vec::new();
    r.push(name);
    assert(r@ =~= seq![name]);
    r
}

/// The array of the given names.
pub fn names_json(names: Vec<&'static str>) -> (r: Json)
    ensures
        r@ == name_array(names@),
{
    let mut out: Vec<Json> = Vec::new();
    let mut i: usize = 0;
    while i < names.len()
        invariant
            i <= names.len(),
            out@.len() == i,
            forall|j: int| 0 <= j < i ==> (#[trigger] out@[j])@ == JsonView::Str(names@[j]@),
        decreases names.len() - i,
    {
        out.push(Json::text(names[i]));
        i += 1;
    }
    let r = Json::array(out);
    assert(r@->Array_0 =~= name_array(names@)->Array_0);
    r
}

/// The schema of a value of one type.
pub fn typed_json(name: &str) -> (r: Json)
    ensures
        r@ == typed(name@),
{
    let b = ObjectBuilder::new().with("type", Json::text(name));
    assert(b@ =~= typed(name@)->Object_0);
    b.build()
}

/// The schema of a value of one of several types.
pub fn typed_any_json(names: Vec<&'static str>) -> (r: Json)
    ensures
        r@ == typed_any(names@),
{
    let b = ObjectBuilder::new().with("type", names_json(names));
    assert(b@ =~= typed_any(names@)->Object_0);
    b.build()
}

/// The schema of a string that is one of the given values.
pub fn one_of_json(values: Vec<&'static str>) -> (r: Json)
    ensures
        r@ == one_of(values@),
{
    let b = ObjectBuilder::new().with("enum", names_json(values)).with("type", Json::text("string"));
    assert(b@ =~= one_of(values@)->Object_0);
    b.build()
}

/// The schema of an object.
pub fn object_schema_json(properties: ObjectBuilder, required: Json, kind: Json) -> (r: Json)
    ensures
        r@ == object_schema(properties@, required@, kind@),
{
    let b = ObjectBuilder::new().with("properties", properties.build()).with(
        "required",
        required,
    ).with("type", kind);
    assert(b@ =~= object_schema(properties@, required@, kind@)->Object_0);
    b.build()
}

/// The schema of a list.
pub fn list_schema_json(items: Json, kind: Json) -> (r: Json)
    ensures
        r@ == list_schema(items@, kind@),
{
    let b = ObjectBuilder::new().with("items", items).with("type", kind);
    assert(b@ =~= list_schema(items@, kind@)->Object_0);
    b.build()
}

/// The schema of a function call: its name and its arguments, both strings and both
/// required.
pub open spec fn call_schema(kind: JsonView) -> JsonView {
    object_schema(
        Seq::empty().push(("arguments"@, typed("string"@))).push(("name"@, typed("string"@))),
        name_array(seq!["name", "arguments"]),
        kind,
    )
}

/// The schema of a function call.
pub fn call_schema_json(kind: Json) -> (r: Json)
    ensures
        r@ == call_schema(kind@),
{
    object_schema_json(
        ObjectBuilder::new().with("arguments", typed_json("string")).with(
            "name",
            typed_json("string"),
        ),
        names_json(vec!["name", "arguments"]),
        kind,
    )
}

/// The schema of one tool call of a message.
pub open spec fn tool_call_schema() -> JsonView {
    object_schema(
        Seq::empty().push(("function"@, call_schema(JsonView::Str("object"@)))).push(
            ("id"@, typed("string"@)),
        ).push(("type"@, one_of(seq!["function"]))),
        name_array(seq!["type", "function", "id"]),
        JsonView::Str("object"@),
    )
}

/// The schema of one tool call of a message.
pub fn tool_call_schema_json() -> (r: Json)
    ensures
        r@ == tool_call_schema(),
{
    object_schema_json(
        ObjectBuilder::new().with("function", call_schema_json(Json::text("object"))).with(
            "id",
            typed_json("string"),
        ).with("type", one_of_json(single("function"))),
        names_json(vec!["type", "function", "id"]),
        Json::text("object"),
    )
}

/// The schema of the message of a choice.
pub open spec fn message_schema() -> JsonView {
    object_schema(
        Seq::empty().push(("content"@, typed_any(seq!["string", "array", "null"]))).push(
            ("function_call"@, call_schema(name_array(seq!["object", "null"]))),
        ).push(("refusal"@, typed_any(seq!["boolean", "null"]))).push(
            ("role"@, one_of(seq!["assistant"])),
        ).push(
            ("tool_calls"@, list_schema(tool_call_schema(), name_array(seq!["array", "null"]))),
        ),
        name_array(seq!["role"]),
        JsonView::Str("object"@),
    )
}

/// The schema of the message of a choice.
pub fn message_schema_json() -> (r: Json)
    ensures
        r@ == message_schema(),
{
    object_schema_json(
        ObjectBuilder::new().with("content", typed_any_json(vec!["string", "array", "null"])).with(
            "function_call",
            call_schema_json(names_json(vec!["object", "null"])),
        ).with("refusal", typed_any_json(vec!["boolean", "null"])).with(
            "role",
            one_of_json(single("assistant")),
        ).with(
            "tool_calls",
            list_schema_json(tool_call_schema_json(), names_json(vec!["array", "null"])),
        ),
        names_json(single("role")),
        Json::text("object"),
    )
}

/// The schema of one choice of a response.
pub open spec fn choice_schema() -> JsonView {
    object_schema(
        Seq::empty().push(("finish_reason"@, typed("string"@))).push(
            ("message"@, message_schema()),
        ),
        name_array(seq!["index", "message", "finish_reason"]),
        JsonView::Str("object"@),
    )
}

/// The schema of one choice of a response.
pub fn choice_schema_json() -> (r: Json)
    ensures
        r@ == choice_schema(),
{
    object_schema_json(
        ObjectBuilder::new().with("finish_reason", typed_json("string")).with(
            "message",
            message_schema_json(),
        ),
        names_json(vec!["index", "message", "finish_reason"]),
        Json::text("object"),
    )
}

/// The schema of a sample: the envelope of what a model answered. It is fixed.
pub open spec fn sample_schema_view() -> JsonView {
    object_schema(
        Seq::empty().push(
            ("choices"@, list_schema(choice_schema(), JsonView::Str("array"@))),
        ).push(("input_tools"@, list_schema(typed("object"@), JsonView::Str("array"@)))).push(
            ("model"@, typed("string"@)),
        ).push(("output_audio"@, typed_any(seq!["object", "null"]))).push(
            ("output_json"@, typed("object"@)),
        ).push(("output_reasoning_summary"@, typed_any(seq!["string", "null"]))).push(
            ("output_text"@, typed("string"@)),
        ).push(("output_tools"@, list_schema(typed("object"@), JsonView::Str("array"@)))),
        name_array(seq!["model", "choices"]),
        JsonView::Str("object"@),
    )
}

/// The schema of a sample.
pub fn sample_schema() -> (r: Json)
    ensures
        r@ == sample_schema_view(),
{
    object_schema_json(
        ObjectBuilder::new().with(
            "choices",
            list_schema_json(choice_schema_json(), Json::text("array")),
        ).with("input_tools", list_schema_json(typed_json("object"), Json::text("array"))).with(
            "model",
            typed_json("string"),
        ).with("output_audio", typed_any_json(vec!["object", "null"])).with(
            "output_json",
            typed_json("object"),
        ).with("output_reasoning_summary", typed_any_json(vec!["string", "null"])).with(
            "output_text",
            typed_json("string"),
        ).with("output_tools", list_schema_json(typed_json("object"), Json::text("array"))),
        names_json(vec!["model", "choices"]),
        Json::text("object"),
    )
}

} // verus!
