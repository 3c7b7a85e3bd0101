pub mod diagnostics;
pub mod ingress;
pub mod metrics;

use crate::json::{
    json_pretty_text, member, member_views, pretty_string, readable, reads_back, views, Json, JsonValue,
};
use crate::types::{text_answer, Tool, ToolCallResponse, ToolModel};
use vstd::prelude::*;

verus! {

/// The input schema of a tool: an object with the given properties, of
/// which the given ones are required.
pub open spec fn object_schema(properties: Seq<(Seq<char>, Json)>, required: Seq<Json>) -> Json {
    Json::Object(
        seq![
            ("properties"@, Json::Object(properties)),
            ("required"@, Json::Array(required)),
            ("type"@, Json::Str("object"@)),
        ],
    )
}

/// The schema of a string property, with its description when it has one.
pub open spec fn string_property(description: Option<Seq<char>>) -> Json {
    match description {
        Some(d) => Json::Object(seq![("description"@, Json::Str(d)), ("type"@, Json::Str("string"@))]),
        None => Json::Object(seq![("type"@, Json::Str("string"@))]),
    }
}

/// The schema of an object with one required string property.
pub open spec fn one_string_schema(name: Seq<char>, description: Option<Seq<char>>) -> Json {
    object_schema(seq![(name, string_property(description))], seq![Json::Str(name)])
}

/// Builds the input schema of a tool.
pub fn object_schema_json(properties: Vec<(String, JsonValue)>, required: Vec<JsonValue>) -> (r: JsonValue)
    ensures
        r@ == object_schema(member_views(properties@), views(required@)),
{
    let members = vec![
        member("properties", JsonValue::object(properties)),
        member("required", JsonValue::array(required)),
        member("type", JsonValue::text("object")),
    ];
    let r = JsonValue::object(members);
    assert(member_views(members@) =~= object_schema(member_views(properties@), views(required@))->Object_0);
    r
}

/// Builds the schema of a string property.
pub fn string_property_json(description: Option<&str>) -> (r: JsonValue)
    ensures
        r@ == string_property(crate::json::opt_str_view(description)),
{
    match description {
        Some(d) => {
            let members = vec![member("description", JsonValue::text(d)), member("type", JsonValue::text("string"))];
            let r = JsonValue::object(members);
            assert(member_views(members@) =~= string_property(Some(d@))->Object_0);
            r
        },
        None => {
            let members = vec![member("type", JsonValue::text("string"))];
            let r = JsonValue::object(members);
            assert(member_views(members@) =~= string_property(None)->Object_0);
            r
        },
    }
}

/// Builds the schema of an object with one required string property.
pub fn one_string_schema_json(name: &str, description: Option<&str>) -> (r: JsonValue)
    ensures
        r@ == one_string_schema(name@, crate::json::opt_str_view(description)),
{
    let properties = vec![member(name, string_property_json(description))];
    let required = vec![JsonValue::text(name)];
    assert(member_views(properties@) =~= seq![(name@, string_property(crate::json::opt_str_view(description)))]);
    assert(views(required@) =~= seq![Json::Str(name@)]);
    object_schema_json(properties, required)
}

/// The `ping` tool.
pub open spec fn ping_tool() -> ToolModel {
    ToolModel {
        name: "ping"@,
        description: "A simple ping tool to verify connectivity."@,
        input_schema: object_schema(Seq::empty(), Seq::empty()),
    }
}

/// The `analyze_pod_failure` tool.
pub open spec fn analyze_pod_failure_tool() -> ToolModel {
    ToolModel {
        name: "analyze_pod_failure"@,
        description: "Analyzes pod failures in a specific namespace."@,
        input_schema: one_string_schema("namespace"@, None),
    }
}

/// Describes the `ping` tool.
pub fn get_mock_ping_tool() -> (r: Tool)
    ensures
        r@ == ping_tool(),
{
    let properties: Vec<(String, JsonValue)> = Vec::new();
    let required: Vec<JsonValue> = Vec::new();
    assert(member_views(properties@) =~= Seq::empty());
    assert(views(required@) =~= Seq::empty());
    Tool {
        name: String::from_str("ping"),
        description: String::from_str("A simple ping tool to verify connectivity."),
        input_schema: object_schema_json(properties, required),
    }
}

/// Answers a call of `ping`, whatever its arguments.
pub fn call_ping_tool(_args: Option<JsonValue>) -> (r: ToolCallResponse)
    ensures
        r@ == text_answer("pong"@),
{
    ToolCallResponse::text(String::from_str("pong"))
}

/// Describes the `analyze_pod_failure` tool.
pub fn get_analyze_pod_failure_tool() -> (r: Tool)
    ensures
        r@ == analyze_pod_failure_tool(),
{
    Tool {
        name: String::from_str("analyze_pod_failure"),
        description: String::from_str("Analyzes pod failures in a specific namespace."),
        input_schema: one_string_schema_json("namespace", None),
    }
}

/// The indented text of a diagnostic result, as `serde_json::to_string_pretty`
/// writes it; serde_json reads the result back from it when it reads back
/// unchanged.
pub fn safe_serialize_json(data: &JsonValue) -> (r: String)
    ensures
        r@ == match json_pretty_text(data@) {
            Some(t) => t,
            None => "Failed to serialize diagnostic data"@,
        },
        readable(data@) ==> reads_back(r@, data@),
{
    match pretty_string(data) {
        Some(t) => t,
        None => String::from_str("Failed to serialize diagnostic data"),
    }
}

/// Describes the `check_ingress_routing` tool.
pub fn get_check_ingress_routing_tool() -> (r: Tool)
    ensures
        r@ == ingress::check_ingress_routing_tool(),
{
    ingress::get_check_ingress_routing_tool()
}

/// Describes the `get_system_metrics` tool.
pub fn get_get_system_metrics_tool() -> (r: Tool)
    ensures
        r@ == metrics::get_system_metrics_tool(),
{
    metrics::get_get_system_metrics_tool()
}

} // verus!
