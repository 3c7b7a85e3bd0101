use crate::json::{member, member_views, outcome_view, string_member, Json, JsonValue};
use crate::tools::{one_string_schema, one_string_schema_json};
use crate::types::{Tool, ToolModel};
use vstd::prelude::*;

verus! {

/// The query that `get_system_metrics` runs: the string argument `promql`;
/// without it, the error.
pub open spec fn metrics_query(args: Json) -> Result<Seq<char>, Seq<char>> {
    match string_member(args, "promql"@) {
        Some(q) => Ok(q),
        None => Err("Missing or invalid 'promql' parameter"@),
    }
}

/// The result of `get_system_metrics` for the metrics that the cluster gave
/// back.
pub open spec fn metrics_result(metrics: Json) -> Json {
    Json::Object(
        seq![
            ("data"@, metrics),
            ("message"@, Json::Str("System metrics retrieved successfully."@)),
            ("status"@, Json::Str("success"@)),
        ],
    )
}

/// The outcome of `get_system_metrics` for what the cluster gave back: its
/// error is passed on unchanged.
pub open spec fn metrics_outcome(outcome: Result<Json, Seq<char>>) -> Result<Json, Seq<char>> {
    match outcome {
        Ok(metrics) => Ok(metrics_result(metrics)),
        Err(e) => Err(e),
    }
}

/// The view of an outcome that is a text or an error message.
pub open spec fn text_outcome_view(r: Result<String, String>) -> Result<Seq<char>, Seq<char>> {
    match r {
        Ok(s) => Ok(s@),
        Err(e) => Err(e@),
    }
}

/// The query run is the string argument `promql`, unchanged; without one,
/// the call fails with the missing-query message.
pub proof fn law_metrics_query_is_the_argument(args: Json)
    ensures
        string_member(args, "promql"@) matches Some(q) ==> metrics_query(args) == Ok::<Seq<char>, Seq<char>>(q),
        string_member(args, "promql"@) is None ==> metrics_query(args) is Err,
{
}

/// The first step of `get_system_metrics`: the query to run, or the error
/// when the arguments hold none.
pub fn metrics_promql(args: &JsonValue) -> (r: Result<String, String>)
    ensures
        text_outcome_view(r) == metrics_query(args@),
{
    match args.string_member("promql") {
        Some(q) => Ok(String::from_str(q)),
        None => Err(String::from_str("Missing or invalid 'promql' parameter")),
    }
}

/// The last step of `get_system_metrics`: the result for what the cluster
/// gave back.
pub fn system_metrics_outcome(outcome: Result<JsonValue, String>) -> (r: Result<JsonValue, String>)
    ensures
        outcome_view(r) == metrics_outcome(outcome_view(outcome)),
{
    match outcome {
        Ok(metrics) => {
            let members = vec![
                member("data", metrics),
                member("message", JsonValue::text("System metrics retrieved successfully.")),
                member("status", JsonValue::text("success")),
            ];
            let ghost metrics_view = members@[0].1@;
            let r = JsonValue::object(members);
            assert(member_views(members@) =~= metrics_result(metrics_view)->Object_0);
            Ok(r)
        },
        Err(e) => Err(e),
    }
}

/// The `get_system_metrics` tool.
pub open spec fn get_system_metrics_tool() -> ToolModel {
    ToolModel {
        name: "get_system_metrics"@,
        description: "Queries Prometheus for raw system or application metrics using PromQL."@,
        input_schema: one_string_schema(
            "promql"@,
            Some("Prometheus Query Language (PromQL) expression to execute."@),
        ),
    }
}

/// Describes the `get_system_metrics` tool.
pub fn get_get_system_metrics_tool() -> (r: Tool)
    ensures
        r@ == get_system_metrics_tool(),
{
    Tool {
        name: String::from_str("get_system_metrics"),
        description: String::from_str(
            "Queries Prometheus for raw system or application metrics using PromQL.",
        ),
        input_schema: one_string_schema_json(
            "promql",
            Some("Prometheus Query Language (PromQL) expression to execute."),
        ),
    }
}

} // verus!
