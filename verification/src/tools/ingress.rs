use crate::json::{member, member_views, outcome_view, string_member, Json, JsonValue};
use crate::tools::{one_string_schema, one_string_schema_json};
use crate::types::{Tool, ToolModel};
use vstd::prelude::*;

verus! {

/// The namespace that `check_ingress_routing` looks at: the string argument
/// `namespace`, and `default` without it.
pub open spec fn ingress_target(args: Json) -> Seq<char> {
    match string_member(args, "namespace"@) {
        Some(ns) => ns,
        None => "default"@,
    }
}

/// The result of `check_ingress_routing` for the status that the cluster
/// gave back.
pub open spec fn ingress_result(status: Json) -> Json {
    Json::Object(
        seq![
            ("data"@, status),
            ("message"@, Json::Str("Ingress routing status retrieved successfully."@)),
            ("status"@, Json::Str("success"@)),
        ],
    )
}

/// The outcome of `check_ingress_routing` for what the cluster gave back:
/// its error is passed on unchanged.
pub open spec fn ingress_outcome(outcome: Result<Json, Seq<char>>) -> Result<Json, Seq<char>> {
    match outcome {
        Ok(status) => Ok(ingress_result(status)),
        Err(e) => Err(e),
    }
}

/// The namespace that the arguments name as a string is the one looked at,
/// unchanged; without one, `default` is.
pub proof fn law_ingress_namespace_is_the_argument(args: Json)
    ensures
        string_member(args, "namespace"@) matches Some(ns) ==> ingress_target(args) == ns,
        string_member(args, "namespace"@) is None ==> ingress_target(args) == "default"@,
{
}

/// The first step of `check_ingress_routing`: the namespace to ask the
/// cluster about.
pub fn ingress_namespace(args: &JsonValue) -> (r: String)
    ensures
        r@ == ingress_target(args@),
{
    match args.string_member("namespace") {
        Some(ns) => String::from_str(ns),
        None => String::from_str("default"),
    }
}

/// The last step of `check_ingress_routing`: the result for what the
/// cluster gave back.
pub fn ingress_routing_outcome(outcome: Result<JsonValue, String>) -> (r: Result<JsonValue, String>)
    ensures
        outcome_view(r) == ingress_outcome(outcome_view(outcome)),
{
    match outcome {
        Ok(status) => {
            let members = vec![
                member("data", status),
                member("message", JsonValue::text("Ingress routing status retrieved successfully.")),
                member("status", JsonValue::text("success")),
            ];
            let ghost status_view = members@[0].1@;
            let r = JsonValue::object(members);
            assert(member_views(members@) =~= ingress_result(status_view)->Object_0);
            Ok(r)
        },
        Err(e) => Err(e),
    }
}

/// The `check_ingress_routing` tool.
pub open spec fn check_ingress_routing_tool() -> ToolModel {
    ToolModel {
        name: "check_ingress_routing"@,
        description: "Checks APISIX routes and cert-manager certificate statuses for a given namespace."@,
        input_schema: one_string_schema(
            "namespace"@,
            Some("Kubernetes namespace to check ingress routing in."@),
        ),
    }
}

/// Describes the `check_ingress_routing` tool.
pub fn get_check_ingress_routing_tool() -> (r: Tool)
    ensures
        r@ == check_ingress_routing_tool(),
{
    Tool {
        name: String::from_str("check_ingress_routing"),
        description: String::from_str(
            "Checks APISIX routes and cert-manager certificate statuses for a given namespace.",
        ),
        input_schema: one_string_schema_json(
            "namespace",
            Some("Kubernetes namespace to check ingress routing in."),
        ),
    }
}

} // verus!
