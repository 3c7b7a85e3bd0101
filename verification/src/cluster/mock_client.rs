use crate::json::{member, member_views, outcome_view, Json, JsonValue};
use vstd::prelude::*;

verus! {

/// A cluster that answers every question with a fixed, healthy report.
#[derive(Debug)]
pub struct MockClusterClient;

/// The fixed report of a mock cluster.
pub open spec fn mock_report(message: Seq<char>, list_key: Seq<char>) -> Json {
    let members = seq![("message"@, Json::Str(message)), (list_key, Json::Array(Seq::empty())), ("status"@, Json::Str("ok"@))];
    Json::Object(members)
}

/// What a mock cluster reports of pod failures.
pub open spec fn mock_pod_failures() -> Json {
    mock_report("No failures detected in mock environment."@, "pods"@)
}

/// What a mock cluster reports of ingress routing.
pub open spec fn mock_ingress_status() -> Json {
    mock_report("Ingress routing is healthy in mock environment."@, "routes"@)
}

/// What a mock cluster reports of a metrics query.
pub open spec fn mock_metrics() -> Json {
    Json::Object(
        seq![
            ("data"@, Json::Array(Seq::empty())),
            ("message"@, Json::Str("Metrics query successful in mock environment."@)),
            ("status"@, Json::Str("ok"@)),
        ],
    )
}

/// Builds a fixed report whose list member sorts between `message` and
/// `status`.
fn mock_report_json(message: &str, list_key: &str) -> (r: JsonValue)
    ensures
        r@ == mock_report(message@, list_key@),
{
    let members = vec![
        member("message", JsonValue::text(message)),
        member(list_key, JsonValue::array(Vec::new())),
        member("status", JsonValue::text("ok")),
    ];
    let r = JsonValue::object(members);
    assert(crate::json::views(Seq::<JsonValue>::empty()) =~= Seq::empty());
    assert(member_views(members@) =~= mock_report(message@, list_key@)->Object_0);
    r
}

impl MockClusterClient {
    /// Reports no pod failure, whatever the namespace.
    pub fn get_pod_failures(&self, _namespace: &str) -> (r: Result<JsonValue, String>)
        ensures
            outcome_view(r) == Ok::<Json, Seq<char>>(mock_pod_failures()),
    {
        Ok(mock_report_json("No failures detected in mock environment.", "pods"))
    }

    /// Reports healthy ingress routing, whatever the namespace.
    pub fn get_ingress_status(&self, _namespace: &str) -> (r: Result<JsonValue, String>)
        ensures
            outcome_view(r) == Ok::<Json, Seq<char>>(mock_ingress_status()),
    {
        Ok(mock_report_json("Ingress routing is healthy in mock environment.", "routes"))
    }

    /// Reports an empty answer to any metrics query.
    pub fn query_metrics(&self, _promql: &str) -> (r: Result<JsonValue, String>)
        ensures
            outcome_view(r) == Ok::<Json, Seq<char>>(mock_metrics()),
    {
        let members = vec![
            member("data", JsonValue::array(Vec::new())),
            member("message", JsonValue::text("Metrics query successful in mock environment.")),
            member("status", JsonValue::text("ok")),
        ];
        let r = JsonValue::object(members);
        assert(crate::json::views(Seq::<JsonValue>::empty()) =~= Seq::empty());
        assert(member_views(members@) =~= mock_metrics()->Object_0);
        Ok(r)
    }
}

} // verus!
