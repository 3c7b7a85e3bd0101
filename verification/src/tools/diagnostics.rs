use crate::json::{
    json_pretty_text, outcome_view, pretty_string, readable, reads_back, string_member, Json, JsonValue,
};
use crate::protocol::opt_json;
use crate::types::{text_answer, ContentModel, ToolCallResponse};
use vstd::prelude::*;

verus! {

/// What a call of `analyze_pod_failure` asks of the cluster: the namespace
/// named by the string argument `namespace`; or, without it, the answer
/// that says what is missing.
pub open spec fn pod_failure_target(args: Option<Json>) -> Result<Seq<char>, Seq<ContentModel>> {
    match args {
        None => Err(text_answer("Missing arguments."@)),
        Some(a) => match string_member(a, "namespace"@) {
            Some(ns) => Ok(ns),
            None => Err(text_answer("Missing 'namespace' argument."@)),
        },
    }
}

/// The text in which a diagnostic result is answered: its indented JSON
/// text, or, when serde_json cannot write it, a note that says so.
pub open spec fn report_text(data: Json) -> Seq<char> {
    match json_pretty_text(data) {
        Some(t) => t,
        None => "Failed to serialize data"@,
    }
}

/// The message of the error frame for a failure of the cluster.
pub open spec fn pod_failure_error(e: Seq<char>) -> Seq<char> {
    "Error analyzing pod failures: "@ + e
}

/// The outcome of `analyze_pod_failure` once the cluster has answered: the
/// answer that holds the indented text of the failures found, or, when the
/// cluster failed, the message of an error frame.
pub open spec fn pod_failure_answer(outcome: Result<Json, Seq<char>>) -> Result<Seq<ContentModel>, Seq<char>> {
    match outcome {
        Ok(data) => Ok(text_answer(report_text(data))),
        Err(e) => Err(pod_failure_error(e)),
    }
}

/// The namespace analysed is the string argument `namespace`, unchanged;
/// without it the call is answered with a text saying what is missing.
pub proof fn law_pod_namespace_is_the_argument(args: Json)
    ensures
        string_member(args, "namespace"@) matches Some(ns) ==> pod_failure_target(Some(args)) == Ok::<
            Seq<char>,
            Seq<ContentModel>,
        >(ns),
        string_member(args, "namespace"@) is None ==> pod_failure_target(Some(args)) is Err,
        pod_failure_target(None) is Err,
{
}

/// A failure of the cluster is reported as an error whose message ends
/// with the cluster's own message.
pub proof fn law_pod_failure_error_carries_message(e: Seq<char>)
    ensures
        pod_failure_answer(Err(e)) matches Err(m) && m.len() >= e.len() && m.subrange(
            m.len() - e.len(),
            m.len() as int,
        ) == e,
{
    let m = pod_failure_error(e);
    assert(m.subrange(m.len() - e.len(), m.len() as int) =~= e);
}

/// The view of the last step of `analyze_pod_failure`.
pub open spec fn answer_view(r: Result<ToolCallResponse, String>) -> Result<Seq<ContentModel>, Seq<char>> {
    match r {
        Ok(answer) => Ok(answer@),
        Err(e) => Err(e@),
    }
}

/// The view of the first step of `analyze_pod_failure`.
pub open spec fn target_view(r: Result<String, ToolCallResponse>) -> Result<Seq<char>, Seq<ContentModel>> {
    match r {
        Ok(ns) => Ok(ns@),
        Err(answer) => Err(answer@),
    }
}

/// The first step of `analyze_pod_failure`: the namespace to ask the cluster
/// about, or the answer when the arguments do not name one.
pub fn pod_failure_namespace(args: &Option<JsonValue>) -> (r: Result<String, ToolCallResponse>)
    ensures
        target_view(r) == pod_failure_target(opt_json(*args)),
{
    match args {
        None => Err(ToolCallResponse::text(String::from_str("Missing arguments."))),
        Some(a) => match a.string_member("namespace") {
            Some(ns) => Ok(String::from_str(ns)),
            None => Err(ToolCallResponse::text(String::from_str("Missing 'namespace' argument."))),
        },
    }
}

/// The last step of `analyze_pod_failure`: the answer for what the cluster
/// gave back, whose text serde_json reads back as the report when the report
/// reads back unchanged; or the message of the error frame when the cluster
/// failed.
pub fn pod_failure_analysis(outcome: Result<JsonValue, String>) -> (r: Result<ToolCallResponse, String>)
    ensures
        answer_view(r) == pod_failure_answer(outcome_view(outcome)),
        outcome is Ok && readable(outcome->Ok_0@) ==> r is Ok && reads_back(
            r->Ok_0@[0].text,
            outcome->Ok_0@,
        ),
{
    match outcome {
        Ok(data) => {
            let text = match pretty_string(&data) {
                Some(t) => t,
                None => String::from_str("Failed to serialize data"),
            };
            Ok(ToolCallResponse::text(text))
        },
        Err(e) => {
            let mut message = String::from_str("Error analyzing pod failures: ");
            message.append(e.as_str());
            Err(message)
        },
    }
}

} // verus!
