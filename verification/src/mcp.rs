use crate::json::{
    fits, json_get, member, member_lookup, member_views, outcome_view, parse_json, parsed_json, reads_back,
    text_is, Json, JsonValue,
};
use crate::protocol::{
    error_model, request_of, response_json, response_text, serialize_response, success_model,
    text_reads_back,
    JsonRpcRequest,
    JsonRpcResponse, RequestModel, ResponseModel, INTERNAL_ERROR, INVALID_PARAMS, INVALID_REQUEST,
    METHOD_NOT_FOUND, PARSE_ERROR,
};
use crate::tools::diagnostics::{
    pod_failure_analysis, pod_failure_answer, pod_failure_error, pod_failure_namespace, pod_failure_target,
};
use crate::tools::ingress::{check_ingress_routing_tool, ingress_namespace, ingress_outcome, ingress_routing_outcome, ingress_target};
use crate::tools::metrics::{get_system_metrics_tool, metrics_outcome, metrics_promql, metrics_query, system_metrics_outcome};
use crate::tools::{
    analyze_pod_failure_tool, call_ping_tool, get_analyze_pod_failure_tool,
    get_check_ingress_routing_tool, get_get_system_metrics_tool, get_mock_ping_tool, ping_tool,
};
use crate::types::{
    call_response_json, text_answer, tool_list_json, tool_models, CallModel, ToolCallParams,
    ToolListResponse, ToolModel,
};
use vstd::prelude::*;

verus! {

/// A tool whose answer needs the cluster.
#[derive(Debug)]
pub enum ToolCall {
    AnalyzePodFailure,
    CheckIngressRouting,
    GetSystemMetrics,
}

/// A question to the cluster; the cluster only ever reads.
#[derive(Debug)]
pub enum ClusterQuery {
    /// The failed pods of a namespace.
    PodFailures(String),
    /// The ingress routes and certificates of a namespace.
    IngressStatus(String),
    /// A PromQL query.
    Metrics(String),
}

/// The model of a question to the cluster.
pub enum QueryModel {
    PodFailures(Seq<char>),
    IngressStatus(Seq<char>),
    Metrics(Seq<char>),
}

impl View for ClusterQuery {
    type V = QueryModel;

    open spec fn view(&self) -> QueryModel {
        match self {
            ClusterQuery::PodFailures(ns) => QueryModel::PodFailures(ns@),
            ClusterQuery::IngressStatus(ns) => QueryModel::IngressStatus(ns@),
            ClusterQuery::Metrics(q) => QueryModel::Metrics(q@),
        }
    }
}

/// A request that waits for the cluster's answer: its id and the tool that
/// was called.
#[derive(Debug)]
pub struct PendingCall {
    pub id: JsonValue,
    pub tool: ToolCall,
}

/// A `tools/call` request whose parameters are being read: its id.
#[derive(Debug)]
pub struct PendingRead {
    pub id: JsonValue,
}

/// What to do with a request: answer it, send nothing, have the parameters
/// of `tools/call` read, or ask the cluster first.
pub enum Plan {
    Respond(JsonRpcResponse),
    Silent,
    Read(PendingRead, JsonValue),
    Ask(PendingCall, ClusterQuery),
}

/// What to do with a request line: send this text back; send nothing (a
/// notification); read the parameters of `tools/call` (as serde reads
/// `ToolCallParams`) and go on with `continue_call`; or ask the cluster and
/// answer with `finish_request`.
#[derive(Debug)]
pub enum RequestStep {
    Reply(String),
    Silent,
    ReadCall(PendingRead, JsonValue),
    Query(PendingCall, ClusterQuery),
}

/// The model of what to do with a request.
pub enum PlanModel {
    Respond(ResponseModel),
    Silent,
    Read(Json, Json),
    Ask(Json, ToolCall, QueryModel),
}

/// The view of a plan.
pub open spec fn plan_view(p: Plan) -> PlanModel {
    match p {
        Plan::Respond(r) => PlanModel::Respond(r@),
        Plan::Silent => PlanModel::Silent,
        Plan::Read(pending, params) => PlanModel::Read(pending.id@, params@),
        Plan::Ask(pending, q) => PlanModel::Ask(pending.id@, pending.tool, q@),
    }
}

/// A request line step carries out a plan: a reply is the text of the
/// planned response, which serde_json reads back as described by
/// `text_reads_back`; the other steps are the planned ones.
pub open spec fn step_follows(step: RequestStep, plan: PlanModel) -> bool {
    match step {
        RequestStep::Reply(text) => plan matches PlanModel::Respond(r) && text@ == response_text(r)
            && text_reads_back(text@, r),
        RequestStep::Silent => plan is Silent,
        RequestStep::ReadCall(pending, params) => plan == PlanModel::Read(pending.id@, params@),
        RequestStep::Query(pending, q) => plan == PlanModel::Ask(pending.id@, pending.tool, q@),
    }
}

/// Carries out a plan.
fn step_of(plan: Plan) -> (r: RequestStep)
    ensures
        step_follows(r, plan_view(plan)),
{
    match plan {
        Plan::Respond(response) => RequestStep::Reply(serialize_response(&response)),
        Plan::Silent => RequestStep::Silent,
        Plan::Read(pending, params) => RequestStep::ReadCall(pending, params),
        Plan::Ask(pending, query) => RequestStep::Query(pending, query),
    }
}

// ---------------------------------------------------------------------------
// The methods that need no cluster.
/// What `initialize` answers: the protocol version, no capabilities, and the
/// server's name and version.
pub open spec fn initialize_result() -> Json {
    Json::Object(
        seq![
            ("capabilities"@, Json::Object(Seq::empty())),
            ("protocolVersion"@, Json::Str("2024-11-05"@)),
            ("serverInfo"@, Json::Object(
                seq![("name"@, Json::Str("kubelens-mcp"@)), ("version"@, Json::Str("0.1.0"@))],
            )),
        ],
    )
}

/// The tools that `tools/list` lists, in order.
pub open spec fn listed_tools() -> Seq<ToolModel> {
    seq![ping_tool(), analyze_pod_failure_tool(), check_ingress_routing_tool(), get_system_metrics_tool()]
}

/// Answers `initialize`.
pub fn handle_initialize(id: JsonValue) -> (r: JsonRpcResponse)
    ensures
        r@ == success_model(id@, initialize_result()),
{
    let server_info = vec![member("name", JsonValue::text("kubelens-mcp")), member("version", JsonValue::text("0.1.0"))];
    let server_info_value = JsonValue::object(server_info);
    let ghost server_view = server_info_value@;
    assert(member_views(server_info@) =~= initialize_result()->Object_0[2].1->Object_0);
    let members = vec![
        member("capabilities", JsonValue::object(Vec::new())),
        member("protocolVersion", JsonValue::text("2024-11-05")),
        member("serverInfo", server_info_value),
    ];
    assert(member_views(Seq::<(String, JsonValue)>::empty()) =~= Seq::empty());
    let result = JsonValue::object(members);
    assert(member_views(members@) =~= initialize_result()->Object_0);
    JsonRpcResponse::success(id, result)
}

/// Answers `tools/list`.
pub fn handle_tools_list(id: JsonValue) -> (r: JsonRpcResponse)
    ensures
        r@ == success_model(id@, tool_list_json(listed_tools())),
{
    let response = ToolListResponse {
        tools: vec![
            get_mock_ping_tool(),
            get_analyze_pod_failure_tool(),
            get_check_ingress_routing_tool(),
            get_get_system_metrics_tool(),
        ],
    };
    assert(tool_models(response.tools@) =~= listed_tools());
    JsonRpcResponse::success(id, response.to_json())
}

// ---------------------------------------------------------------------------
// `tools/call`.
/// The arguments a tool reads: those given, or the empty object.
pub open spec fn arguments_or_empty(arguments: Option<Json>) -> Json {
    match arguments {
        Some(a) => a,
        None => Json::Object(Seq::empty()),
    }
}

/// What to do with a call of a tool.
pub open spec fn plan_tool(call: CallModel, id: Json) -> PlanModel {
    if call.name == "ping"@ {
        PlanModel::Respond(success_model(id, call_response_json(text_answer("pong"@))))
    } else if call.name == "analyze_pod_failure"@ {
        match pod_failure_target(call.arguments) {
            Ok(ns) => PlanModel::Ask(id, ToolCall::AnalyzePodFailure, QueryModel::PodFailures(ns)),
            Err(answer) => PlanModel::Respond(success_model(id, call_response_json(answer))),
        }
    } else if call.name == "check_ingress_routing"@ {
        PlanModel::Ask(
            id,
            ToolCall::CheckIngressRouting,
            QueryModel::IngressStatus(ingress_target(arguments_or_empty(call.arguments))),
        )
    } else if call.name == "get_system_metrics"@ {
        match metrics_query(arguments_or_empty(call.arguments)) {
            Ok(q) => PlanModel::Ask(id, ToolCall::GetSystemMetrics, QueryModel::Metrics(q)),
            Err(e) => PlanModel::Respond(error_model(id, INTERNAL_ERROR, e)),
        }
    } else {
        PlanModel::Respond(error_model(id, METHOD_NOT_FOUND, "Unknown tool: "@ + call.name))
    }
}

/// What to do with `tools/call`: its parameters must be present; they are
/// then read.
pub open spec fn plan_tools_call_model(params: Option<Json>, id: Json) -> PlanModel {
    match params {
        None => PlanModel::Respond(error_model(id, INVALID_PARAMS, "Missing params"@)),
        Some(p) => PlanModel::Read(id, p),
    }
}

/// The view of the outcome of reading the parameters of `tools/call`.
pub open spec fn read_view(read: Result<ToolCallParams, String>) -> Result<CallModel, Seq<char>> {
    match read {
        Ok(p) => Ok(p@),
        Err(e) => Err(e@),
    }
}

/// What to do once the parameters of `tools/call` are read: parameters that
/// could not be read are invalid, with the reader's message.
pub open spec fn plan_read(id: Json, read: Result<CallModel, Seq<char>>) -> PlanModel {
    match read {
        Err(e) => PlanModel::Respond(error_model(id, INVALID_PARAMS, "Invalid params: "@ + e)),
        Ok(call) => plan_tool(call, id),
    }
}

/// Decides what to do with a call of a tool.
fn plan_tool_call(call: ToolCallParams, id: JsonValue) -> (r: Plan)
    ensures
        plan_view(r) == plan_tool(call@, id@),
{
    if text_is(&call.name, "ping") {
        let answer = call_ping_tool(call.arguments);
        Plan::Respond(JsonRpcResponse::success(id, answer.to_json()))
    } else if text_is(&call.name, "analyze_pod_failure") {
        match pod_failure_namespace(&call.arguments) {
            Ok(ns) => Plan::Ask(
                PendingCall { id, tool: ToolCall::AnalyzePodFailure },
                ClusterQuery::PodFailures(ns),
            ),
            Err(answer) => Plan::Respond(JsonRpcResponse::success(id, answer.to_json())),
        }
    } else if text_is(&call.name, "check_ingress_routing") {
        let args = match call.arguments {
            Some(a) => a,
            None => JsonValue::object(Vec::new()),
        };
        assert(member_views(Seq::<(String, JsonValue)>::empty()) =~= Seq::empty());
        Plan::Ask(
            PendingCall { id, tool: ToolCall::CheckIngressRouting },
            ClusterQuery::IngressStatus(ingress_namespace(&args)),
        )
    } else if text_is(&call.name, "get_system_metrics") {
        let args = match call.arguments {
            Some(a) => a,
            None => JsonValue::object(Vec::new()),
        };
        assert(member_views(Seq::<(String, JsonValue)>::empty()) =~= Seq::empty());
        match metrics_promql(&args) {
            Ok(q) => Plan::Ask(PendingCall { id, tool: ToolCall::GetSystemMetrics }, ClusterQuery::Metrics(q)),
            Err(e) => Plan::Respond(JsonRpcResponse::error(&id, INTERNAL_ERROR, e)),
        }
    } else {
        let mut message = String::from_str("Unknown tool: ");
        message.append(call.name.as_str());
        Plan::Respond(JsonRpcResponse::error(&id, METHOD_NOT_FOUND, message))
    }
}

/// Decides what to do with `tools/call`.
pub fn plan_tools_call(params: Option<JsonValue>, id: JsonValue) -> (r: Plan)
    ensures
        plan_view(r) == plan_tools_call_model(crate::protocol::opt_json(params), id@),
{
    match params {
        None => Plan::Respond(JsonRpcResponse::error(&id, INVALID_PARAMS, String::from_str("Missing params"))),
        Some(p) => Plan::Read(PendingRead { id }, p),
    }
}

/// Goes on with `tools/call` once its parameters are read: the text to send
/// back, or the question to ask the cluster.
pub fn continue_call(pending: PendingRead, read: Result<ToolCallParams, String>) -> (r: RequestStep)
    ensures
        step_follows(r, plan_read(pending.id@, read_view(read))),
{
    let plan = match read {
        Err(e) => {
            let mut message = String::from_str("Invalid params: ");
            message.append(e.as_str());
            Plan::Respond(JsonRpcResponse::error(&pending.id, INVALID_PARAMS, message))
        },
        Ok(call) => plan_tool_call(call, pending.id),
    };
    step_of(plan)
}

// ---------------------------------------------------------------------------
// Requests.
/// The id that a response carries: the request's, or `null`.
pub open spec fn response_id(req: RequestModel) -> Json {
    match req.id {
        Some(id) => id,
        None => Json::Null,
    }
}

/// What to do with a request, by its method.
pub open spec fn plan_request_model(req: RequestModel) -> PlanModel {
    let id = response_id(req);
    if req.method == "initialize"@ {
        PlanModel::Respond(success_model(id, initialize_result()))
    } else if req.method == "notifications/initialized"@ {
        PlanModel::Respond(success_model(id, Json::Null))
    } else if req.method == "tools/list"@ {
        PlanModel::Respond(success_model(id, tool_list_json(listed_tools())))
    } else if req.method == "tools/call"@ {
        plan_tools_call_model(req.params, id)
    } else {
        PlanModel::Respond(error_model(id, METHOD_NOT_FOUND, "Method not found: "@ + req.method))
    }
}

/// What to do with a request line: a line that is not JSON gets a parse
/// error, JSON that is not a request gets an invalid-request error (both
/// with a `null` id), and a notification gets no answer.
pub open spec fn plan_line(text: Seq<char>) -> PlanModel {
    match parsed_json(text) {
        Err(e) => PlanModel::Respond(error_model(Json::Null, PARSE_ERROR, "Parse error: "@ + e)),
        Ok(j) => match request_of(j) {
            None => PlanModel::Respond(error_model(Json::Null, INVALID_REQUEST, "Invalid Request"@)),
            Some(req) => if req.id is None {
                PlanModel::Silent
            } else {
                plan_request_model(req)
            },
        },
    }
}

/// Decides what to do with a request.
pub fn plan_request(request: JsonRpcRequest) -> (r: Plan)
    ensures
        plan_view(r) == plan_request_model(request@),
{
    let id = match request.id {
        Some(i) => i,
        None => JsonValue::Null,
    };
    let method = request.method;
    if text_is(&method, "initialize") {
        Plan::Respond(handle_initialize(id))
    } else if text_is(&method, "notifications/initialized") {
        Plan::Respond(JsonRpcResponse::success(id, JsonValue::Null))
    } else if text_is(&method, "tools/list") {
        Plan::Respond(handle_tools_list(id))
    } else if text_is(&method, "tools/call") {
        plan_tools_call(request.params, id)
    } else {
        let mut message = String::from_str("Method not found: ");
        message.append(method.as_str());
        Plan::Respond(JsonRpcResponse::error(&id, METHOD_NOT_FOUND, message))
    }
}

/// The first step of serving a request line: the text to send back,
/// nothing, the parameters to read, or the question to ask the cluster.
///
/// Every error frame it sends reads back with serde_json as the planned
/// response: its id is `null` or the request's, which came from a text that
/// serde_json read.
pub fn begin_request(line: &str) -> (r: RequestStep)
    ensures
        step_follows(r, plan_line(line@)),
        plan_line(line@) is Respond && plan_line(line@)->Respond_0.result is None ==> r is Reply
            && reads_back(r->Reply_0@, response_json(plan_line(line@)->Respond_0)),
{
    let parsed = parse_json(line);
    proof {
        if parsed is Ok {
            let j = parsed->Ok_0@;
            if request_of(j) is Some && j is Object && json_get(j, "id"@) is Some {
                lemma_member_fits(j->Object_0, "id"@, 126);
            }
        }
    }
    let plan = match parsed {
        Err(e) => {
            let mut message = String::from_str("Parse error: ");
            message.append(e.as_str());
            Plan::Respond(JsonRpcResponse::error(&JsonValue::Null, PARSE_ERROR, message))
        },
        Ok(v) => match JsonRpcRequest::from_json(&v) {
            None => Plan::Respond(
                JsonRpcResponse::error(&JsonValue::Null, INVALID_REQUEST, String::from_str("Invalid Request")),
            ),
            Some(request) => if request.id.is_none() {
                Plan::Silent
            } else {
                plan_request(request)
            },
        },
    };
    step_of(plan)
}

/// A member of an object that fits one level deeper than its members fits.
proof fn lemma_member_fits(members: Seq<(Seq<char>, Json)>, key: Seq<char>, room: nat)
    requires
        forall|i: int| 0 <= i < members.len() ==> fits(#[trigger] members[i].1, room),
        member_lookup(members, key) is Some,
    ensures
        fits(member_lookup(members, key)->Some_0, room),
    decreases members.len(),
{
    if members.last().0 != key {
        let rest = members.drop_last();
        assert forall|i: int| 0 <= i < rest.len() implies fits(#[trigger] rest[i].1, room) by {
            assert(rest[i] == members[i]);
        }
        lemma_member_fits(rest, key, room);
    }
}

/// The response to a call once the cluster has answered.
pub open spec fn finish_model(id: Json, tool: ToolCall, outcome: Result<Json, Seq<char>>) -> ResponseModel {
    match tool {
        ToolCall::AnalyzePodFailure => match pod_failure_answer(outcome) {
            Ok(answer) => success_model(id, call_response_json(answer)),
            Err(m) => error_model(id, INTERNAL_ERROR, m),
        },
        ToolCall::CheckIngressRouting => match ingress_outcome(outcome) {
            Ok(d) => success_model(id, d),
            Err(e) => error_model(id, INTERNAL_ERROR, e),
        },
        ToolCall::GetSystemMetrics => match metrics_outcome(outcome) {
            Ok(d) => success_model(id, d),
            Err(e) => error_model(id, INTERNAL_ERROR, e),
        },
    }
}

/// Answers a pending call with what the cluster gave back.
pub fn finish_call(pending: PendingCall, outcome: Result<JsonValue, String>) -> (r: JsonRpcResponse)
    ensures
        r@ == finish_model(pending.id@, pending.tool, outcome_view(outcome)),
{
    match pending.tool {
        ToolCall::AnalyzePodFailure => match pod_failure_analysis(outcome) {
            Ok(answer) => JsonRpcResponse::success(pending.id, answer.to_json()),
            Err(m) => JsonRpcResponse::error(&pending.id, INTERNAL_ERROR, m),
        },
        ToolCall::CheckIngressRouting => match ingress_routing_outcome(outcome) {
            Ok(d) => JsonRpcResponse::success(pending.id, d),
            Err(e) => JsonRpcResponse::error(&pending.id, INTERNAL_ERROR, e),
        },
        ToolCall::GetSystemMetrics => match system_metrics_outcome(outcome) {
            Ok(d) => JsonRpcResponse::success(pending.id, d),
            Err(e) => JsonRpcResponse::error(&pending.id, INTERNAL_ERROR, e),
        },
    }
}

/// The last step of serving a request line: the text to send back once the
/// cluster has answered.
pub fn finish_request(pending: PendingCall, outcome: Result<JsonValue, String>) -> (r: String)
    ensures
        r@ == response_text(finish_model(pending.id@, pending.tool, outcome_view(outcome))),
        text_reads_back(r@, finish_model(pending.id@, pending.tool, outcome_view(outcome))),
{
    serialize_response(&finish_call(pending, outcome))
}

// ---------------------------------------------------------------------------
// Laws of the server.
/// The request that a line holds, when it holds one.
pub open spec fn line_request(text: Seq<char>) -> Option<RequestModel> {
    match parsed_json(text) {
        Ok(j) => request_of(j),
        Err(_) => None,
    }
}

/// The response that a plan ends in, given how the parameters of
/// `tools/call` are read and what the cluster answers when it is asked;
/// nothing for a notification.
pub open spec fn final_response(
    plan: PlanModel,
    read: Result<CallModel, Seq<char>>,
    outcome: Result<Json, Seq<char>>,
) -> Option<ResponseModel> {
    match plan {
        PlanModel::Respond(r) => Some(r),
        PlanModel::Silent => None,
        PlanModel::Ask(id, tool, _) => Some(finish_model(id, tool, outcome)),
        PlanModel::Read(id, _) => match plan_read(id, read) {
            PlanModel::Respond(r) => Some(r),
            PlanModel::Ask(id2, tool, _) => Some(finish_model(id2, tool, outcome)),
            _ => None,
        },
    }
}

/// The code of a failed response.
pub open spec fn error_code(r: ResponseModel) -> Option<i32> {
    match r.error {
        Some((code, _)) => Some(code),
        None => None,
    }
}

/// A response that follows JSON-RPC: a result or an error, never both, and
/// an error carries one of the standard codes.
pub open spec fn well_formed_response(r: ResponseModel) -> bool {
    &&& r.result is Some <==> r.error is None
    &&& error_code(r) is Some ==> (error_code(r) == Some(PARSE_ERROR) || error_code(r) == Some(
        INVALID_REQUEST,
    ) || error_code(r) == Some(METHOD_NOT_FOUND) || error_code(r) == Some(INVALID_PARAMS)
        || error_code(r) == Some(INTERNAL_ERROR))
}

/// A notification is never answered, whatever happens while it is served;
/// every other line is answered.
pub proof fn law_only_notifications_go_unanswered(
    text: Seq<char>,
    read: Result<CallModel, Seq<char>>,
    outcome: Result<Json, Seq<char>>,
)
    ensures
        final_response(plan_line(text), read, outcome) is None <==> (line_request(text) matches Some(req)
            && req.id is None),
{
}

/// Every request is answered with the id it came with, whatever happens
/// while it is served.
pub proof fn law_response_carries_request_id(
    text: Seq<char>,
    read: Result<CallModel, Seq<char>>,
    outcome: Result<Json, Seq<char>>,
)
    requires
        line_request(text) matches Some(req) && req.id is Some,
    ensures
        final_response(plan_line(text), read, outcome) matches Some(r) && r.id
            == line_request(text)->Some_0.id->Some_0,
{
}

/// A line that is not JSON is answered with a parse error and a `null` id.
pub proof fn law_unreadable_line_is_parse_error(text: Seq<char>)
    requires
        parsed_json(text) is Err,
    ensures
        plan_line(text) is Respond,
        plan_line(text)->Respond_0.id == Json::Null,
        plan_line(text)->Respond_0.result is None,
        error_code(plan_line(text)->Respond_0) == Some(PARSE_ERROR),
{
}

/// JSON that is not a valid request object is answered with an
/// invalid-request error and a `null` id.
pub proof fn law_non_request_is_invalid_request(text: Seq<char>)
    requires
        parsed_json(text) is Ok,
        line_request(text) is None,
    ensures
        plan_line(text) == PlanModel::Respond(error_model(Json::Null, INVALID_REQUEST, "Invalid Request"@)),
{
}

/// Every answer is a well-formed JSON-RPC response, whatever happens while
/// the line is served: failures become error frames.
pub proof fn law_every_response_is_well_formed(
    text: Seq<char>,
    read: Result<CallModel, Seq<char>>,
    outcome: Result<Json, Seq<char>>,
)
    ensures
        final_response(plan_line(text), read, outcome) matches Some(r) ==> well_formed_response(r),
{
}

/// Only the four methods of the server are served; any other method is
/// answered with "method not found" and its name.
pub proof fn law_unknown_method_not_found(req: RequestModel)
    ensures
        (req.method != "initialize"@ && req.method != "notifications/initialized"@
            && req.method != "tools/list"@ && req.method != "tools/call"@) <==> plan_request_model(req)
            == PlanModel::Respond(
            error_model(response_id(req), METHOD_NOT_FOUND, "Method not found: "@ + req.method),
        ),
{
}

/// Every tool that `tools/list` lists is served by `tools/call`: a call of
/// it is never answered "unknown tool".
pub proof fn law_listed_tools_are_callable(i: int, arguments: Option<Json>, id: Json)
    requires
        0 <= i < listed_tools().len(),
    ensures
        plan_tool(CallModel { name: listed_tools()[i].name, arguments }, id) is Respond ==> error_code(
            plan_tool(CallModel { name: listed_tools()[i].name, arguments }, id)->Respond_0,
        ) != Some(METHOD_NOT_FOUND),
{
}

/// A failure of the cluster is answered with an internal error that carries
/// its message (after a note of what failed, for the pod analysis).
pub proof fn law_cluster_failure_is_internal_error(id: Json, tool: ToolCall, message: Seq<char>)
    ensures
        finish_model(id, tool, Err(message)) == error_model(
            id,
            INTERNAL_ERROR,
            if tool is AnalyzePodFailure {
                pod_failure_error(message)
            } else {
                message
            },
        ),
{
}

/// What the cluster reports on ingress routing or metrics reaches the
/// client unchanged, under `data`.
pub proof fn law_cluster_data_is_passed_on(id: Json, tool: ToolCall, data: Json)
    requires
        tool != ToolCall::AnalyzePodFailure,
    ensures
        finish_model(id, tool, Ok(data)).result is Some,
        crate::json::json_get(finish_model(id, tool, Ok(data)).result->Some_0, "data"@) == Some(data),
{
    reveal_strlit("data");
    reveal_strlit("message");
    reveal_strlit("status");
    assert("status"@.len() != "data"@.len());
    assert("message"@.len() != "data"@.len());
    let members = finish_model(id, tool, Ok(data)).result->Some_0->Object_0;
    assert(members.drop_last().drop_last() =~= seq![("data"@, data)]);
    assert(crate::json::member_lookup(members.drop_last().drop_last(), "data"@) == Some(data));
    assert(crate::json::member_lookup(members.drop_last(), "data"@) == Some(data));
}

/// A call of `ping` is answered with pong, whatever its arguments (given,
/// empty or missing).
pub proof fn law_ping_ignores_arguments(arguments: Option<Json>, id: Json)
    ensures
        plan_tool(CallModel { name: "ping"@, arguments }, id) == PlanModel::Respond(
            success_model(id, call_response_json(text_answer("pong"@))),
        ),
        plan_tool(CallModel { name: "ping"@, arguments }, id) == plan_tool(
            CallModel { name: "ping"@, arguments: None },
            id,
        ),
{
}

/// `initialize` is answered with the server's handshake, whatever its
/// parameters: the same answer as without any.
pub proof fn law_initialize_ignores_params(req: RequestModel)
    requires
        req.method == "initialize"@,
    ensures
        plan_request_model(req) == PlanModel::Respond(success_model(response_id(req), initialize_result())),
        plan_request_model(req) == plan_request_model(RequestModel { params: None, ..req }),
{
}

/// A call of a tool that needs the cluster asks it about exactly what the
/// arguments name: the string `namespace` (or `default`) for ingress
/// routing, the string `namespace` for pod failures, the string `promql`
/// for metrics.
pub proof fn law_calls_ask_what_the_arguments_name(args: Json, id: Json)
    ensures
        crate::json::string_member(args, "namespace"@) matches Some(ns) ==> plan_tool(
            CallModel { name: "check_ingress_routing"@, arguments: Some(args) },
            id,
        ) == PlanModel::Ask(id, ToolCall::CheckIngressRouting, QueryModel::IngressStatus(ns)),
        crate::json::string_member(args, "namespace"@) matches Some(ns) ==> plan_tool(
            CallModel { name: "analyze_pod_failure"@, arguments: Some(args) },
            id,
        ) == PlanModel::Ask(id, ToolCall::AnalyzePodFailure, QueryModel::PodFailures(ns)),
        crate::json::string_member(args, "promql"@) matches Some(q) ==> plan_tool(
            CallModel { name: "get_system_metrics"@, arguments: Some(args) },
            id,
        ) == PlanModel::Ask(id, ToolCall::GetSystemMetrics, QueryModel::Metrics(q)),
        plan_tool(CallModel { name: "check_ingress_routing"@, arguments: None }, id) == PlanModel::Ask(
            id,
            ToolCall::CheckIngressRouting,
            QueryModel::IngressStatus("default"@),
        ),
{
    reveal_strlit("ping");
    reveal_strlit("check_ingress_routing");
    reveal_strlit("analyze_pod_failure");
    reveal_strlit("get_system_metrics");
    assert("ping"@ != "check_ingress_routing"@) by { assert("ping"@.len() != "check_ingress_routing"@.len()); }
    assert("ping"@ != "analyze_pod_failure"@) by { assert("ping"@.len() != "analyze_pod_failure"@.len()); }
    assert("ping"@ != "get_system_metrics"@) by { assert("ping"@.len() != "get_system_metrics"@.len()); }
    assert("analyze_pod_failure"@ != "check_ingress_routing"@) by {
        assert("analyze_pod_failure"@[0] != "check_ingress_routing"@[0]);
    }
    assert("analyze_pod_failure"@ != "get_system_metrics"@) by {
        assert("analyze_pod_failure"@[0] != "get_system_metrics"@[0]);
    }
    assert("check_ingress_routing"@ != "get_system_metrics"@) by {
        assert("check_ingress_routing"@[0] != "get_system_metrics"@[0]);
    }
}

} // verus!
