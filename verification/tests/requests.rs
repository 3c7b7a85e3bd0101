use kubelens_mcp::json::JsonValue;
use kubelens_mcp::mcp::{begin_request, continue_call, finish_request, ClusterQuery, PendingCall, RequestStep, ToolCall};
use kubelens_mcp::types::ToolCallParams;
use serde_json::Value;

fn from_serde(value: Value) -> JsonValue {
    match value {
        Value::Null => JsonValue::Null,
        Value::Bool(b) => JsonValue::Bool(b),
        Value::Number(n) => JsonValue::Number(n.to_string()),
        Value::String(s) => JsonValue::Str(s),
        Value::Array(a) => JsonValue::Array(a.into_iter().map(from_serde).collect()),
        Value::Object(m) => JsonValue::Object(m.into_iter().map(|(k, v)| (k, from_serde(v))).collect()),
    }
}

fn doc(text: &str) -> JsonValue {
    from_serde(serde_json::from_str(text).expect("valid JSON"))
}

fn value(text: &str) -> Value {
    serde_json::from_str(text).expect("valid JSON")
}

fn call(name: &str, arguments: Option<&str>) -> ToolCallParams {
    ToolCallParams { name: name.to_string(), arguments: arguments.map(doc) }
}

/// Serves a line up to the point where the cluster is asked, reading the
/// parameters of `tools/call` as given.
fn step(line: &str, read: Option<ToolCallParams>) -> RequestStep {
    match begin_request(line) {
        RequestStep::ReadCall(pending, _) => match read {
            Some(params) => continue_call(pending, Ok(params)),
            None => panic!("the parameters must be read"),
        },
        other => other,
    }
}

fn reply(line: &str, read: Option<ToolCallParams>) -> String {
    match step(line, read) {
        RequestStep::Reply(text) => text,
        other => panic!("expected a reply, got {:?}", other),
    }
}

fn query(line: &str, read: Option<ToolCallParams>) -> (PendingCall, ClusterQuery) {
    match step(line, read) {
        RequestStep::Query(pending, query) => (pending, query),
        other => panic!("expected a query, got {:?}", other),
    }
}

const CALL: &str = r#"{"jsonrpc":"2.0","id":4,"method":"tools/call","params":{"name":"x"}}"#;

#[test]
fn initialize_answers_server_info() {
    let text = reply(r#"{"jsonrpc":"2.0","id":1,"method":"initialize"}"#, None);
    assert_eq!(
        text,
        r#"{"id":1,"jsonrpc":"2.0","result":{"capabilities":{},"protocolVersion":"2024-11-05","serverInfo":{"name":"kubelens-mcp","version":"0.1.0"}}}"#
    );
}

#[test]
fn notifications_get_no_answer() {
    for line in [
        r#"{"jsonrpc":"2.0","method":"notifications/initialized"}"#,
        r#"{"jsonrpc":"2.0","method":"tools/list"}"#,
        r#"{"jsonrpc":"2.0","method":"no/such/method"}"#,
        r#"{"jsonrpc":"2.0","method":"tools/call","params":{"name":"ping"}}"#,
    ] {
        assert!(matches!(begin_request(line), RequestStep::Silent), "{}", line);
    }
}

#[test]
fn null_id_is_a_request_and_is_answered() {
    let text = reply(r#"{"jsonrpc":"2.0","id":null,"method":"notifications/initialized"}"#, None);
    assert_eq!(text, r#"{"id":null,"jsonrpc":"2.0","result":null}"#);
    let text = reply(r#"{"jsonrpc":"2.0","id":"n-1","method":"notifications/initialized"}"#, None);
    assert_eq!(text, r#"{"id":"n-1","jsonrpc":"2.0","result":null}"#);
}

#[test]
fn unknown_method_is_not_found() {
    let text = reply(r#"{"jsonrpc":"2.0","id":7,"method":"resources/list"}"#, None);
    assert_eq!(
        text,
        r#"{"error":{"code":-32601,"message":"Method not found: resources/list"},"id":7,"jsonrpc":"2.0"}"#
    );
}

#[test]
fn text_that_is_not_json_is_a_parse_error() {
    for line in ["this is not json", "", "{\"jsonrpc\":", "[1,]"] {
        let text = reply(line, None);
        let v = value(&text);
        assert_eq!(v["id"], Value::Null);
        assert_eq!(v["error"]["code"], value("-32700"));
        let serde_message = serde_json::from_str::<Value>(line).unwrap_err().to_string();
        assert_eq!(v["error"]["message"], Value::String(format!("Parse error: {}", serde_message)));
    }
}

#[test]
fn json_that_is_not_a_request_is_an_invalid_request() {
    let invalid = r#"{"error":{"code":-32600,"message":"Invalid Request"},"id":null,"jsonrpc":"2.0"}"#;
    for line in [
        r#"[1,2,3]"#,
        r#"[]"#,
        r#"5"#,
        r#"{"id":3}"#,
        r#"{"jsonrpc":"2.0","id":3}"#,
        r#"{"jsonrpc":"2.0","method":1,"params":"bar"}"#,
        r#"{"id":3,"method":"initialize"}"#,
        r#"{"jsonrpc":"1.0","id":3,"method":"initialize"}"#,
        r#"{"jsonrpc":"2.0","id":{"a":1},"method":"initialize"}"#,
        r#"{"jsonrpc":"2.0","id":[1],"method":"initialize"}"#,
        r#"{"jsonrpc":"2.0","id":true,"method":"initialize"}"#,
    ] {
        assert_eq!(reply(line, None), invalid, "{}", line);
    }
}

#[test]
fn tools_list_lists_the_four_tools() {
    let text = reply(r#"{"jsonrpc":"2.0","id":2,"method":"tools/list"}"#, None);
    let v = value(&text);
    let tools = v["result"]["tools"].as_array().unwrap();
    let names: Vec<&str> = tools.iter().map(|t| t["name"].as_str().unwrap()).collect();
    assert_eq!(names, vec!["ping", "analyze_pod_failure", "check_ingress_routing", "get_system_metrics"]);
    assert_eq!(
        tools[0],
        value(r#"{"name":"ping","description":"A simple ping tool to verify connectivity.","inputSchema":{"type":"object","properties":{},"required":[]}}"#)
    );
    assert_eq!(
        tools[1],
        value(r#"{"name":"analyze_pod_failure","description":"Analyzes pod failures in a specific namespace.","inputSchema":{"type":"object","properties":{"namespace":{"type":"string"}},"required":["namespace"]}}"#)
    );
    assert_eq!(
        tools[2],
        value(r#"{"name":"check_ingress_routing","description":"Checks APISIX routes and cert-manager certificate statuses for a given namespace.","inputSchema":{"type":"object","properties":{"namespace":{"type":"string","description":"Kubernetes namespace to check ingress routing in."}},"required":["namespace"]}}"#)
    );
    assert_eq!(
        tools[3],
        value(r#"{"name":"get_system_metrics","description":"Queries Prometheus for raw system or application metrics using PromQL.","inputSchema":{"type":"object","properties":{"promql":{"type":"string","description":"Prometheus Query Language (PromQL) expression to execute."}},"required":["promql"]}}"#)
    );
    for tool in tools {
        let mut keys: Vec<&String> = tool.as_object().unwrap().keys().collect();
        keys.sort();
        assert_eq!(keys, vec!["description", "inputSchema", "name"]);
    }
}

#[test]
fn every_listed_tool_is_callable() {
    let text = reply(r#"{"jsonrpc":"2.0","id":2,"method":"tools/list"}"#, None);
    let v = value(&text);
    for tool in v["result"]["tools"].as_array().unwrap() {
        let name = tool["name"].as_str().unwrap();
        let params = call(name, Some(r#"{"namespace":"a","promql":"up"}"#));
        match step(CALL, Some(params)) {
            RequestStep::Reply(text) => assert!(!text.contains("-32601"), "{}", text),
            RequestStep::Query(pending, _) => {
                let text = finish_request(pending, Err("down".to_string()));
                assert!(!text.contains("-32601"), "{}", text);
            }
            other => panic!("{:?}", other),
        }
    }
}

#[test]
fn tools_call_hands_its_params_over_for_reading() {
    match begin_request(r#"{"jsonrpc":"2.0","id":4,"method":"tools/call","params":{"name":"ping","arguments":[1]}}"#) {
        RequestStep::ReadCall(pending, params) => {
            assert!(matches!(pending.id, JsonValue::Number(ref n) if n == "4"));
            match params {
                JsonValue::Object(members) => {
                    assert_eq!(members.len(), 2);
                    assert_eq!(members[0].0, "arguments");
                    assert_eq!(members[1].0, "name");
                }
                other => panic!("{:?}", other),
            }
        }
        other => panic!("{:?}", other),
    }
}

#[test]
fn ping_answers_pong() {
    let text = reply(CALL, Some(call("ping", None)));
    assert_eq!(
        text,
        r#"{"id":4,"jsonrpc":"2.0","result":{"content":[{"text":"pong","type":"text"}]}}"#
    );
}

#[test]
fn missing_params_are_invalid() {
    let text = reply(r#"{"jsonrpc":"2.0","id":5,"method":"tools/call"}"#, None);
    assert_eq!(
        text,
        r#"{"error":{"code":-32602,"message":"Missing params"},"id":5,"jsonrpc":"2.0"}"#
    );
    let text = reply(r#"{"jsonrpc":"2.0","id":5,"method":"tools/call","params":null}"#, None);
    assert_eq!(
        text,
        r#"{"error":{"code":-32602,"message":"Missing params"},"id":5,"jsonrpc":"2.0"}"#
    );
}

#[test]
fn unreadable_params_are_invalid_with_the_readers_message() {
    match begin_request(r#"{"jsonrpc":"2.0","id":5,"method":"tools/call","params":{"name":3}}"#) {
        RequestStep::ReadCall(pending, _) => {
            let message = "invalid type: integer `3`, expected a string".to_string();
            match continue_call(pending, Err(message)) {
                RequestStep::Reply(text) => assert_eq!(
                    text,
                    r#"{"error":{"code":-32602,"message":"Invalid params: invalid type: integer `3`, expected a string"},"id":5,"jsonrpc":"2.0"}"#
                ),
                other => panic!("{:?}", other),
            }
        }
        other => panic!("{:?}", other),
    }
}

#[test]
fn unknown_tool_is_not_found() {
    let text = reply(CALL, Some(call("delete_cluster", None)));
    assert_eq!(
        text,
        r#"{"error":{"code":-32601,"message":"Unknown tool: delete_cluster"},"id":4,"jsonrpc":"2.0"}"#
    );
}

#[test]
fn analyze_without_arguments_says_so() {
    let text = reply(CALL, Some(call("analyze_pod_failure", None)));
    assert_eq!(
        text,
        r#"{"id":4,"jsonrpc":"2.0","result":{"content":[{"text":"Missing arguments.","type":"text"}]}}"#
    );
    let text = reply(CALL, Some(call("analyze_pod_failure", Some(r#"{"ns":"x"}"#))));
    assert_eq!(
        text,
        r#"{"id":4,"jsonrpc":"2.0","result":{"content":[{"text":"Missing 'namespace' argument.","type":"text"}]}}"#
    );
    let text = reply(CALL, Some(call("analyze_pod_failure", Some(r#"{"namespace":5}"#))));
    assert!(text.contains("Missing 'namespace' argument."));
}

#[test]
fn analyze_asks_the_cluster_and_prints_its_report() {
    let (pending, q) = query(CALL, Some(call("analyze_pod_failure", Some(r#"{"namespace":"prod"}"#))));
    match &q {
        ClusterQuery::PodFailures(ns) => assert_eq!(ns, "prod"),
        _ => panic!("expected a pod query"),
    }
    assert!(matches!(pending.tool, ToolCall::AnalyzePodFailure));
    let report = r#"{"failures":[{"container":"app","pod":"web-1","reason":"Currently waiting"}],"namespace":"prod","total_pods_checked":3}"#;
    let text = finish_request(pending, Ok(doc(report)));
    let v = value(&text);
    assert_eq!(v["id"], value("4"));
    let printed = v["result"]["content"][0]["text"].as_str().unwrap();
    assert_eq!(printed, serde_json::to_string_pretty(&value(report)).unwrap());
    assert_eq!(value(printed), value(report));
}

#[test]
fn analyze_failures_are_internal_errors() {
    let (pending, _) = query(CALL, Some(call("analyze_pod_failure", Some(r#"{"namespace":"prod"}"#))));
    let text = finish_request(pending, Err("Failed to list pods: forbidden".to_string()));
    assert_eq!(
        text,
        r#"{"error":{"code":-32603,"message":"Error analyzing pod failures: Failed to list pods: forbidden"},"id":4,"jsonrpc":"2.0"}"#
    );
}

#[test]
fn ingress_defaults_to_the_default_namespace() {
    for (args, expected) in [(None, "default"), (Some(r#"{"namespace":7}"#), "default"), (Some(r#"{"namespace":"edge"}"#), "edge")] {
        let (_, q) = query(CALL, Some(call("check_ingress_routing", args)));
        match q {
            ClusterQuery::IngressStatus(ns) => assert_eq!(ns, expected),
            _ => panic!("expected an ingress query"),
        }
    }
}

#[test]
fn ingress_wraps_the_cluster_status() {
    let (pending, _) = query(CALL, Some(call("check_ingress_routing", Some(r#"{"namespace":"edge"}"#))));
    let text = finish_request(pending, Ok(doc(r#"{"apisix_routes":{"items":[]},"certificates":{"items":[1]}}"#)));
    assert_eq!(
        text,
        r#"{"id":4,"jsonrpc":"2.0","result":{"data":{"apisix_routes":{"items":[]},"certificates":{"items":[1]}},"message":"Ingress routing status retrieved successfully.","status":"success"}}"#
    );
}

#[test]
fn ingress_failure_is_an_internal_error() {
    let (pending, _) = query(CALL, Some(call("check_ingress_routing", None)));
    let text = finish_request(pending, Err("Failed to fetch APISIX routes: refused".to_string()));
    assert_eq!(
        text,
        r#"{"error":{"code":-32603,"message":"Failed to fetch APISIX routes: refused"},"id":4,"jsonrpc":"2.0"}"#
    );
}

#[test]
fn metrics_need_a_query() {
    let text = reply(CALL, Some(call("get_system_metrics", None)));
    assert_eq!(
        text,
        r#"{"error":{"code":-32603,"message":"Missing or invalid 'promql' parameter"},"id":4,"jsonrpc":"2.0"}"#
    );
    let text = reply(CALL, Some(call("get_system_metrics", Some(r#"{"promql":["up"]}"#))));
    assert!(text.contains("Missing or invalid 'promql' parameter"));
}

#[test]
fn metrics_wrap_the_cluster_answer() {
    let (pending, q) = query(CALL, Some(call("get_system_metrics", Some(r#"{"promql":"up{job=\"api\"}"}"#))));
    match q {
        ClusterQuery::Metrics(p) => assert_eq!(p, "up{job=\"api\"}"),
        _ => panic!("expected a metrics query"),
    }
    let text = finish_request(pending, Ok(doc(r#"{"status":"success","data":{"resultType":"vector","result":[]}}"#)));
    assert_eq!(
        text,
        r#"{"id":4,"jsonrpc":"2.0","result":{"data":{"data":{"result":[],"resultType":"vector"},"status":"success"},"message":"System metrics retrieved successfully.","status":"success"}}"#
    );
    let (pending, _) = query(CALL, Some(call("get_system_metrics", Some(r#"{"promql":"up"}"#))));
    let text = finish_request(pending, Err("Prometheus API error: 503 Service Unavailable".to_string()));
    assert_eq!(
        text,
        r#"{"error":{"code":-32603,"message":"Prometheus API error: 503 Service Unavailable"},"id":4,"jsonrpc":"2.0"}"#
    );
}

#[test]
fn request_ids_of_every_kind_are_echoed() {
    for id in [r#"1"#, r#""abc""#, r#"-2.5"#, r#"null"#, r#"18446744073709551615"#] {
        let line = format!(r#"{{"jsonrpc":"2.0","id":{},"method":"tools/call","params":{{"name":"check_ingress_routing"}}}}"#, id);
        let (pending, _) = query(&line, Some(call("check_ingress_routing", None)));
        let text = finish_request(pending, Err("x".to_string()));
        assert_eq!(value(&text)["id"], value(id));
        let line = format!(r#"{{"jsonrpc":"2.0","id":{},"method":"initialize"}}"#, id);
        assert_eq!(value(&reply(&line, None))["id"], value(id));
    }
}
