use kubelens_mcp::json::JsonValue;
use kubelens_mcp::protocol::{serialize_response, JsonRpcResponse};
use kubelens_mcp::tools::diagnostics::{pod_failure_analysis, pod_failure_namespace};
use kubelens_mcp::tools::ingress::{ingress_namespace, ingress_routing_outcome};
use kubelens_mcp::tools::metrics::{metrics_promql, system_metrics_outcome};
use kubelens_mcp::tools::{
    call_ping_tool, get_analyze_pod_failure_tool, get_check_ingress_routing_tool,
    get_get_system_metrics_tool, get_mock_ping_tool, safe_serialize_json,
};
use serde_json::Value;

fn from_serde(value: Value) -> JsonValue {
    match value {
        Value::Null => JsonValue::Null,
        Value::Bool(b) => JsonValue::Bool(b),
        Value::Number(n) => JsonValue::Number(n.to_string()),
        Value::String(s) => JsonValue::Str(s),
        Value::Array(a) => JsonValue::Array(a.into_iter().map(from_serde).collect()),
        Value::Object(m) => JsonValue::Object(m.into_iter().map(|(k, v)| (k, from_serde(v))).collect()),
    }
}

fn doc(text: &str) -> JsonValue {
    from_serde(serde_json::from_str(text).expect("valid JSON"))
}

fn compact_string(v: &JsonValue) -> String {
    let text = serialize_response(&JsonRpcResponse::success(JsonValue::Null, v.duplicate()));
    let v: Value = serde_json::from_str(&text).unwrap();
    v["result"].to_string()
}

#[test]
fn tool_descriptions_are_exact() {
    assert_eq!(
        compact_string(&get_mock_ping_tool().to_json()),
        r#"{"description":"A simple ping tool to verify connectivity.","inputSchema":{"properties":{},"required":[],"type":"object"},"name":"ping"}"#
    );
    assert_eq!(
        compact_string(&get_analyze_pod_failure_tool().to_json()),
        r#"{"description":"Analyzes pod failures in a specific namespace.","inputSchema":{"properties":{"namespace":{"type":"string"}},"required":["namespace"],"type":"object"},"name":"analyze_pod_failure"}"#
    );
    assert_eq!(get_check_ingress_routing_tool().name, "check_ingress_routing");
    assert_eq!(get_get_system_metrics_tool().name, "get_system_metrics");
    assert_eq!(
        compact_string(&kubelens_mcp::tools::ingress::get_check_ingress_routing_tool().input_schema),
        r#"{"properties":{"namespace":{"description":"Kubernetes namespace to check ingress routing in.","type":"string"}},"required":["namespace"],"type":"object"}"#
    );
    assert_eq!(
        compact_string(&kubelens_mcp::tools::metrics::get_get_system_metrics_tool().input_schema),
        r#"{"properties":{"promql":{"description":"Prometheus Query Language (PromQL) expression to execute.","type":"string"}},"required":["promql"],"type":"object"}"#
    );
}

#[test]
fn ping_ignores_its_arguments() {
    for args in [None, Some(doc(r#"{"x":1}"#))] {
        let r = call_ping_tool(args);
        assert_eq!(r.content.len(), 1);
        assert_eq!(r.content[0].content_type, "text");
        assert_eq!(r.content[0].text, "pong");
        assert_eq!(compact_string(&r.to_json()), r#"{"content":[{"text":"pong","type":"text"}]}"#);
    }
}

#[test]
fn pod_failure_steps() {
    match pod_failure_namespace(&None) {
        Err(answer) => assert_eq!(answer.content[0].text, "Missing arguments."),
        Ok(_) => panic!(),
    }
    match pod_failure_namespace(&Some(doc("[]"))) {
        Err(answer) => assert_eq!(answer.content[0].text, "Missing 'namespace' argument."),
        Ok(_) => panic!(),
    }
    match pod_failure_namespace(&Some(doc(r#"{"namespace":"kube-system"}"#))) {
        Ok(ns) => assert_eq!(ns, "kube-system"),
        Err(_) => panic!(),
    }
    let r = pod_failure_analysis(Ok(doc(r#"{"pods":[]}"#))).unwrap();
    assert_eq!(r.content[0].text, "{\n  \"pods\": []\n}");
    let e = pod_failure_analysis(Err("boom".to_string())).unwrap_err();
    assert_eq!(e, "Error analyzing pod failures: boom");
    let r = pod_failure_analysis(Ok(JsonValue::Number("x".to_string()))).unwrap();
    assert_eq!(r.content[0].text, "Failed to serialize data");
    assert_eq!(safe_serialize_json(&doc(r#"{"a":[1,2]}"#)), "{\n  \"a\": [\n    1,\n    2\n  ]\n}");
}

#[test]
fn ingress_steps() {
    assert_eq!(ingress_namespace(&doc("{}")), "default");
    assert_eq!(ingress_namespace(&doc(r#"{"namespace":"x"}"#)), "x");
    let r = ingress_routing_outcome(Ok(doc("[]"))).unwrap();
    assert_eq!(
        compact_string(&r),
        r#"{"data":[],"message":"Ingress routing status retrieved successfully.","status":"success"}"#
    );
    assert_eq!(ingress_routing_outcome(Err("e".to_string())).unwrap_err(), "e");
}

#[test]
fn metrics_steps() {
    assert_eq!(metrics_promql(&doc("{}")).unwrap_err(), "Missing or invalid 'promql' parameter");
    assert_eq!(metrics_promql(&doc(r#"{"promql":"rate(x[5m])"}"#)).unwrap(), "rate(x[5m])");
    let r = system_metrics_outcome(Ok(doc("null"))).unwrap();
    assert_eq!(
        compact_string(&r),
        r#"{"data":null,"message":"System metrics retrieved successfully.","status":"success"}"#
    );
    assert_eq!(system_metrics_outcome(Err("down".to_string())).unwrap_err(), "down");
}
