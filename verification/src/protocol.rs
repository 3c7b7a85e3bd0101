use crate::json::{
    compact_string, fits, int_text, integer_json, json_get, json_text, key_less, keys_ascending,
    member, member_views, readable, reads_back, text_is, Json, JsonValue,
};
use vstd::prelude::*;

verus! {

/// JSON-RPC 2.0: the request text is not JSON.
pub const PARSE_ERROR: i32 = -32700;

/// JSON-RPC 2.0: the request is JSON but not a valid request object.
pub const INVALID_REQUEST: i32 = -32600;

/// JSON-RPC 2.0: no such method (or, for `tools/call`, no such tool).
pub const METHOD_NOT_FOUND: i32 = -32601;

/// JSON-RPC 2.0: the parameters of a method are missing or malformed.
pub const INVALID_PARAMS: i32 = -32602;

/// JSON-RPC 2.0: the server failed while it served the request.
pub const INTERNAL_ERROR: i32 = -32603;

/// A JSON-RPC request, as read from a request object. A request without an
/// `id` member is a notification.
#[derive(Debug)]
pub struct JsonRpcRequest {
    pub id: Option<JsonValue>,
    pub method: String,
    pub params: Option<JsonValue>,
}

/// The model of a request.
pub struct RequestModel {
    pub id: Option<Json>,
    pub method: Seq<char>,
    pub params: Option<Json>,
}

/// The view of an optional document.
pub open spec fn opt_json(o: Option<JsonValue>) -> Option<Json> {
    match o {
        Some(v) => Some(v@),
        None => None,
    }
}

impl View for JsonRpcRequest {
    type V = RequestModel;

    open spec fn view(&self) -> RequestModel {
        RequestModel { id: opt_json(self.id), method: self.method@, params: opt_json(self.params) }
    }
}

/// The error part of a response.
#[derive(Debug)]
pub struct JsonRpcError {
    pub code: i32,
    pub message: String,
}

/// A JSON-RPC response: the id of the request it answers, and a result or
/// an error.
#[derive(Debug)]
pub struct JsonRpcResponse {
    pub id: JsonValue,
    pub result: Option<JsonValue>,
    pub error: Option<JsonRpcError>,
}

/// The model of a response.
pub struct ResponseModel {
    pub id: Json,
    pub result: Option<Json>,
    pub error: Option<(i32, Seq<char>)>,
}

impl View for JsonRpcResponse {
    type V = ResponseModel;

    open spec fn view(&self) -> ResponseModel {
        ResponseModel {
            id: self.id@,
            result: opt_json(self.result),
            error: match self.error {
                Some(e) => Some((e.code, e.message@)),
                None => None,
            },
        }
    }
}

/// A successful response.
pub open spec fn success_model(id: Json, result: Json) -> ResponseModel {
    ResponseModel { id, result: Some(result), error: None }
}

/// A failed response.
pub open spec fn error_model(id: Json, code: i32, message: Seq<char>) -> ResponseModel {
    ResponseModel { id, result: None, error: Some((code, message)) }
}

/// A member that is read into an `Option`: a missing member and a `null`
/// one are both `None`.
pub open spec fn optional_member(j: Json, key: Seq<char>) -> Option<Json> {
    match json_get(j, key) {
        Some(Json::Null) => None,
        Some(x) => Some(x),
        None => None,
    }
}

/// An id that JSON-RPC 2.0 allows: a string, a number or `null`.
pub open spec fn valid_id(j: Json) -> bool {
    j is Str || j is Number || j is Null
}

/// How a request object is read, as JSON-RPC 2.0 asks: `jsonrpc` must be
/// `"2.0"`, `method` a string, and `id`, when present, a string, a number or
/// `null`. A missing or `null` `params` is none; other members are ignored.
/// Anything else is not a request.
pub open spec fn request_of(j: Json) -> Option<RequestModel> {
    let method = json_get(j, "method"@);
    let id = json_get(j, "id"@);
    if j is Object && json_get(j, "jsonrpc"@) == Some(Json::Str("2.0"@)) && method is Some
        && method->Some_0 is Str && (id is Some ==> valid_id(id->Some_0)) {
        Some(RequestModel { id, method: method->Some_0->Str_0, params: optional_member(j, "params"@) })
    } else {
        None
    }
}

/// The view of the outcome of reading a request.
pub open spec fn request_option_view(r: Option<JsonRpcRequest>) -> Option<RequestModel> {
    match r {
        Some(req) => Some(req@),
        None => None,
    }
}

/// Reads an optional member.
fn read_optional_member(v: &JsonValue, key: &str) -> (r: Option<JsonValue>)
    ensures
        opt_json(r) == optional_member(v@, key@),
{
    match v.get(key) {
        Some(JsonValue::Null) => None,
        Some(x) => Some(x.duplicate()),
        None => None,
    }
}

impl JsonRpcRequest {
    /// Reads a request from a document; nothing when it is not a valid
    /// request object.
    pub fn from_json(v: &JsonValue) -> (r: Option<JsonRpcRequest>)
        ensures
            request_option_view(r) == request_of(v@),
    {
        match v {
            JsonValue::Object(_) => {},
            _ => {
                return None;
            },
        }
        let version_ok = match v.get("jsonrpc") {
            Some(JsonValue::Str(s)) => text_is(s, "2.0"),
            _ => false,
        };
        if !version_ok {
            return None;
        }
        let method = match v.get("method") {
            Some(JsonValue::Str(m)) => m.clone(),
            _ => {
                return None;
            },
        };
        let id = match v.get("id") {
            None => None,
            Some(x) => match x {
                JsonValue::Str(_) | JsonValue::Number(_) | JsonValue::Integer(_) | JsonValue::Null => Some(
                    x.duplicate(),
                ),
                _ => {
                    return None;
                },
            },
        };
        Some(JsonRpcRequest { id, method, params: read_optional_member(v, "params") })
    }
}

impl JsonRpcResponse {
    /// A successful response to the request `id`.
    pub fn success(id: JsonValue, result: JsonValue) -> (r: JsonRpcResponse)
        ensures
            r@ == success_model(id@, result@),
    {
        JsonRpcResponse { id, result: Some(result), error: None }
    }

    /// A failed response to the request `id`.
    pub fn error(id: &JsonValue, code: i32, message: String) -> (r: JsonRpcResponse)
        ensures
            r@ == error_model(id@, code, message@),
    {
        JsonRpcResponse { id: id.duplicate(), result: None, error: Some(JsonRpcError { code, message }) }
    }
}

/// The document that a response is written as, its members in the order of
/// their keys: `error` (with its `code` and `message`) or `result`, `id`,
/// and `jsonrpc`.
pub open spec fn response_json(r: ResponseModel) -> Json {
    Json::Object(
        match r.error {
            Some((code, message)) => seq![
                ("error"@, Json::Object(
                    seq![("code"@, Json::Number(int_text(code as int))), ("message"@, Json::Str(message))],
                )),
            ],
            None => Seq::empty(),
        } + seq![("id"@, r.id), ("jsonrpc"@, Json::Str("2.0"@))] + match r.result {
            Some(x) => seq![("result"@, x)],
            None => Seq::empty(),
        },
    )
}

/// A response is written with `"jsonrpc": "2.0"`, the id of the request it
/// answers, and its result or its error (with the error's code and message).
pub proof fn law_response_members(r: ResponseModel)
    ensures
        json_get(response_json(r), "jsonrpc"@) == Some(Json::Str("2.0"@)),
        json_get(response_json(r), "id"@) == Some(r.id),
        r.result matches Some(x) ==> json_get(response_json(r), "result"@) == Some(x),
        r.result is None ==> json_get(response_json(r), "result"@) is None,
        r.error matches Some((code, message)) ==> json_get(response_json(r), "error"@) == Some(
            Json::Object(
                seq![("code"@, Json::Number(int_text(code as int))), ("message"@, Json::Str(message))],
            ),
        ),
        r.error is None ==> json_get(response_json(r), "error"@) is None,
{
    reveal_strlit("error");
    reveal_strlit("id");
    reveal_strlit("jsonrpc");
    reveal_strlit("result");
    let keys = seq!["error"@, "id"@, "jsonrpc"@, "result"@];
    assert(keys[0][0] == 'e' && keys[1][0] == 'i' && keys[2][0] == 'j' && keys[3][0] == 'r');
    let m = response_json(r)->Object_0;
    crate::json::law_get_finds_the_last_member(m, "error"@);
    crate::json::law_get_finds_the_last_member(m, "id"@);
    crate::json::law_get_finds_the_last_member(m, "jsonrpc"@);
    crate::json::law_get_finds_the_last_member(m, "result"@);
    let e: Seq<(Seq<char>, Json)> = match r.error {
        Some((code, message)) => seq![
            ("error"@, Json::Object(
                seq![("code"@, Json::Number(int_text(code as int))), ("message"@, Json::Str(message))],
            )),
        ],
        None => Seq::empty(),
    };
    let mid = seq![("id"@, r.id), ("jsonrpc"@, Json::Str("2.0"@))];
    let t: Seq<(Seq<char>, Json)> = match r.result {
        Some(x) => seq![("result"@, x)],
        None => Seq::empty(),
    };
    assert(m == e + mid + t);
    assert(m[e.len() as int] == ("id"@, r.id));
    assert(m[e.len() + 1int] == ("jsonrpc"@, Json::Str("2.0"@)));
    assert forall|i: int| 0 <= i < m.len() && (#[trigger] m[i]).0 == "id"@ implies i == e.len() by {
        if i < e.len() {
        } else if i >= e.len() + 2 {
        }
    }
    assert forall|i: int| 0 <= i < m.len() && (#[trigger] m[i]).0 == "jsonrpc"@ implies i == e.len() + 1 by {
        if i < e.len() {
        } else if i >= e.len() + 2 {
        }
    }
    assert forall|i: int| 0 <= i < m.len() && (#[trigger] m[i]).0 == "result"@ implies r.result is Some && i
        == m.len() - 1 by {
        if i < e.len() {
        } else if i < e.len() + 2 {
        }
    }
    assert forall|i: int| 0 <= i < m.len() && (#[trigger] m[i]).0 == "error"@ implies r.error is Some && i
        == 0 by {
        if i >= e.len() && i < e.len() + 2 {
        } else if i >= e.len() + 2 {
        }
    }
    if r.result is Some {
        assert(m[m.len() - 1] == ("result"@, r.result->Some_0));
    }
    if r.error is Some {
        assert(m[0] == ("error"@, e[0].1));
    }
}

/// The response sent when a response cannot be written.
pub open spec fn fallback_response() -> ResponseModel {
    error_model(Json::Null, INTERNAL_ERROR, "Internal serialization error"@)
}

/// The text of a response: what serde_json writes for it; when it cannot be
/// written, the text of the fallback response; the empty text when neither
/// can be written.
pub open spec fn response_text(r: ResponseModel) -> Seq<char> {
    match json_text(response_json(r)) {
        Some(t) => t,
        None => match json_text(response_json(fallback_response())) {
            Some(t) => t,
            None => Seq::empty(),
        },
    }
}

/// A response whose id and result serde_json reads back as they were.
pub open spec fn response_fits(r: ResponseModel) -> bool {
    &&& fits(r.id, 126)
    &&& r.result matches Some(x) ==> fits(x, 126)
}

/// A response whose id and result read back unchanged is itself read back
/// unchanged.
pub proof fn lemma_response_readable(r: ResponseModel)
    requires
        response_fits(r),
    ensures
        readable(response_json(r)),
{
    reveal_strlit("error");
    reveal_strlit("id");
    reveal_strlit("jsonrpc");
    reveal_strlit("result");
    reveal_strlit("code");
    reveal_strlit("message");
    assert(key_less("error"@, "id"@));
    assert(key_less("id"@, "jsonrpc"@));
    assert(key_less("jsonrpc"@, "result"@));
    assert(key_less("code"@, "message"@));
    let members = response_json(r)->Object_0;
    match r.error {
        Some((code, message)) => {
            let inner = seq![("code"@, Json::Number(int_text(code as int))), ("message"@, Json::Str(message))];
            assert(keys_ascending(inner));
            assert(fits(Json::Number(int_text(code as int)), 125));
            assert forall|i: int| 0 <= i < inner.len() implies fits(#[trigger] inner[i].1, 125) by {}
            assert(fits(Json::Object(inner), 126));
        },
        None => {},
    }
    assert(keys_ascending(members));
    assert forall|i: int| 0 <= i < members.len() implies fits(#[trigger] members[i].1, 126) by {}
}

/// What serde_json reads back from the text written for a response: the
/// response when its id and result read back unchanged, and the fallback
/// frame when the response could not be written.
pub open spec fn text_reads_back(text: Seq<char>, r: ResponseModel) -> bool {
    &&& response_fits(r) ==> reads_back(text, response_json(r))
    &&& json_text(response_json(r)) is None ==> reads_back(text, response_json(fallback_response()))
}

impl JsonRpcResponse {
    /// The document of the response.
    pub fn to_json(&self) -> (r: JsonValue)
        ensures
            r@ == response_json(self@),
    {
        let mut members: Vec<(String, JsonValue)> = Vec::new();
        match &self.error {
            Some(e) => {
                let code = integer_json(e.code as i64);
                let message = JsonValue::Str(e.message.clone());
                let inner = JsonValue::object(vec![member("code", code), member("message", message)]);
                let ghost inner_members = seq![
                    ("code"@, Json::Number(int_text(e.code as int))),
                    ("message"@, Json::Str(e.message@)),
                ];
                assert(inner@->Object_0 =~= inner_members);
                members.push(member("error", inner));
            },
            None => {},
        }
        let ghost head = member_views(members@);
        members.push(member("id", self.id.duplicate()));
        members.push(member("jsonrpc", JsonValue::text("2.0")));
        let ghost with_id = head + seq![("id"@, self.id@), ("jsonrpc"@, Json::Str("2.0"@))];
        assert(member_views(members@) =~= with_id);
        match &self.result {
            Some(x) => {
                members.push(member("result", x.duplicate()));
                assert(member_views(members@) =~= with_id + seq![("result"@, x@)]);
            },
            None => {},
        }
        let r = JsonValue::object(members);
        assert(member_views(members@) =~= response_json(self@)->Object_0);
        r
    }
}

/// The text of a response, as serde_json writes it. serde_json reads the
/// response back from it when its id and result read back unchanged; when
/// the response cannot be written, the text is that of the fallback
/// internal-error frame, which serde_json reads back.
pub fn serialize_response(response: &JsonRpcResponse) -> (r: String)
    ensures
        r@ == response_text(response@),
        text_reads_back(r@, response@),
{
    proof {
        if response_fits(response@) {
            lemma_response_readable(response@);
        }
        lemma_response_readable(fallback_response());
    }
    match compact_string(&response.to_json()) {
        Some(text) => text,
        None => {
            let fallback = JsonRpcResponse::error(
                &JsonValue::Null,
                INTERNAL_ERROR,
                String::from_str("Internal serialization error"),
            );
            match compact_string(&fallback.to_json()) {
                Some(text) => text,
                None => String::new(),
            }
        },
    }
}

/// The text of a failed response; serde_json reads back from it the id, the
/// code and the message when the id reads back unchanged.
pub fn serialize_error(id: JsonValue, code: i32, message: String) -> (r: String)
    ensures
        r@ == response_text(error_model(id@, code, message@)),
        fits(id@, 126) ==> reads_back(r@, response_json(error_model(id@, code, message@))),
{
    serialize_response(&JsonRpcResponse::error(&id, code, message))
}

} // verus!
