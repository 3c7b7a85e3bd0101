use crate::json::{member, member_views, views, Json, JsonValue};
use crate::protocol::opt_json;
use vstd::prelude::*;

verus! {

/// A tool that the server offers: its name, what it does, and the JSON
/// schema of its arguments.
#[derive(Debug)]
pub struct Tool {
    pub name: String,
    pub description: String,
    pub input_schema: JsonValue,
}

/// The model of a tool.
pub struct ToolModel {
    pub name: Seq<char>,
    pub description: Seq<char>,
    pub input_schema: Json,
}

impl View for Tool {
    type V = ToolModel;

    open spec fn view(&self) -> ToolModel {
        ToolModel { name: self.name@, description: self.description@, input_schema: self.input_schema@ }
    }
}

/// The document of a tool, as MCP names its members (`inputSchema` for the
/// schema of its arguments); its members come in the order of their keys.
pub open spec fn tool_json(t: ToolModel) -> Json {
    Json::Object(
        seq![
            ("description"@, Json::Str(t.description)),
            ("inputSchema"@, t.input_schema),
            ("name"@, Json::Str(t.name)),
        ],
    )
}

/// A tool is written with its name under `name`, its description under
/// `description` and the schema of its arguments under `inputSchema`, as MCP
/// names them, and with nothing else.
pub proof fn law_tool_members_are_mcp_names(t: ToolModel)
    ensures
        crate::json::json_get(tool_json(t), "name"@) == Some(Json::Str(t.name)),
        crate::json::json_get(tool_json(t), "description"@) == Some(Json::Str(t.description)),
        crate::json::json_get(tool_json(t), "inputSchema"@) == Some(t.input_schema),
        tool_json(t)->Object_0.len() == 3,
{
    reveal_strlit("name");
    reveal_strlit("description");
    reveal_strlit("inputSchema");
    assert("name"@[0] != "description"@[0]);
    assert("name"@[0] != "inputSchema"@[0]);
    assert("description"@[0] != "inputSchema"@[0]);
    let m = tool_json(t)->Object_0;
    let m2 = m.drop_last();
    assert(m2 =~= seq![m[0], m[1]]);
    assert(m2.drop_last() =~= seq![m[0]]);
    assert(m2.drop_last().drop_last() =~= Seq::<(Seq<char>, Json)>::empty());
    assert(m.last().0 != "description"@ && m.last().0 != "inputSchema"@);
    assert(m2.last().0 != "description"@);
    assert(crate::json::member_lookup(m2.drop_last(), "description"@) == Some(Json::Str(t.description)));
    assert(crate::json::member_lookup(m2, "description"@) == Some(Json::Str(t.description)));
    assert(crate::json::member_lookup(m, "description"@) == Some(Json::Str(t.description)));
    assert(crate::json::member_lookup(m2, "inputSchema"@) == Some(t.input_schema));
}

impl Tool {
    /// The document of the tool.
    pub fn to_json(&self) -> (r: JsonValue)
        ensures
            r@ == tool_json(self@),
    {
        let members = vec![
            member("description", JsonValue::Str(self.description.clone())),
            member("inputSchema", self.input_schema.duplicate()),
            member("name", JsonValue::Str(self.name.clone())),
        ];
        let r = JsonValue::object(members);
        assert(member_views(members@) =~= tool_json(self@)->Object_0);
        r
    }
}

/// The answer to `tools/list`.
#[derive(Debug)]
pub struct ToolListResponse {
    pub tools: Vec<Tool>,
}

/// The models of a sequence of tools.
pub open spec fn tool_models(tools: Seq<Tool>) -> Seq<ToolModel> {
    Seq::new(tools.len(), |i: int| tools[i]@)
}

/// The document of a tool list.
pub open spec fn tool_list_json(tools: Seq<ToolModel>) -> Json {
    Json::Object(seq![("tools"@, Json::Array(Seq::new(tools.len(), |i: int| tool_json(tools[i]))))])
}

impl ToolListResponse {
    /// The document of the tool list.
    pub fn to_json(&self) -> (r: JsonValue)
        ensures
            r@ == tool_list_json(tool_models(self.tools@)),
    {
        let mut items: Vec<JsonValue> = Vec::new();
        let mut i: usize = 0;
        while i < self.tools.len()
            invariant
                i <= self.tools.len(),
                items.len() == i,
                forall|k: int| 0 <= k < i ==> (#[trigger] items@[k])@ == tool_json(self.tools@[k]@),
            decreases self.tools.len() - i,
        {
            items.push(self.tools[i].to_json());
            i += 1;
        }
        let ghost expected = tool_list_json(tool_models(self.tools@));
        let array = JsonValue::array(items);
        assert(views(items@) =~= expected->Object_0[0].1->Array_0);
        let r = JsonValue::object(vec![member("tools", array)]);
        assert(r@->Object_0 =~= expected->Object_0);
        r
    }
}

/// The arguments of `tools/call`: the name of the tool, and its arguments
/// (none when they are missing or `null`).
#[derive(Debug)]
pub struct ToolCallParams {
    pub name: String,
    pub arguments: Option<JsonValue>,
}

/// The model of the arguments of `tools/call`.
pub struct CallModel {
    pub name: Seq<char>,
    pub arguments: Option<Json>,
}

impl View for ToolCallParams {
    type V = CallModel;

    open spec fn view(&self) -> CallModel {
        CallModel { name: self.name@, arguments: opt_json(self.arguments) }
    }
}

/// One piece of the content of a tool's answer.
#[derive(Debug)]
pub struct ToolContent {
    pub content_type: String,
    pub text: String,
}

/// The model of a piece of content.
pub struct ContentModel {
    pub content_type: Seq<char>,
    pub text: Seq<char>,
}

impl View for ToolContent {
    type V = ContentModel;

    open spec fn view(&self) -> ContentModel {
        ContentModel { content_type: self.content_type@, text: self.text@ }
    }
}

/// The document of a piece of content: `content_type` is written as `type`.
pub open spec fn content_json(c: ContentModel) -> Json {
    Json::Object(seq![("text"@, Json::Str(c.text)), ("type"@, Json::Str(c.content_type))])
}

impl ToolContent {
    /// The document of the piece of content.
    pub fn to_json(&self) -> (r: JsonValue)
        ensures
            r@ == content_json(self@),
    {
        let members = vec![
            member("text", JsonValue::Str(self.text.clone())),
            member("type", JsonValue::Str(self.content_type.clone())),
        ];
        let r = JsonValue::object(members);
        assert(member_views(members@) =~= content_json(self@)->Object_0);
        r
    }
}

/// A tool's answer.
#[derive(Debug)]
pub struct ToolCallResponse {
    pub content: Vec<ToolContent>,
}

impl View for ToolCallResponse {
    type V = Seq<ContentModel>;

    open spec fn view(&self) -> Seq<ContentModel> {
        Seq::new(self.content@.len(), |i: int| self.content@[i]@)
    }
}

/// The document of a tool's answer.
pub open spec fn call_response_json(content: Seq<ContentModel>) -> Json {
    Json::Object(
        seq![("content"@, Json::Array(Seq::new(content.len(), |i: int| content_json(content[i]))))],
    )
}

/// An answer of one piece of text.
pub open spec fn text_answer(text: Seq<char>) -> Seq<ContentModel> {
    seq![ContentModel { content_type: "text"@, text }]
}

impl ToolCallResponse {
    /// An answer of one piece of text.
    pub fn text(text: String) -> (r: ToolCallResponse)
        ensures
            r@ == text_answer(text@),
    {
        let r = ToolCallResponse {
            content: vec![ToolContent { content_type: String::from_str("text"), text }],
        };
        assert(r@ =~= text_answer(text@));
        r
    }

    /// The document of the answer.
    pub fn to_json(&self) -> (r: JsonValue)
        ensures
            r@ == call_response_json(self@),
    {
        let mut items: Vec<JsonValue> = Vec::new();
        let mut i: usize = 0;
        while i < self.content.len()
            invariant
                i <= self.content.len(),
                items.len() == i,
                forall|k: int| 0 <= k < i ==> (#[trigger] items@[k])@ == content_json(self.content@[k]@),
            decreases self.content.len() - i,
        {
            items.push(self.content[i].to_json());
            i += 1;
        }
        let ghost expected = call_response_json(self@);
        let array = JsonValue::array(items);
        assert(views(items@) =~= expected->Object_0[0].1->Array_0);
        let r = JsonValue::object(vec![member("content", array)]);
        assert(r@->Object_0 =~= expected->Object_0);
        r
    }
}

} // verus!
