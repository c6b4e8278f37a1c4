//! In-process MCP servers.
//!
//! Tools can be served from within the process instead of from an MCP server process of
//! their own. The agent command line speaks JSON-RPC to such a server by wrapping each
//! request in an `mcp_message` control request. This module is the server side: it
//! answers `initialize`, `tools/list` and `tools/call`.
//!
//! Running a tool is the caller's part: [`SdkMcpServer::handle_message`] says which
//! handler to run on which arguments, and [`tool_response`] makes the response of what
//! the handler returned. The handler's own type `H` is left open.

use crate::json::{
    array, bool_json, clone_values, cloned_member, get, integer, json, json_ref, jsons, no_members,
    null, object, put_bool, string, text_member, with_member, Json,
};
use crate::text::converts;
use serde_json::Value;
use std::sync::Arc;
use vstd::prelude::*;

verus! {

/// The MCP protocol version that the servers advertise.
pub const PROTOCOL_VERSION: &'static str = "2024-11-05";

/// The JSON-RPC error code of an unknown method or tool.
pub const METHOD_NOT_FOUND: i64 = -32601;

/// The JSON-RPC error code of parameters that cannot be used.
pub const INVALID_PARAMS: i64 = -32602;

/// The result of an MCP tool invocation.
#[derive(Debug, PartialEq)]
pub struct ToolResult {
    /// Content blocks returned to the model (typically a single `text` block).
    pub content: Vec<Value>,
    /// Marks the call as failed; the model sees the content as an error.
    pub is_error: Option<bool>,
}

/// What a [`ToolResult`] holds.
pub struct ToolResultView {
    pub content: Seq<Json>,
    pub is_error: Option<bool>,
}

impl View for ToolResult {
    type V = ToolResultView;

    open spec fn view(&self) -> ToolResultView {
        ToolResultView { content: jsons(self.content@), is_error: self.is_error }
    }
}

impl ToolResultView {
    /// The result on the wire: the content, and the error mark where it is set.
    pub open spec fn wire(self) -> Json {
        Json::Object(
            with_member(
                no_members().insert("content"@, Json::Array(self.content)),
                "isError"@,
                bool_json(self.is_error),
            ),
        )
    }
}

/// The content block of a text.
pub open spec fn text_block_json(text: Seq<char>) -> Json {
    Json::Object(
        no_members().insert("type"@, Json::Text("text"@)).insert("text"@, Json::Text(text)),
    )
}

impl ToolResultView {
    /// The successful result of a text: one text block.
    pub open spec fn of_text(text: Seq<char>) -> ToolResultView {
        ToolResultView { content: seq![text_block_json(text)], is_error: None }
    }

    /// The error result of a text: one text block, marked as an error.
    pub open spec fn of_error(text: Seq<char>) -> ToolResultView {
        ToolResultView { content: seq![text_block_json(text)], is_error: Some(true) }
    }
}

/// The content block of a text.
fn text_block(text: String) -> (r: Value)
    ensures
        json(r) == text_block_json(text@),
{
    let mut map = serde_json::Map::new();
    let _ = map.insert(String::from("type"), string(String::from("text")));
    let _ = map.insert(String::from("text"), string(text));
    object(map)
}

impl Clone for ToolResult {
    fn clone(&self) -> (r: ToolResult)
        ensures
            r@ == self@,
    {
        ToolResult { content: clone_values(&self.content), is_error: self.is_error }
    }
}

impl Default for ToolResult {
    /// A result without content.
    fn default() -> (r: ToolResult)
        ensures
            r@ == (ToolResultView { content: Seq::empty(), is_error: None }),
    {
        let r = ToolResult { content: Vec::new(), is_error: None };
        assert(jsons(r.content@) =~= Seq::empty());
        r
    }
}

impl ToolResult {
    /// A successful text result.
    pub fn text<T: Into<String>>(text: T) -> (r: ToolResult)
        ensures
            exists|content: String| #[trigger]
                converts(text, content) && r@ == ToolResultView::of_text(content@),
    {
        let content: String = text.into();
        assert(converts(text, content));
        let block = text_block(content);
        let r = ToolResult { content: vec![block], is_error: None };
        assert(jsons(r.content@) =~= seq![text_block_json(content@)]);
        r
    }

    /// An error text result.
    pub fn error<T: Into<String>>(text: T) -> (r: ToolResult)
        ensures
            exists|content: String| #[trigger]
                converts(text, content) && r@ == ToolResultView::of_error(content@),
    {
        let content: String = text.into();
        assert(converts(text, content));
        let mut r = ToolResult::text(content);
        r.is_error = Some(true);
        r
    }

    /// The result on the wire.
    pub fn into_value(self) -> (r: Value)
        ensures
            json(r) == self@.wire(),
    {
        let ToolResult { content, is_error } = self;
        let mut map = serde_json::Map::new();
        let _ = map.insert(String::from("content"), array(content));
        put_bool(&mut map, "isError", &is_error);
        object(map)
    }
}

/// A single tool exposed by an [`SdkMcpServer`].
pub struct SdkMcpTool<H: ?Sized> {
    pub name: String,
    pub description: String,
    /// JSON Schema describing the tool's arguments.
    pub input_schema: Value,
    /// Runs the tool.
    pub handler: Arc<H>,
}

/// What an [`SdkMcpTool`] holds.
pub struct SdkMcpToolView<H: ?Sized> {
    pub name: Seq<char>,
    pub description: Seq<char>,
    pub input_schema: Json,
    pub handler: Arc<H>,
}

impl<H: ?Sized> View for SdkMcpTool<H> {
    type V = SdkMcpToolView<H>;

    open spec fn view(&self) -> SdkMcpToolView<H> {
        SdkMcpToolView {
            name: self.name@,
            description: self.description@,
            input_schema: json(self.input_schema),
            handler: self.handler,
        }
    }
}

impl<H: ?Sized> Clone for SdkMcpTool<H> {
    fn clone(&self) -> (r: SdkMcpTool<H>)
        ensures
            r@ == self@,
    {
        SdkMcpTool {
            name: self.name.clone(),
            description: self.description.clone(),
            input_schema: self.input_schema.clone(),
            handler: Arc::clone(&self.handler),
        }
    }
}

impl<H: ?Sized> SdkMcpToolView<H> {
    /// The description of the tool that the server lists.
    pub open spec fn descriptor(self) -> Json {
        Json::Object(
            no_members().insert("name"@, Json::Text(self.name)).insert(
                "description"@,
                Json::Text(self.description),
            ).insert("inputSchema"@, self.input_schema),
        )
    }
}

impl<H: ?Sized> SdkMcpTool<H> {
    /// Define a tool from a handler.
    pub fn new<N: Into<String>, D: Into<String>>(
        name: N,
        description: D,
        input_schema: Value,
        handler: Arc<H>,
    ) -> (r: SdkMcpTool<H>)
        ensures
            converts(name, r.name),
            converts(description, r.description),
            r.input_schema == input_schema,
            r.handler == handler,
    {
        SdkMcpTool { name: name.into(), description: description.into(), input_schema, handler }
    }

    /// The description of the tool that the server lists.
    pub fn descriptor(&self) -> (r: Value)
        ensures
            json(r) == self@.descriptor(),
    {
        let mut map = serde_json::Map::new();
        let _ = map.insert(String::from("name"), string(self.name.clone()));
        let _ = map.insert(String::from("description"), string(self.description.clone()));
        let _ = map.insert(String::from("inputSchema"), self.input_schema.clone());
        object(map)
    }
}

/// An in-process MCP server: a named bundle of [`SdkMcpTool`]s.
pub struct SdkMcpServer<H: ?Sized> {
    pub name: String,
    pub version: String,
    pub tools: Vec<SdkMcpTool<H>>,
}

/// What an [`SdkMcpServer`] holds.
pub struct SdkMcpServerView<H: ?Sized> {
    pub name: Seq<char>,
    pub version: Seq<char>,
    pub tools: Seq<SdkMcpToolView<H>>,
}

impl<H: ?Sized> View for SdkMcpServer<H> {
    type V = SdkMcpServerView<H>;

    open spec fn view(&self) -> SdkMcpServerView<H> {
        SdkMcpServerView {
            name: self.name@,
            version: self.version@,
            tools: Seq::new(self.tools@.len(), |i: int| self.tools@[i]@),
        }
    }
}

impl<H: ?Sized> Clone for SdkMcpServer<H> {
    fn clone(&self) -> (r: SdkMcpServer<H>)
        ensures
            r@ == self@,
    {
        let mut tools: Vec<SdkMcpTool<H>> = Vec::new();
        let mut i: usize = 0;
        while i < self.tools.len()
            invariant
                i <= self.tools@.len(),
                tools@.len() == i,
                forall|k: int| 0 <= k < i ==> (#[trigger] tools@[k])@ == self.tools@[k]@,
            decreases self.tools@.len() - i,
        {
            tools.push(self.tools[i].clone());
            i = i + 1;
        }
        let r = SdkMcpServer { name: self.name.clone(), version: self.version.clone(), tools };
        assert(r@.tools =~= self@.tools);
        r
    }
}

/// A JSON-RPC error.
#[derive(Debug)]
pub struct JsonRpcError {
    pub code: i64,
    pub message: String,
}

/// What a [`JsonRpcError`] holds.
pub struct JsonRpcErrorView {
    pub code: int,
    pub message: Seq<char>,
}

impl View for JsonRpcError {
    type V = JsonRpcErrorView;

    open spec fn view(&self) -> JsonRpcErrorView {
        JsonRpcErrorView { code: self.code as int, message: self.message@ }
    }
}

impl JsonRpcErrorView {
    /// The error of an unknown method or tool.
    pub open spec fn method_not_found(method: Seq<char>) -> JsonRpcErrorView {
        JsonRpcErrorView {
            code: METHOD_NOT_FOUND as int,
            message: "method not found: "@ + method,
        }
    }

    /// The error of parameters that cannot be used.
    pub open spec fn invalid_params(message: Seq<char>) -> JsonRpcErrorView {
        JsonRpcErrorView { code: INVALID_PARAMS as int, message }
    }

    /// The error on the wire.
    pub open spec fn wire(self) -> Json {
        Json::Object(
            no_members().insert("code"@, Json::Integer(self.code)).insert(
                "message"@,
                Json::Text(self.message),
            ),
        )
    }
}

impl JsonRpcError {
    /// The error of an unknown method or tool.
    pub fn method_not_found(method: &str) -> (r: JsonRpcError)
        ensures
            r@ == JsonRpcErrorView::method_not_found(method@),
    {
        let mut message = String::from("method not found: ");
        message.append(method);
        JsonRpcError { code: METHOD_NOT_FOUND, message }
    }

    /// The error of parameters that cannot be used.
    pub fn invalid_params(message: &str) -> (r: JsonRpcError)
        ensures
            r@ == JsonRpcErrorView::invalid_params(message@),
    {
        JsonRpcError { code: INVALID_PARAMS, message: String::from(message) }
    }

    /// The error on the wire.
    pub fn to_value(&self) -> (r: Value)
        ensures
            json(r) == self@.wire(),
    {
        let mut map = serde_json::Map::new();
        let _ = map.insert(String::from("code"), integer(self.code));
        let _ = map.insert(String::from("message"), string(self.message.clone()));
        object(map)
    }
}

/// Whether the tool at `i` is the first one with that name.
pub open spec fn is_first_named<H: ?Sized>(
    tools: Seq<SdkMcpToolView<H>>,
    name: Seq<char>,
    i: int,
) -> bool {
    &&& 0 <= i < tools.len()
    &&& tools[i].name == name
    &&& forall|k: int| 0 <= k < i ==> (#[trigger] tools[k]).name != name
}

/// The first tool with that name.
pub open spec fn find_tool<H: ?Sized>(
    tools: Seq<SdkMcpToolView<H>>,
    name: Seq<char>,
) -> Option<SdkMcpToolView<H>> {
    if exists|i: int| is_first_named(tools, name, i) {
        Some(tools[choose|i: int| is_first_named(tools, name, i)])
    } else {
        None
    }
}

/// A call of a tool: the handler to run and its arguments.
pub struct ToolCall<H: ?Sized> {
    pub handler: Arc<H>,
    pub arguments: Value,
}

/// What a [`ToolCall`] holds.
pub struct ToolCallView<H: ?Sized> {
    pub handler: Arc<H>,
    pub arguments: Json,
}

impl<H: ?Sized> View for ToolCall<H> {
    type V = ToolCallView<H>;

    open spec fn view(&self) -> ToolCallView<H> {
        ToolCallView { handler: self.handler, arguments: json(self.arguments) }
    }
}

/// How a message is handled.
pub enum Handling<H: ?Sized> {
    /// The message is a notification and gets no response.
    Silent,
    /// The response to the message.
    Respond(Value),
    /// The tool to call; [`tool_response`] with this `id` makes the response of its
    /// result.
    Invoke { id: Value, call: ToolCall<H> },
}

/// What a [`Handling`] holds.
pub enum HandlingView<H: ?Sized> {
    Silent,
    Respond(Json),
    Invoke { id: Json, call: ToolCallView<H> },
}

impl<H: ?Sized> View for Handling<H> {
    type V = HandlingView<H>;

    open spec fn view(&self) -> HandlingView<H> {
        match self {
            Handling::Silent => HandlingView::Silent,
            Handling::Respond(response) => HandlingView::Respond(json(*response)),
            Handling::Invoke { id, call } => HandlingView::Invoke { id: json(*id), call: call@ },
        }
    }
}

/// The response of a request that succeeded.
pub open spec fn success_response(id: Json, result: Json) -> Json {
    Json::Object(
        no_members().insert("jsonrpc"@, Json::Text("2.0"@)).insert("id"@, id).insert(
            "result"@,
            result,
        ),
    )
}

/// The response of a request that failed.
pub open spec fn error_response(id: Json, error: JsonRpcErrorView) -> Json {
    Json::Object(
        no_members().insert("jsonrpc"@, Json::Text("2.0"@)).insert("id"@, id).insert(
            "error"@,
            error.wire(),
        ),
    )
}

impl<H: ?Sized> SdkMcpServerView<H> {
    /// The entry that announces the server.
    pub open spec fn config_entry(self) -> Json {
        Json::Object(
            no_members().insert("type"@, Json::Text("sdk"@)).insert("name"@, Json::Text(self.name)),
        )
    }

    /// The result of `initialize`.
    pub open spec fn initialize_result(self) -> Json {
        Json::Object(
            no_members().insert("protocolVersion"@, Json::Text(PROTOCOL_VERSION@)).insert(
                "capabilities"@,
                Json::Object(no_members().insert("tools"@, Json::Object(no_members()))),
            ).insert(
                "serverInfo"@,
                Json::Object(
                    no_members().insert("name"@, Json::Text(self.name)).insert(
                        "version"@,
                        Json::Text(self.version),
                    ),
                ),
            ),
        )
    }

    /// The result of `tools/list`: the descriptions of the tools in their order.
    pub open spec fn list_result(self) -> Json {
        Json::Object(
            no_members().insert(
                "tools"@,
                Json::Array(Seq::new(self.tools.len(), |i: int| self.tools[i].descriptor())),
            ),
        )
    }

    /// The call that the parameters of `tools/call` ask for: the first tool with the
    /// name that they give, and their arguments, an empty object where they have none.
    pub open spec fn resolve_call(self, params: Option<Json>) -> Result<
        ToolCallView<H>,
        JsonRpcErrorView,
    > {
        let params = match params {
            Some(params) => params,
            None => Json::Null,
        };
        match params.text_member("name"@) {
            Some(name) => match find_tool(self.tools, name) {
                Some(tool) => Ok(
                    ToolCallView {
                        handler: tool.handler,
                        arguments: match params.member("arguments"@) {
                            Some(arguments) => arguments,
                            None => Json::Object(no_members()),
                        },
                    },
                ),
                None => Err(JsonRpcErrorView::method_not_found(name)),
            },
            None => Err(JsonRpcErrorView::invalid_params("missing tool name"@)),
        }
    }

    /// How a request with that identifier is handled.
    pub open spec fn handle_request(
        self,
        id: Json,
        method: Seq<char>,
        params: Option<Json>,
    ) -> HandlingView<H> {
        if method == "initialize"@ {
            HandlingView::Respond(success_response(id, self.initialize_result()))
        } else if method == "tools/list"@ {
            HandlingView::Respond(success_response(id, self.list_result()))
        } else if method == "tools/call"@ {
            match self.resolve_call(params) {
                Ok(call) => HandlingView::Invoke { id, call },
                Err(error) => HandlingView::Respond(error_response(id, error)),
            }
        } else {
            HandlingView::Respond(error_response(id, JsonRpcErrorView::method_not_found(method)))
        }
    }

    /// How a message is handled. A message without an `id` is a notification; one whose
    /// method is no string has the empty method.
    pub open spec fn handle(self, message: Json) -> HandlingView<H> {
        match message.member("id"@) {
            Some(id) => self.handle_request(
                id,
                match message.text_member("method"@) {
                    Some(method) => method,
                    None => Seq::empty(),
                },
                message.member("params"@),
            ),
            None => HandlingView::Silent,
        }
    }
}

impl<H: ?Sized> SdkMcpServerView<H> {
    /// The response to a message, where it gets one, if a tool that it calls returns
    /// that outcome.
    pub open spec fn reply(self, message: Json, outcome: ToolResultView) -> Option<Json> {
        match self.handle(message) {
            HandlingView::Silent => None,
            HandlingView::Respond(response) => Some(response),
            HandlingView::Invoke { id, call } => Some(success_response(id, outcome.wire())),
        }
    }

    /// The server with one more tool.
    pub open spec fn with_tool(self, tool: SdkMcpToolView<H>) -> SdkMcpServerView<H> {
        SdkMcpServerView { tools: self.tools.push(tool), ..self }
    }
}

/// The response object with a result or an error under `key`.
fn response(id: Value, key: &str, outcome: Value) -> (r: Value)
    ensures
        json(r) == Json::Object(
            no_members().insert("jsonrpc"@, Json::Text("2.0"@)).insert("id"@, json(id)).insert(
                key@,
                json(outcome),
            ),
        ),
{
    let mut map = serde_json::Map::new();
    let _ = map.insert(String::from("jsonrpc"), string(String::from("2.0")));
    let _ = map.insert(String::from("id"), id);
    let _ = map.insert(String::from(key), outcome);
    object(map)
}

/// The response to a tool call, of the identifier of the request and the result of the
/// handler.
pub fn tool_response(id: Value, result: ToolResult) -> (r: Value)
    ensures
        json(r) == success_response(json(id), result@.wire()),
{
    response(id, "result", result.into_value())
}

impl<H: ?Sized> SdkMcpServer<H> {
    /// A server without tools, of version `0.1.0`.
    pub fn new<T: Into<String>>(name: T) -> (r: SdkMcpServer<H>)
        ensures
            converts(name, r.name),
            r.version@ == "0.1.0"@,
            r.tools@.len() == 0,
    {
        SdkMcpServer { name: name.into(), version: String::from("0.1.0"), tools: Vec::new() }
    }

    /// The server with another version.
    pub fn with_version<T: Into<String>>(self, version: T) -> (r: SdkMcpServer<H>)
        ensures
            converts(version, r.version),
            r.name == self.name,
            r.tools == self.tools,
    {
        let mut r = self;
        r.version = version.into();
        r
    }

    /// Add a tool. Chainable.
    pub fn tool(self, tool: SdkMcpTool<H>) -> (r: SdkMcpServer<H>)
        ensures
            r.name == self.name,
            r.version == self.version,
            r.tools@ == self.tools@.push(tool),
            r@ == self@.with_tool(tool@),
    {
        let mut r = self;
        r.tools.push(tool);
        assert(r@.tools =~= self@.tools.push(tool@));
        r
    }

    /// The `--mcp-config` entry announcing this as an `sdk`-type server. The command
    /// line routes the JSON-RPC of such a server over the control protocol rather than
    /// spawning a process.
    pub fn config_entry(&self) -> (r: Value)
        ensures
            json(r) == self@.config_entry(),
    {
        let mut map = serde_json::Map::new();
        let _ = map.insert(String::from("type"), string(String::from("sdk")));
        let _ = map.insert(String::from("name"), string(self.name.clone()));
        object(map)
    }

    /// The result of `initialize`.
    fn initialize(&self) -> (r: Value)
        ensures
            json(r) == self@.initialize_result(),
    {
        let mut capabilities = serde_json::Map::new();
        let _ = capabilities.insert(String::from("tools"), object(serde_json::Map::new()));
        let mut info = serde_json::Map::new();
        let _ = info.insert(String::from("name"), string(self.name.clone()));
        let _ = info.insert(String::from("version"), string(self.version.clone()));
        let mut map = serde_json::Map::new();
        let _ = map.insert(
            String::from("protocolVersion"),
            string(String::from(PROTOCOL_VERSION)),
        );
        let _ = map.insert(String::from("capabilities"), object(capabilities));
        let _ = map.insert(String::from("serverInfo"), object(info));
        object(map)
    }

    /// The result of `tools/list`.
    fn list_tools(&self) -> (r: Value)
        ensures
            json(r) == self@.list_result(),
    {
        let mut descriptors: Vec<Value> = Vec::new();
        let mut i: usize = 0;
        while i < self.tools.len()
            invariant
                i <= self.tools@.len(),
                descriptors@.len() == i,
                forall|k: int|
                    0 <= k < i ==> json(#[trigger] descriptors@[k]) == self.tools@[k]@.descriptor(),
            decreases self.tools@.len() - i,
        {
            descriptors.push(self.tools[i].descriptor());
            i = i + 1;
        }
        assert(jsons(descriptors@) =~= Seq::new(
            self@.tools.len(),
            |i: int| self@.tools[i].descriptor(),
        ));
        let mut map = serde_json::Map::new();
        let _ = map.insert(String::from("tools"), array(descriptors));
        object(map)
    }

    /// The first tool with that name.
    fn find(&self, name: &str) -> (r: Option<&SdkMcpTool<H>>)
        ensures
            match r {
                Some(tool) => find_tool(self@.tools, name@) == Some(tool@),
                None => find_tool(self@.tools, name@) is None,
            },
    {
        let mut i: usize = 0;
        while i < self.tools.len()
            invariant
                i <= self.tools@.len(),
                forall|k: int| 0 <= k < i ==> (#[trigger] self@.tools[k]).name != name@,
            decreases self.tools@.len() - i,
        {
            assert(self@.tools[i as int] == self.tools@[i as int]@);
            if *self.tools[i].name.as_str() == *name {
                proof {
                    assert(is_first_named(self@.tools, name@, i as int));
                    let first = choose|k: int| is_first_named(self@.tools, name@, k);
                    assert(is_first_named(self@.tools, name@, first));
                    assert(first == i);
                }
                return Some(&self.tools[i]);
            }
            i = i + 1;
        }
        None
    }

    /// The call that the parameters of `tools/call` ask for.
    pub fn call_tool(&self, params: Option<&Value>) -> (r: Result<ToolCall<H>, JsonRpcError>)
        ensures
            match r {
                Ok(call) => self@.resolve_call(json_ref(params)) == Ok::<_, JsonRpcErrorView>(
                    call@,
                ),
                Err(error) => self@.resolve_call(json_ref(params)) == Err::<ToolCallView<H>, _>(
                    error@,
                ),
            },
    {
        let params = match params {
            Some(params) => params.clone(),
            None => null(),
        };
        match text_member(&params, "name") {
            Some(name) => match self.find(name.as_str()) {
                Some(tool) => {
                    let arguments = match cloned_member(&params, "arguments") {
                        Some(arguments) => arguments,
                        None => object(serde_json::Map::new()),
                    };
                    Ok(ToolCall { handler: Arc::clone(&tool.handler), arguments })
                },
                None => Err(JsonRpcError::method_not_found(name.as_str())),
            },
            None => Err(JsonRpcError::invalid_params("missing tool name")),
        }
    }

    /// Handle one JSON-RPC message: a message without an `id` is a notification and
    /// gets no response, any other gets one, `tools/call` once its tool has run.
    pub fn handle_message(&self, message: Value) -> (r: Handling<H>)
        ensures
            r@ == self@.handle(json(message)),
    {
        let method = match text_member(&message, "method") {
            Some(method) => method,
            None => String::new(),
        };
        let id = match cloned_member(&message, "id") {
            Some(id) => id,
            None => {
                return Handling::Silent;
            },
        };
        if *method.as_str() == *"initialize" {
            Handling::Respond(response(id, "result", self.initialize()))
        } else if *method.as_str() == *"tools/list" {
            Handling::Respond(response(id, "result", self.list_tools()))
        } else if *method.as_str() == *"tools/call" {
            match self.call_tool(get(&message, "params")) {
                Ok(call) => Handling::Invoke { id, call },
                Err(error) => Handling::Respond(response(id, "error", error.to_value())),
            }
        } else {
            let error = JsonRpcError::method_not_found(method.as_str());
            Handling::Respond(response(id, "error", error.to_value()))
        }
    }
}

/// The members of a response stand under different keys.
pub(crate) proof fn lemma_response_keys()
    ensures
        "jsonrpc"@ != "id"@,
        "jsonrpc"@ != "result"@,
        "jsonrpc"@ != "error"@,
        "id"@ != "result"@,
        "id"@ != "error"@,
        "result"@ != "error"@,
{
    reveal_strlit("jsonrpc");
    reveal_strlit("id");
    reveal_strlit("result");
    reveal_strlit("error");
    assert("jsonrpc"@.len() == 7);
    assert("id"@.len() == 2);
    assert("result"@.len() == 6);
    assert("error"@.len() == 5);
}

/// The methods that a server answers are different.
pub(crate) proof fn lemma_methods()
    ensures
        "initialize"@ != "tools/list"@,
        "initialize"@ != "tools/call"@,
        "tools/list"@ != "tools/call"@,
{
    reveal_strlit("initialize");
    reveal_strlit("tools/list");
    reveal_strlit("tools/call");
    assert("initialize"@[0] == 'i' && "tools/list"@[0] == 't' && "tools/call"@[0] == 't');
    assert("tools/list"@[6] == 'l' && "tools/call"@[6] == 'c');
}

/// A message gets a response exactly when it has an `id`.
pub proof fn law_only_notifications_get_no_response<H: ?Sized>(
    server: SdkMcpServerView<H>,
    message: Json,
    outcome: ToolResultView,
)
    ensures
        server.reply(message, outcome) is None <==> message.member("id"@) is None,
{
}

/// Every response is a JSON-RPC 2.0 object with the `id` of the request and either a
/// result or an error, not both, and nothing else.
pub proof fn law_response_envelope<H: ?Sized>(
    server: SdkMcpServerView<H>,
    message: Json,
    outcome: ToolResultView,
)
    requires
        message.member("id"@) is Some,
    ensures
        match server.reply(message, outcome) {
            Some(response) => {
                &&& response.member("jsonrpc"@) == Some(Json::Text("2.0"@))
                &&& response.member("id"@) == message.member("id"@)
                &&& response.member("result"@) is Some <==> response.member("error"@) is None
                &&& forall|key: Seq<char>| #[trigger]
                    response.member(key) is Some ==> key == "jsonrpc"@ || key == "id"@ || key
                        == "result"@ || key == "error"@
            },
            None => false,
        },
{
    lemma_response_keys();
}

/// `initialize` is answered with the protocol version, the capability to serve tools and
/// the name and version of the server.
pub proof fn law_initialize_answered<H: ?Sized>(
    server: SdkMcpServerView<H>,
    message: Json,
    outcome: ToolResultView,
)
    requires
        message.member("id"@) is Some,
        message.text_member("method"@) == Some("initialize"@),
    ensures
        server.reply(message, outcome) == Some(
            success_response(message.member("id"@)->0, server.initialize_result()),
        ),
{
}

/// `tools/list` is answered with the descriptions of the tools in the order in which
/// they were added.
pub proof fn law_tools_listed<H: ?Sized>(
    server: SdkMcpServerView<H>,
    message: Json,
    outcome: ToolResultView,
)
    requires
        message.member("id"@) is Some,
        message.text_member("method"@) == Some("tools/list"@),
    ensures
        server.reply(message, outcome) == Some(
            success_response(message.member("id"@)->0, server.list_result()),
        ),
{
    lemma_methods();
}

/// A method that the server does not know is refused as not found.
pub proof fn law_unknown_method_refused<H: ?Sized>(
    server: SdkMcpServerView<H>,
    message: Json,
    outcome: ToolResultView,
)
    requires
        message.member("id"@) is Some,
        message.text_member("method"@) matches Some(method) ==> method != "initialize"@ && method
            != "tools/list"@ && method != "tools/call"@,
    ensures
        server.reply(message, outcome) == Some(
            error_response(
                message.member("id"@)->0,
                JsonRpcErrorView::method_not_found(
                    match message.text_member("method"@) {
                        Some(method) => method,
                        None => Seq::empty(),
                    },
                ),
            ),
        ),
{
    reveal_strlit("initialize");
    reveal_strlit("tools/list");
    reveal_strlit("tools/call");
    assert("initialize"@.len() == 10);
    assert("tools/list"@.len() == 10);
    assert("tools/call"@.len() == 10);
}

/// A tool call without a tool name is refused for its parameters.
pub proof fn law_missing_tool_name_refused<H: ?Sized>(
    server: SdkMcpServerView<H>,
    message: Json,
    outcome: ToolResultView,
)
    requires
        message.member("id"@) is Some,
        message.text_member("method"@) == Some("tools/call"@),
        message.member("params"@) matches Some(params) ==> params.text_member("name"@) is None,
    ensures
        server.reply(message, outcome) == Some(
            error_response(
                message.member("id"@)->0,
                JsonRpcErrorView::invalid_params("missing tool name"@),
            ),
        ),
{
    lemma_methods();
}

/// A call of a tool that the server does not have is refused as not found.
pub proof fn law_unknown_tool_refused<H: ?Sized>(
    server: SdkMcpServerView<H>,
    message: Json,
    outcome: ToolResultView,
    name: Seq<char>,
)
    requires
        message.member("id"@) is Some,
        message.text_member("method"@) == Some("tools/call"@),
        message.member("params"@) is Some,
        (message.member("params"@)->0).text_member("name"@) == Some(name),
        forall|i: int| 0 <= i < server.tools.len() ==> (#[trigger] server.tools[i]).name != name,
    ensures
        server.reply(message, outcome) == Some(
            error_response(
                message.member("id"@)->0,
                JsonRpcErrorView::method_not_found(name),
            ),
        ),
{
    lemma_methods();
}

/// A call of a tool runs the handler of the first tool with that name, on the arguments
/// of the call or an empty object, and is answered with what the handler returns.
pub proof fn law_tool_call_runs_first_tool<H: ?Sized>(
    server: SdkMcpServerView<H>,
    message: Json,
    outcome: ToolResultView,
    i: int,
)
    requires
        message.member("id"@) is Some,
        message.text_member("method"@) == Some("tools/call"@),
        message.member("params"@) is Some,
        (message.member("params"@)->0).text_member("name"@) == Some(server.tools[i].name),
        is_first_named(server.tools, server.tools[i].name, i),
    ensures
        server.handle(message) == (HandlingView::Invoke {
            id: message.member("id"@)->0,
            call: ToolCallView {
                handler: server.tools[i].handler,
                arguments: match (message.member("params"@)->0).member("arguments"@) {
                    Some(arguments) => arguments,
                    None => Json::Object(no_members()),
                },
            },
        }),
        server.reply(message, outcome) == Some(
            success_response(message.member("id"@)->0, outcome.wire()),
        ),
{
    lemma_methods();
    lemma_first_named_is_found(server.tools, i);
}

/// The first tool with a name is the one that is found.
pub(crate) proof fn lemma_first_named_is_found<H: ?Sized>(tools: Seq<SdkMcpToolView<H>>, i: int)
    requires
        is_first_named(tools, tools[i].name, i),
    ensures
        find_tool(tools, tools[i].name) == Some(tools[i]),
{
    let first = choose|k: int| is_first_named(tools, tools[i].name, k);
    assert(is_first_named(tools, tools[i].name, first));
    assert(first == i);
}

/// An added tool is found under its name unless an earlier one has it, is listed after
/// the others, and leaves what the other names find.
pub proof fn law_added_tool<H: ?Sized>(
    server: SdkMcpServerView<H>,
    tool: SdkMcpToolView<H>,
    name: Seq<char>,
)
    ensures
        find_tool(server.with_tool(tool).tools, name) == (match find_tool(server.tools, name) {
            Some(earlier) => Some(earlier),
            None => if tool.name == name {
                Some(tool)
            } else {
                None
            },
        }),
        server.with_tool(tool).list_result() == Json::Object(
            no_members().insert(
                "tools"@,
                Json::Array(
                    Seq::new(
                        server.tools.len(),
                        |i: int| server.tools[i].descriptor(),
                    ).push(tool.descriptor()),
                ),
            ),
        ),
{
    let tools = server.tools;
    let more = server.with_tool(tool).tools;
    if exists|i: int| is_first_named(tools, name, i) {
        let i = choose|i: int| is_first_named(tools, name, i);
        assert forall|k: int| 0 <= k < i implies (#[trigger] more[k]).name != name by {
            assert(more[k] == tools[k]);
        }
        assert(is_first_named(more, name, i));
        lemma_first_named_is_found(more, i);
    } else {
        assert forall|k: int| 0 <= k < tools.len() implies (#[trigger] tools[k]).name != name by {
            if tools[k].name == name {
                lemma_named_has_first(tools, name, k);
            }
        }
        if tool.name == name {
            assert(is_first_named(more, name, tools.len() as int));
            lemma_first_named_is_found(more, tools.len() as int);
        } else if exists|i: int| is_first_named(more, name, i) {
            let i = choose|i: int| is_first_named(more, name, i);
            assert(more[i].name == name);
            assert(false);
        }
    }
    assert(Seq::new(more.len(), |i: int| more[i].descriptor()) =~= Seq::new(
        tools.len(),
        |i: int| tools[i].descriptor(),
    ).push(tool.descriptor()));
}

/// Where a tool has a name, there is a first tool with it.
proof fn lemma_named_has_first<H: ?Sized>(
    tools: Seq<SdkMcpToolView<H>>,
    name: Seq<char>,
    k: int,
)
    requires
        0 <= k < tools.len(),
        tools[k].name == name,
    ensures
        exists|i: int| is_first_named(tools, name, i),
    decreases k,
{
    if forall|i: int| 0 <= i < k ==> (#[trigger] tools[i]).name != name {
        assert(is_first_named(tools, name, k));
    } else {
        let earlier = choose|i: int| 0 <= i < k && (#[trigger] tools[i]).name == name;
        lemma_named_has_first(tools, name, earlier);
    }
}

/// A result is marked as an error on the wire exactly where the mark is set.
pub proof fn law_result_error_mark(result: ToolResultView)
    ensures
        result.wire().member("isError"@) == bool_json(result.is_error),
        result.wire().member("content"@) == Some(Json::Array(result.content)),
{
    reveal_strlit("content");
    reveal_strlit("isError");
    assert("content"@[0] == 'c' && "isError"@[0] == 'i');
}

/// An error result differs from the successful result of the same text in the mark alone.
pub proof fn law_error_differs_in_mark(text: Seq<char>)
    ensures
        ToolResultView::of_error(text).content == ToolResultView::of_text(text).content,
        ToolResultView::of_error(text) == (ToolResultView {
            is_error: Some(true),
            ..ToolResultView::of_text(text)
        }),
        ToolResultView::of_text(text).is_error is None,
        text_block_json(text).member("type"@) == Some(Json::Text("text"@)),
        text_block_json(text).member("text"@) == Some(Json::Text(text)),
{
    reveal_strlit("type");
    reveal_strlit("text");
    assert("type"@[1] == 'y' && "text"@[1] == 'e');
}

/// A tool call is answered with what the handler returns under `result`, a returned
/// error included, and with an error only where the call itself is refused.
pub proof fn law_tool_call_answered<H: ?Sized>(
    server: SdkMcpServerView<H>,
    message: Json,
    outcome: ToolResultView,
)
    requires
        message.member("id"@) is Some,
        message.text_member("method"@) == Some("tools/call"@),
    ensures
        ({
            let id = message.member("id"@)->0;
            let reply = server.reply(message, outcome);
            match server.resolve_call(message.member("params"@)) {
                Ok(call) => {
                    &&& server.handle(message) == (HandlingView::Invoke { id, call })
                    &&& reply == Some(success_response(id, outcome.wire()))
                    &&& (reply->0).member("result"@) == Some(outcome.wire())
                    &&& (reply->0).member("error"@) is None
                },
                Err(error) => {
                    &&& reply == Some(error_response(id, error))
                    &&& (reply->0).member("error"@) == Some(error.wire())
                    &&& (reply->0).member("result"@) is None
                },
            }
        }),
{
    lemma_methods();
    lemma_response_keys();
}

} // verus!
