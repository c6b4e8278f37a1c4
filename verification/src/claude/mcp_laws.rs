//! What the operations of the MCP server are for, stated of their arguments and results.
//!
//! Each law speaks of an executable function by what a call of it may return, of the
//! fields of the values that go in and come out, and of JSON members under literal keys.

use crate::claude::mcp::{
    find_tool, lemma_first_named_is_found, lemma_methods, lemma_response_keys, text_block_json,
    tool_response, Handling, JsonRpcError, SdkMcpServer, SdkMcpTool, ToolCall, ToolResult,
    ToolResultView,
};
use crate::json::{json, jsons, Json};
use crate::text::converts;
use serde_json::Value;
use std::sync::Arc;
use vstd::prelude::*;

verus! {

/// The keys of a content block are different.
proof fn lemma_block_keys()
    ensures
        "type"@ != "text"@,
{
    reveal_strlit("type");
    reveal_strlit("text");
    assert("type"@.len() == 4);
    assert("text"@.len() == 4);
    assert("type"@[1] == 'y' && "text"@[1] == 'e');
}

/// A text result has one block, of the type `text` and with the text, and no error mark.
pub proof fn law_text_result<T: Into<String>>(text: T, r: ToolResult)
    requires
        call_ensures(ToolResult::text::<T>, (text,), r),
    ensures
        r.is_error is None,
        r.content@.len() == 1,
        json(r.content@[0]) is Object,
        json(r.content@[0]).member("type"@) == Some(Json::Text("text"@)),
        exists|content: String| #[trigger]
            call_ensures(<T as Into<String>>::into, (text,), content) && json(
                r.content@[0],
            ).member("text"@) == Some(Json::Text(content@)),
        forall|key: Seq<char>| #[trigger]
            json(r.content@[0]).member(key) is Some ==> key == "type"@ || key == "text"@,
{
    lemma_block_keys();
    let content = choose|content: String| #[trigger]
        converts(text, content) && r@ == ToolResultView::of_text(content@);
    assert(call_ensures(<T as Into<String>>::into, (text,), content));
    assert(jsons(r.content@).len() == 1);
    assert(jsons(r.content@)[0] == text_block_json(content@));
}

/// An error result has one block, of the type `text` and with the text, and the mark.
pub proof fn law_error_result<T: Into<String>>(text: T, r: ToolResult)
    requires
        call_ensures(ToolResult::error::<T>, (text,), r),
    ensures
        r.is_error == Some(true),
        r.content@.len() == 1,
        json(r.content@[0]) is Object,
        json(r.content@[0]).member("type"@) == Some(Json::Text("text"@)),
        exists|content: String| #[trigger]
            call_ensures(<T as Into<String>>::into, (text,), content) && json(
                r.content@[0],
            ).member("text"@) == Some(Json::Text(content@)),
        forall|key: Seq<char>| #[trigger]
            json(r.content@[0]).member(key) is Some ==> key == "type"@ || key == "text"@,
{
    lemma_block_keys();
    let content = choose|content: String| #[trigger]
        converts(text, content) && r@ == ToolResultView::of_error(content@);
    assert(call_ensures(<T as Into<String>>::into, (text,), content));
    assert(jsons(r.content@).len() == 1);
    assert(jsons(r.content@)[0] == text_block_json(content@));
}

/// The default result has no content and no mark, and a copy of a result has the same
/// blocks and the same mark.
pub proof fn law_default_and_copied_result(d: ToolResult, result: &ToolResult, copy: ToolResult)
    requires
        call_ensures(<ToolResult as Default>::default, (), d),
        call_ensures(<ToolResult as Clone>::clone, (result,), copy),
    ensures
        d.content@.len() == 0,
        d.is_error is None,
        copy.is_error == result.is_error,
        copy.content@.len() == result.content@.len(),
        forall|i: int|
            0 <= i < result.content@.len() ==> json(#[trigger] copy.content@[i]) == json(
                result.content@[i],
            ),
{
    assert(jsons(d.content@).len() == 0);
    assert(jsons(copy.content@) == jsons(result.content@));
    assert(jsons(copy.content@).len() == copy.content@.len());
    assert forall|i: int| 0 <= i < result.content@.len() implies json(
        #[trigger] copy.content@[i],
    ) == json(result.content@[i]) by {
        assert(jsons(copy.content@)[i] == jsons(result.content@)[i]);
    }
}

/// The keys of a result are different.
proof fn lemma_result_keys()
    ensures
        "content"@ != "isError"@,
{
    reveal_strlit("content");
    reveal_strlit("isError");
    assert("content"@.len() == 7);
    assert("isError"@.len() == 7);
    assert("content"@[0] == 'c' && "isError"@[0] == 'i');
}

/// A result goes out as an object with its blocks, in their order, under `content`, the
/// mark under `isError` exactly where it is set, and nothing else.
pub proof fn law_result_fields(result: ToolResult, r: Value)
    requires
        call_ensures(ToolResult::into_value, (result,), r),
    ensures
        json(r) is Object,
        json(r).member("content"@) is Some,
        json(r).member("content"@)->0 is Array,
        (json(r).member("content"@)->0)->Array_0.len() == result.content@.len(),
        forall|i: int|
            0 <= i < result.content@.len() ==> #[trigger] (json(r).member(
                "content"@,
            )->0)->Array_0[i] == json(result.content@[i]),
        match result.is_error {
            Some(mark) => json(r).member("isError"@) == Some(Json::Bool(mark)),
            None => json(r).member("isError"@) is None,
        },
        forall|key: Seq<char>| #[trigger]
            json(r).member(key) is Some ==> key == "content"@ || key == "isError"@,
{
    lemma_result_keys();
}

/// A tool keeps what it is made of.
pub proof fn law_tool<N: Into<String>, D: Into<String>, H: ?Sized>(
    name: N,
    description: D,
    input_schema: Value,
    handler: Arc<H>,
    r: SdkMcpTool<H>,
)
    requires
        call_ensures(
            SdkMcpTool::<H>::new::<N, D>,
            (name, description, input_schema, handler),
            r,
        ),
    ensures
        call_ensures(<N as Into<String>>::into, (name,), r.name),
        call_ensures(<D as Into<String>>::into, (description,), r.description),
        r.input_schema == input_schema,
        r.handler == handler,
{
}

/// A copy of a tool has the same name, description, schema and handler.
pub proof fn law_tool_copy<H: ?Sized>(tool: &SdkMcpTool<H>, copy: SdkMcpTool<H>)
    requires
        call_ensures(<SdkMcpTool<H> as Clone>::clone, (tool,), copy),
    ensures
        copy.name@ == tool.name@,
        copy.description@ == tool.description@,
        json(copy.input_schema) == json(tool.input_schema),
        copy.handler == tool.handler,
{
}

/// The keys of a description of a tool are different.
proof fn lemma_descriptor_keys()
    ensures
        "name"@ != "description"@,
        "name"@ != "inputSchema"@,
        "description"@ != "inputSchema"@,
{
    reveal_strlit("name");
    reveal_strlit("description");
    reveal_strlit("inputSchema");
    assert("name"@.len() == 4);
    assert("description"@.len() == 11);
    assert("inputSchema"@.len() == 11);
    assert("description"@[0] == 'd' && "inputSchema"@[0] == 'i');
}

/// The description of a tool has its name, its description and its schema, each under its
/// own key, and nothing else.
pub proof fn law_descriptor<H: ?Sized>(tool: &SdkMcpTool<H>, r: Value)
    requires
        call_ensures(SdkMcpTool::<H>::descriptor, (tool,), r),
    ensures
        json(r) is Object,
        json(r).member("name"@) == Some(Json::Text(tool.name@)),
        json(r).member("description"@) == Some(Json::Text(tool.description@)),
        json(r).member("inputSchema"@) == Some(json(tool.input_schema)),
        forall|key: Seq<char>| #[trigger]
            json(r).member(key) is Some ==> key == "name"@ || key == "description"@ || key
                == "inputSchema"@,
{
    lemma_descriptor_keys();
}

/// Tools that differ in name, description or schema are described differently.
pub proof fn law_descriptors_differ<H: ?Sized>(
    a: &SdkMcpTool<H>,
    of_a: Value,
    b: &SdkMcpTool<H>,
    of_b: Value,
)
    requires
        call_ensures(SdkMcpTool::<H>::descriptor, (a,), of_a),
        call_ensures(SdkMcpTool::<H>::descriptor, (b,), of_b),
        json(of_a) == json(of_b),
    ensures
        a.name@ == b.name@,
        a.description@ == b.description@,
        json(a.input_schema) == json(b.input_schema),
{
    law_descriptor(a, of_a);
    law_descriptor(b, of_b);
}

/// A new server has its name, the version `0.1.0` and no tools.
pub proof fn law_new_server<T: Into<String>, H: ?Sized>(name: T, r: SdkMcpServer<H>)
    requires
        call_ensures(SdkMcpServer::<H>::new::<T>, (name,), r),
    ensures
        call_ensures(<T as Into<String>>::into, (name,), r.name),
        r.version@ == "0.1.0"@,
        r.tools@.len() == 0,
{
}

/// A server with another version keeps its name and its tools.
pub proof fn law_versioned_server<T: Into<String>, H: ?Sized>(
    server: SdkMcpServer<H>,
    version: T,
    r: SdkMcpServer<H>,
)
    requires
        call_ensures(SdkMcpServer::<H>::with_version::<T>, (server, version), r),
    ensures
        call_ensures(<T as Into<String>>::into, (version,), r.version),
        r.name == server.name,
        r.tools == server.tools,
{
}

/// A tool is added behind those of a server, which keeps its name and its version.
pub proof fn law_tool_added<H: ?Sized>(
    server: SdkMcpServer<H>,
    tool: SdkMcpTool<H>,
    r: SdkMcpServer<H>,
)
    requires
        call_ensures(SdkMcpServer::<H>::tool, (server, tool), r),
    ensures
        r.name == server.name,
        r.version == server.version,
        r.tools@.len() == server.tools@.len() + 1,
        r.tools@.last() == tool,
        r.tools@.drop_last() == server.tools@,
{
    assert(r.tools@.drop_last() =~= server.tools@);
}

/// A copy of a server has the same name and version and, one for one, the same tools.
pub proof fn law_server_copy<H: ?Sized>(
    server: &SdkMcpServer<H>,
    copy: SdkMcpServer<H>,
    i: int,
)
    requires
        call_ensures(<SdkMcpServer<H> as Clone>::clone, (server,), copy),
    ensures
        copy.name@ == server.name@,
        copy.version@ == server.version@,
        copy.tools@.len() == server.tools@.len(),
        0 <= i < server.tools@.len() ==> {
            &&& copy.tools@[i].name@ == server.tools@[i].name@
            &&& copy.tools@[i].description@ == server.tools@[i].description@
            &&& json(copy.tools@[i].input_schema) == json(server.tools@[i].input_schema)
            &&& copy.tools@[i].handler == server.tools@[i].handler
        },
{
    assert(copy@.tools == server@.tools);
    assert(copy@.tools.len() == copy.tools@.len());
    if 0 <= i < server.tools@.len() {
        assert(copy@.tools[i] == server@.tools[i]);
    }
}

/// The keys of the entry of a server are different.
proof fn lemma_config_keys()
    ensures
        "type"@ != "name"@,
{
    reveal_strlit("type");
    reveal_strlit("name");
    assert("type"@.len() == 4);
    assert("name"@.len() == 4);
    assert("type"@[0] == 't' && "name"@[0] == 'n');
}

/// The entry of a server has the type `sdk` and the name of the server, and nothing else.
pub proof fn law_config_entry<H: ?Sized>(server: &SdkMcpServer<H>, r: Value)
    requires
        call_ensures(SdkMcpServer::<H>::config_entry, (server,), r),
    ensures
        json(r) is Object,
        json(r).member("type"@) == Some(Json::Text("sdk"@)),
        json(r).member("name"@) == Some(Json::Text(server.name@)),
        forall|key: Seq<char>| #[trigger]
            json(r).member(key) is Some ==> key == "type"@ || key == "name"@,
{
    lemma_config_keys();
}

/// The keys of an error are different.
proof fn lemma_error_keys()
    ensures
        "code"@ != "message"@,
{
    reveal_strlit("code");
    reveal_strlit("message");
    assert("code"@.len() == 4);
    assert("message"@.len() == 7);
}

/// The error of an unknown method has its code and names the method; that of parameters
/// has its code and its message.
pub proof fn law_errors(method: &str, unknown: JsonRpcError, message: &str, invalid: JsonRpcError)
    requires
        call_ensures(JsonRpcError::method_not_found, (method,), unknown),
        call_ensures(JsonRpcError::invalid_params, (message,), invalid),
    ensures
        unknown.code == -32601,
        unknown.message@ == "method not found: "@ + method@,
        invalid.code == -32602,
        invalid.message@ == message@,
{
}

/// An error goes out as an object with its code and its message, and nothing else.
pub proof fn law_error_fields(error: &JsonRpcError, r: Value)
    requires
        call_ensures(JsonRpcError::to_value, (error,), r),
    ensures
        json(r) is Object,
        json(r).member("code"@) == Some(Json::Integer(error.code as int)),
        json(r).member("message"@) == Some(Json::Text(error.message@)),
        forall|key: Seq<char>| #[trigger]
            json(r).member(key) is Some ==> key == "code"@ || key == "message"@,
{
    lemma_error_keys();
}

/// A call is resolved to the first tool with the name that the parameters give, with its
/// handler and the arguments of the parameters, or an empty object where they have none.
/// It is refused where they give no name, and where no tool has the name.
pub proof fn law_call_resolved<H: ?Sized>(
    server: &SdkMcpServer<H>,
    params: Option<&Value>,
    r: Result<ToolCall<H>, JsonRpcError>,
    i: int,
)
    requires
        call_ensures(SdkMcpServer::<H>::call_tool, (server, params), r),
    ensures
        params is None ==> r is Err && (r->Err_0).code == -32602 && (r->Err_0).message@
            == "missing tool name"@,
        params matches Some(params) ==> match json(*params).member("name"@) {
            Some(Json::Text(name)) => {
                &&& (forall|k: int|
                    0 <= k < server.tools@.len() ==> (#[trigger] server.tools@[k]).name@ != name)
                    ==> r is Err && (r->Err_0).code == -32601 && (r->Err_0).message@
                    == "method not found: "@ + name
                &&& 0 <= i < server.tools@.len() && server.tools@[i].name@ == name && (forall|
                    k: int,
                | 0 <= k < i ==> (#[trigger] server.tools@[k]).name@ != name) ==> {
                    &&& r is Ok
                    &&& (r->Ok_0).handler == server.tools@[i].handler
                    &&& match json(*params).member("arguments"@) {
                        Some(arguments) => json((r->Ok_0).arguments) == arguments,
                        None => json((r->Ok_0).arguments) == Json::Object(Map::empty()),
                    }
                }
            },
            _ => r is Err && (r->Err_0).code == -32602 && (r->Err_0).message@
                == "missing tool name"@,
        },
{
    lemma_views(server);
    if let Some(params) = params {
        if let Some(Json::Text(name)) = json(*params).member("name"@) {
            if 0 <= i < server.tools@.len() && server.tools@[i].name@ == name && (forall|k: int|
                0 <= k < i ==> (#[trigger] server.tools@[k]).name@ != name) {
                lemma_first(server, name, i);
            }
            if forall|k: int|
                0 <= k < server.tools@.len() ==> (#[trigger] server.tools@[k]).name@ != name {
                lemma_none(server, name);
            }
        }
    }
}

/// What a server holds of its tools, one for one.
proof fn lemma_views<H: ?Sized>(server: &SdkMcpServer<H>)
    ensures
        server@.tools.len() == server.tools@.len(),
        forall|k: int|
            #![trigger server@.tools[k]]
            #![trigger server.tools@[k]]
            0 <= k < server.tools@.len() ==> server@.tools[k] == server.tools@[k]@,
{
}

/// The first tool with a name is found.
proof fn lemma_first<H: ?Sized>(server: &SdkMcpServer<H>, name: Seq<char>, i: int)
    requires
        0 <= i < server.tools@.len(),
        server.tools@[i].name@ == name,
        forall|k: int| 0 <= k < i ==> (#[trigger] server.tools@[k]).name@ != name,
    ensures
        find_tool(server@.tools, name) == Some(server.tools@[i]@),
{
    lemma_views(server);
    assert(server@.tools[i] == server.tools@[i]@);
    lemma_first_named_is_found(server@.tools, i);
}

/// Where no tool has a name, none is found.
proof fn lemma_none<H: ?Sized>(server: &SdkMcpServer<H>, name: Seq<char>)
    requires
        forall|k: int| 0 <= k < server.tools@.len() ==> (#[trigger] server.tools@[k]).name@ != name,
    ensures
        find_tool(server@.tools, name) is None,
{
    lemma_views(server);
    assert forall|k: int| 0 <= k < server@.tools.len() implies (
    #[trigger] server@.tools[k]).name != name by {
        assert(server@.tools[k] == server.tools@[k]@);
    }
}

/// A message gets no response exactly where it has no `id`. Any other is answered at once
/// with a JSON-RPC 2.0 object that has the `id` of the message and either a result or an
/// error, and nothing else, or by the call of a tool under that `id`.
pub proof fn law_message_envelope<H: ?Sized>(
    server: &SdkMcpServer<H>,
    message: Value,
    r: Handling<H>,
)
    requires
        call_ensures(SdkMcpServer::<H>::handle_message, (server, message), r),
    ensures
        r is Silent <==> json(message).member("id"@) is None,
        r matches Handling::Respond(v) ==> {
            &&& json(v) is Object
            &&& json(v).member("jsonrpc"@) == Some(Json::Text("2.0"@))
            &&& json(v).member("id"@) == json(message).member("id"@)
            &&& json(v).member("result"@) is Some <==> json(v).member("error"@) is None
            &&& forall|key: Seq<char>| #[trigger]
                json(v).member(key) is Some ==> key == "jsonrpc"@ || key == "id"@ || key
                    == "result"@ || key == "error"@
        },
        r matches Handling::Invoke { id, call } ==> Some(json(id)) == json(message).member("id"@)
            && json(message).member("method"@) == Some(Json::Text("tools/call"@)),
{
    lemma_response_keys();
    reveal_strlit("tools/call");
    assert("tools/call"@.len() == 10);
}

/// The keys of the answer to `initialize` are different.
proof fn lemma_initialize_keys()
    ensures
        "protocolVersion"@ != "capabilities"@,
        "protocolVersion"@ != "serverInfo"@,
        "capabilities"@ != "serverInfo"@,
{
    reveal_strlit("protocolVersion");
    reveal_strlit("capabilities");
    reveal_strlit("serverInfo");
    assert("protocolVersion"@.len() == 15);
    assert("capabilities"@.len() == 12);
    assert("serverInfo"@.len() == 10);
}

/// The keys of what a server says of itself are different.
proof fn lemma_info_keys()
    ensures
        "name"@ != "version"@,
{
    reveal_strlit("name");
    reveal_strlit("version");
    assert("name"@.len() == 4);
    assert("version"@.len() == 7);
}

/// `initialize` is answered with the protocol version, the capability to serve tools, and
/// the name and the version of the server, and nothing else.
pub proof fn law_initialize<H: ?Sized>(server: &SdkMcpServer<H>, message: Value, r: Handling<H>)
    requires
        call_ensures(SdkMcpServer::<H>::handle_message, (server, message), r),
        json(message).member("id"@) is Some,
        json(message).member("method"@) == Some(Json::Text("initialize"@)),
    ensures
        r is Respond,
        ({
            let result = json(r->Respond_0).member("result"@)->0;
            let capabilities = result.member("capabilities"@)->0;
            let info = result.member("serverInfo"@)->0;
            &&& json(r->Respond_0).member("result"@) is Some
            &&& result is Object
            &&& result.member("protocolVersion"@) == Some(Json::Text("2024-11-05"@))
            &&& result.member("capabilities"@) is Some
            &&& capabilities is Object
            &&& capabilities.member("tools"@) == Some(Json::Object(Map::empty()))
            &&& forall|key: Seq<char>| #[trigger]
                capabilities.member(key) is Some ==> key == "tools"@
            &&& result.member("serverInfo"@) is Some
            &&& info is Object
            &&& info.member("name"@) == Some(Json::Text(server.name@))
            &&& info.member("version"@) == Some(Json::Text(server.version@))
            &&& forall|key: Seq<char>| #[trigger]
                info.member(key) is Some ==> key == "name"@ || key == "version"@
            &&& forall|key: Seq<char>| #[trigger]
                result.member(key) is Some ==> key == "protocolVersion"@ || key
                    == "capabilities"@ || key == "serverInfo"@
        }),
{
    lemma_response_keys();
    lemma_initialize_keys();
    lemma_info_keys();
}

/// `tools/list` is answered with as many descriptions as there are tools and nothing else.
/// The description at each place has the name, the description and the schema of the tool
/// at that place, each under its own key, and nothing else.
pub proof fn law_tool_list<H: ?Sized>(
    server: &SdkMcpServer<H>,
    message: Value,
    r: Handling<H>,
    i: int,
)
    requires
        call_ensures(SdkMcpServer::<H>::handle_message, (server, message), r),
        json(message).member("id"@) is Some,
        json(message).member("method"@) == Some(Json::Text("tools/list"@)),
    ensures
        r is Respond,
        ({
            let result = json(r->Respond_0).member("result"@)->0;
            let tools = (result.member("tools"@)->0)->Array_0;
            &&& json(r->Respond_0).member("result"@) is Some
            &&& result is Object
            &&& result.member("tools"@) is Some
            &&& result.member("tools"@)->0 is Array
            &&& tools.len() == server.tools@.len()
            &&& forall|key: Seq<char>| #[trigger] result.member(key) is Some ==> key == "tools"@
            &&& 0 <= i < server.tools@.len() ==> {
                &&& tools[i] is Object
                &&& tools[i].member("name"@) == Some(Json::Text(server.tools@[i].name@))
                &&& tools[i].member("description"@) == Some(
                    Json::Text(server.tools@[i].description@),
                )
                &&& tools[i].member("inputSchema"@) == Some(json(server.tools@[i].input_schema))
                &&& forall|key: Seq<char>| #[trigger]
                    tools[i].member(key) is Some ==> key == "name"@ || key == "description"@
                        || key == "inputSchema"@
            }
        }),
{
    lemma_response_keys();
    lemma_methods();
    lemma_descriptor_keys();
    lemma_views(server);
}

/// A message whose method is none of the three is refused as not found, with the name of
/// the method; a method that is no string has the empty name.
pub proof fn law_other_methods<H: ?Sized>(server: &SdkMcpServer<H>, message: Value, r: Handling<H>)
    requires
        call_ensures(SdkMcpServer::<H>::handle_message, (server, message), r),
        json(message).member("id"@) is Some,
        json(message).member("method"@) != Some(Json::Text("initialize"@)),
        json(message).member("method"@) != Some(Json::Text("tools/list"@)),
        json(message).member("method"@) != Some(Json::Text("tools/call"@)),
    ensures
        r is Respond,
        ({
            let error = json(r->Respond_0).member("error"@)->0;
            &&& json(r->Respond_0).member("error"@) is Some
            &&& error is Object
            &&& error.member("code"@) == Some(Json::Integer(-32601))
            &&& match json(message).member("method"@) {
                Some(Json::Text(method)) => error.member("message"@) == Some(
                    Json::Text("method not found: "@ + method),
                ),
                _ => error.member("message"@) == Some(Json::Text("method not found: "@)),
            }
            &&& forall|key: Seq<char>| #[trigger]
                error.member(key) is Some ==> key == "code"@ || key == "message"@
        }),
{
    lemma_response_keys();
    lemma_error_keys();
    reveal_strlit("initialize");
    reveal_strlit("tools/list");
    reveal_strlit("tools/call");
    assert("initialize"@.len() == 10);
    assert("tools/list"@.len() == 10);
    assert("tools/call"@.len() == 10);
    assert("method not found: "@ + Seq::<char>::empty() =~= "method not found: "@);
}

/// `tools/call` that gives no tool name is refused for its parameters.
pub proof fn law_call_without_name<H: ?Sized>(
    server: &SdkMcpServer<H>,
    message: Value,
    r: Handling<H>,
)
    requires
        call_ensures(SdkMcpServer::<H>::handle_message, (server, message), r),
        json(message).member("id"@) is Some,
        json(message).member("method"@) == Some(Json::Text("tools/call"@)),
        json(message).member("params"@) is None || !(json(message).member("params"@)->0.member(
            "name"@,
        ) matches Some(Json::Text(_))),
    ensures
        r is Respond,
        ({
            let error = json(r->Respond_0).member("error"@)->0;
            &&& json(r->Respond_0).member("error"@) is Some
            &&& error is Object
            &&& error.member("code"@) == Some(Json::Integer(-32602))
            &&& error.member("message"@) == Some(Json::Text("missing tool name"@))
            &&& forall|key: Seq<char>| #[trigger]
                error.member(key) is Some ==> key == "code"@ || key == "message"@
        }),
{
    lemma_response_keys();
    lemma_methods();
    lemma_error_keys();
}

/// `tools/call` of a name that no tool has is refused as not found, with that name.
pub proof fn law_call_of_unknown_tool<H: ?Sized>(
    server: &SdkMcpServer<H>,
    message: Value,
    r: Handling<H>,
    name: Seq<char>,
)
    requires
        call_ensures(SdkMcpServer::<H>::handle_message, (server, message), r),
        json(message).member("id"@) is Some,
        json(message).member("method"@) == Some(Json::Text("tools/call"@)),
        json(message).member("params"@) is Some,
        json(message).member("params"@)->0.member("name"@) == Some(Json::Text(name)),
        forall|k: int| 0 <= k < server.tools@.len() ==> (#[trigger] server.tools@[k]).name@ != name,
    ensures
        r is Respond,
        ({
            let error = json(r->Respond_0).member("error"@)->0;
            &&& json(r->Respond_0).member("error"@) is Some
            &&& error is Object
            &&& error.member("code"@) == Some(Json::Integer(-32601))
            &&& error.member("message"@) == Some(Json::Text("method not found: "@ + name))
            &&& forall|key: Seq<char>| #[trigger]
                error.member(key) is Some ==> key == "code"@ || key == "message"@
        }),
{
    lemma_response_keys();
    lemma_methods();
    lemma_error_keys();
    lemma_none(server, name);
}

/// `tools/call` of a name that a tool has asks for the handler of the first such tool, on
/// the arguments of the message, or an empty object where it has none, under the `id` of
/// the message.
pub proof fn law_call_of_tool<H: ?Sized>(
    server: &SdkMcpServer<H>,
    message: Value,
    r: Handling<H>,
    i: int,
)
    requires
        call_ensures(SdkMcpServer::<H>::handle_message, (server, message), r),
        json(message).member("id"@) is Some,
        json(message).member("method"@) == Some(Json::Text("tools/call"@)),
        json(message).member("params"@) is Some,
        0 <= i < server.tools@.len(),
        json(message).member("params"@)->0.member("name"@) == Some(
            Json::Text(server.tools@[i].name@),
        ),
        forall|k: int|
            0 <= k < i ==> (#[trigger] server.tools@[k]).name@ != server.tools@[i].name@,
    ensures
        r is Invoke,
        Some(json(r->id)) == json(message).member("id"@),
        (r->call).handler == server.tools@[i].handler,
        match json(message).member("params"@)->0.member("arguments"@) {
            Some(arguments) => json((r->call).arguments) == arguments,
            None => json((r->call).arguments) == Json::Object(Map::empty()),
        },
{
    lemma_methods();
    lemma_first(server, server.tools@[i].name@, i);
}

/// What a handler returned is answered with a JSON-RPC 2.0 object that has the `id` and,
/// under `result`, the blocks of the result in their order and its mark exactly where it
/// is set, and nothing else: an error that the handler returned is no JSON-RPC error.
pub proof fn law_tool_answer(id: Value, result: ToolResult, r: Value)
    requires
        call_ensures(tool_response, (id, result), r),
    ensures
        json(r) is Object,
        json(r).member("jsonrpc"@) == Some(Json::Text("2.0"@)),
        json(r).member("id"@) == Some(json(id)),
        json(r).member("error"@) is None,
        forall|key: Seq<char>| #[trigger]
            json(r).member(key) is Some ==> key == "jsonrpc"@ || key == "id"@ || key == "result"@,
        ({
            let outcome = json(r).member("result"@)->0;
            let content = outcome.member("content"@)->0;
            &&& json(r).member("result"@) is Some
            &&& outcome is Object
            &&& outcome.member("content"@) is Some
            &&& content is Array
            &&& content->Array_0.len() == result.content@.len()
            &&& forall|i: int|
                0 <= i < result.content@.len() ==> #[trigger] content->Array_0[i] == json(
                    result.content@[i],
                )
            &&& match result.is_error {
                Some(mark) => outcome.member("isError"@) == Some(Json::Bool(mark)),
                None => outcome.member("isError"@) is None,
            }
            &&& forall|key: Seq<char>| #[trigger]
                outcome.member(key) is Some ==> key == "content"@ || key == "isError"@
        }),
{
    lemma_response_keys();
    lemma_result_keys();
}

} // verus!
