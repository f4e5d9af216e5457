//! Requests of agents, from their bytes to what is answered.

use vstd::prelude::*;

use crate::circadian::engine::CurveNow;
use crate::config::types::AppConfig;
use crate::control::{span_fits, ttl_fits, OverrideTtl};
use crate::json::{
    is_json, json_text, json_truth, json_unsigned, json_valid, text_at, truth_at, unsigned_at,
};
use crate::mcp::tools::{
    check_convertible, convertible, tool_outcome, tool_views, tools, HoursArg, McpToolHandler,
    ToolArgs, ToolDefinition, ToolOutcome,
};
use crate::state::SystemState;
use crate::text::{cat2, same};
use crate::time::Instant;

verus! {

/// What an HTTP request is answered.
#[derive(Debug)]
pub enum RpcReply {
    /// Something else than POST.
    MethodNotAllowed,
    /// The body could not be read.
    UnreadableBody,
    /// The body is no JSON document.
    ParseError,
    /// Who is there, and what it can do.
    Initialize,
    /// The agent is ready; nothing is answered.
    Initialized,
    Tools(Vec<ToolDefinition>),
    Tool(ToolOutcome),
    Pong,
    MethodNotFound { message: String },
}

impl RpcReply {
    /// The HTTP status of the answer.
    pub fn http_status(&self) -> (r: u16)
        ensures
            r == (match *self {
                RpcReply::MethodNotAllowed => 405u16,
                RpcReply::UnreadableBody => 400u16,
                RpcReply::ParseError => 400u16,
                _ => 200u16,
            }),
    {
        match self {
            RpcReply::MethodNotAllowed => 405,
            RpcReply::UnreadableBody => 400,
            RpcReply::ParseError => 400,
            _ => 200,
        }
    }

    /// The JSON-RPC error code of the answer, where it is an error.
    pub fn error_code(&self) -> (r: Option<i32>)
        ensures
            r == (match *self {
                RpcReply::ParseError => Some(-32700i32),
                RpcReply::MethodNotFound { message } => Some(-32601i32),
                _ => None,
            }),
    {
        match self {
            RpcReply::ParseError => Some(-32700),
            RpcReply::MethodNotFound { message: _ } => Some(-32601),
            _ => None,
        }
    }
}

/// The text at a pointer, empty where there is none.
pub open spec fn text_or_empty(body: Seq<u8>, pointer: Seq<char>) -> Seq<char> {
    match json_text(body, pointer) {
        Some(text) => text,
        None => Seq::empty(),
    }
}

fn read_text(body: &[u8], pointer: &str) -> (r: String)
    ensures
        r@ == text_or_empty(body@, pointer@),
{
    match text_at(body, pointer) {
        Some(text) => text,
        None => {
            let r: String = String::new();
            assert(r@ =~= Seq::<char>::empty());
            r
        },
    }
}

/// The arguments of a call. The two spans of time come from elsewhere, as they are no whole
/// numbers.
pub open spec fn args_of(body: Seq<u8>, ttl: Option<OverrideTtl>, hours: HoursArg) -> ToolArgs<
    Seq<char>,
> {
    ToolArgs {
        room_id: json_text(body, "/params/arguments/room_id"@),
        brightness: json_unsigned(body, "/params/arguments/brightness"@),
        color_temp_k: json_unsigned(body, "/params/arguments/color_temp_k"@),
        transition: json_unsigned(body, "/params/arguments/transition"@),
        active: json_truth(body, "/params/arguments/active"@),
        scene: json_text(body, "/params/arguments/scene"@),
        scene_id: json_unsigned(body, "/params/arguments/scene_id"@),
        override_ttl: ttl,
        hours,
    }
}

/// Reads the arguments of a call.
pub fn read_args(body: &[u8], ttl: Option<OverrideTtl>, hours: HoursArg) -> (r: ToolArgs)
    ensures
        r@ == args_of(body@, ttl, hours),
{
    ToolArgs {
        room_id: text_at(body, "/params/arguments/room_id"),
        brightness: unsigned_at(body, "/params/arguments/brightness"),
        color_temp_k: unsigned_at(body, "/params/arguments/color_temp_k"),
        transition: unsigned_at(body, "/params/arguments/transition"),
        active: truth_at(body, "/params/arguments/active"),
        scene: text_at(body, "/params/arguments/scene"),
        scene_id: unsigned_at(body, "/params/arguments/scene_id"),
        override_ttl: ttl,
        hours,
    }
}

/// What a method is answered, apart from tool calls.
pub open spec fn method_reply(r: RpcReply, method: Seq<char>) -> bool {
    if method == "initialize"@ {
        r is Initialize
    } else if method == "notifications/initialized"@ {
        r is Initialized
    } else if method == "tools/list"@ {
        r matches RpcReply::Tools(list) && tool_views(list@) == tools()
    } else if method == "ping"@ {
        r is Pong
    } else {
        r matches RpcReply::MethodNotFound { message } && message@ == "Method not found: "@ + method
    }
}

/// Answers a method that calls no tool.
pub fn answer_method(handler: &McpToolHandler, method: &str) -> (r: RpcReply)
    ensures
        method_reply(r, method@),
{
    if same(method, "initialize") {
        RpcReply::Initialize
    } else if same(method, "notifications/initialized") {
        RpcReply::Initialized
    } else if same(method, "tools/list") {
        RpcReply::Tools(handler.tool_definitions())
    } else if same(method, "ping") {
        RpcReply::Pong
    } else {
        RpcReply::MethodNotFound { message: cat2("Method not found: ", method) }
    }
}

/// The body asks for lights at a color temperature that cannot be converted.
pub open spec fn is_inconvertible(
    body: Seq<u8>,
    config: AppConfig,
    ttl: Option<OverrideTtl>,
    hours: HoursArg,
) -> bool {
    text_or_empty(body, "/method"@) == "tools/call"@ && !convertible(
        config,
        text_or_empty(body, "/params/name"@),
        args_of(body, ttl, hours),
    )
}

/// What the body of a request is answered.
pub open spec fn body_reply(
    r: RpcReply,
    body: Seq<u8>,
    config: AppConfig,
    state: SystemState,
    now: Instant,
    curve: CurveNow,
    ttl: Option<OverrideTtl>,
    hours: HoursArg,
) -> bool {
    let method = text_or_empty(body, "/method"@);
    if !json_valid(body) {
        r is ParseError
    } else if method == "tools/call"@ {
        r matches RpcReply::Tool(outcome) && tool_outcome(
            outcome,
            config,
            state,
            now,
            curve,
            text_or_empty(body, "/params/name"@),
            args_of(body, ttl, hours),
        )
    } else {
        method_reply(r, method)
    }
}

/// Answers a request. `curve` tells where the rooms' curves are now; `ttl` and `hours` are the spans
/// of time that the body asks for. There is no
/// answer to a request for lights at a color temperature that cannot be converted.
pub fn handle_request(
    is_post: bool,
    body: Option<&[u8]>,
    config: &AppConfig,
    state: &SystemState,
    now: Instant,
    curve: CurveNow,
    ttl: Option<OverrideTtl>,
    hours: HoursArg,
) -> (r: Option<RpcReply>)
    requires
        ttl_fits(now, ttl),
        hours matches HoursArg::Given(snooze) ==> span_fits(now, snooze.after),
    ensures
        !is_post ==> r == Some(RpcReply::MethodNotAllowed),
        is_post && body is None ==> r == Some(RpcReply::UnreadableBody),
        is_post && body is Some ==> match r {
            None => json_valid(body->0@) && is_inconvertible(body->0@, *config, ttl, hours),
            Some(reply) => (json_valid(body->0@) ==> !is_inconvertible(
                body->0@,
                *config,
                ttl,
                hours,
            )) && body_reply(reply, body->0@, *config, *state, now, curve, ttl, hours),
        },
{
    if !is_post {
        return Some(RpcReply::MethodNotAllowed);
    }
    let bytes: &[u8] = match body {
        Some(bytes) => bytes,
        None => {
            return Some(RpcReply::UnreadableBody);
        },
    };
    if !is_json(bytes) {
        return Some(RpcReply::ParseError);
    }
    let handler = McpToolHandler::new(config, state);
    let method: String = read_text(bytes, "/method");
    if !same(method.as_str(), "tools/call") {
        return Some(answer_method(&handler, method.as_str()));
    }
    let name: String = read_text(bytes, "/params/name");
    let args: ToolArgs = read_args(bytes, ttl, hours);
    if !check_convertible(config, name.as_str(), &args) {
        return None;
    }
    Some(RpcReply::Tool(handler.call_tool(now, curve, name.as_str(), &args)))
}

/// Every argument of a call is what the request holds under the argument's own name.
pub proof fn law_arguments_are_read_by_name(
    body: Seq<u8>,
    ttl: Option<OverrideTtl>,
    hours: HoursArg,
)
    ensures
        ({
            let args = args_of(body, ttl, hours);
            &&& args.room_id == json_text(body, "/params/arguments/room_id"@)
            &&& args.brightness == json_unsigned(body, "/params/arguments/brightness"@)
            &&& args.color_temp_k == json_unsigned(body, "/params/arguments/color_temp_k"@)
            &&& args.transition == json_unsigned(body, "/params/arguments/transition"@)
            &&& args.active == json_truth(body, "/params/arguments/active"@)
            &&& args.scene == json_text(body, "/params/arguments/scene"@)
            &&& args.scene_id == json_unsigned(body, "/params/arguments/scene_id"@)
            &&& args.override_ttl == ttl
            &&& args.hours == hours
        }),
{
}

/// A tool call is answered by the tool that the request names, with the arguments that it holds, and
/// nothing that is no document is taken for a request.
pub proof fn law_calls_reach_their_tool(
    r: RpcReply,
    body: Seq<u8>,
    config: AppConfig,
    state: SystemState,
    now: Instant,
    curve: CurveNow,
    ttl: Option<OverrideTtl>,
    hours: HoursArg,
)
    requires
        body_reply(r, body, config, state, now, curve, ttl, hours),
    ensures
        !json_valid(body) <==> r is ParseError,
        json_valid(body) && json_text(body, "/method"@) == Some("tools/call"@) ==> (
        r matches RpcReply::Tool(outcome) && tool_outcome(
            outcome,
            config,
            state,
            now,
            curve,
            match json_text(body, "/params/name"@) {
                Some(name) => name,
                None => Seq::empty(),
            },
            args_of(body, ttl, hours),
        )),
{
}

} // verus!
