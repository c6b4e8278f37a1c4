//! Hook events, the input that a hook callback gets and the output that it returns.

use crate::json::{
    bool_json, clone_option, cloned_member, json, json_option, members, no_members, null, object,
    put_bool, put_text, put_value, string, text_json, text_member, Json,
};
use crate::text::{converts, text_view};
use serde_json::Value;
use vstd::prelude::*;

verus! {

/// The points at which the command line can invoke a hook.
///
/// The string form (see [`HookEvent::as_str`]) is the identifier on the wire.
#[derive(Debug, Clone, Copy, PartialEq, Eq, PartialOrd, Ord, Hash, Structural)]
pub enum HookEvent {
    PreToolUse,
    PostToolUse,
    UserPromptSubmit,
    Notification,
    Stop,
    SubagentStop,
    PreCompact,
    SessionStart,
    SessionEnd,
}

impl HookEvent {
    /// The identifier of an event on the wire.
    pub open spec fn name(self) -> Seq<char> {
        match self {
            HookEvent::PreToolUse => "PreToolUse"@,
            HookEvent::PostToolUse => "PostToolUse"@,
            HookEvent::UserPromptSubmit => "UserPromptSubmit"@,
            HookEvent::Notification => "Notification"@,
            HookEvent::Stop => "Stop"@,
            HookEvent::SubagentStop => "SubagentStop"@,
            HookEvent::PreCompact => "PreCompact"@,
            HookEvent::SessionStart => "SessionStart"@,
            HookEvent::SessionEnd => "SessionEnd"@,
        }
    }

    /// The identifier of the event on the wire.
    pub fn as_str(&self) -> (r: &'static str)
        ensures
            r@ == self.name(),
    {
        match self {
            HookEvent::PreToolUse => "PreToolUse",
            HookEvent::PostToolUse => "PostToolUse",
            HookEvent::UserPromptSubmit => "UserPromptSubmit",
            HookEvent::Notification => "Notification",
            HookEvent::Stop => "Stop",
            HookEvent::SubagentStop => "SubagentStop",
            HookEvent::PreCompact => "PreCompact",
            HookEvent::SessionStart => "SessionStart",
            HookEvent::SessionEnd => "SessionEnd",
        }
    }

    /// The identifier of the event on the wire, as a string of its own.
    pub fn to_string(&self) -> (r: String)
        ensures
            r@ == self.name(),
    {
        String::from(self.as_str())
    }
}

/// The number of events.
pub const EVENT_COUNT: u64 = 9;

impl HookEvent {
    /// The place of an event in the order of events, which is that of the declaration.
    pub open spec fn rank(self) -> u64 {
        match self {
            HookEvent::PreToolUse => 0,
            HookEvent::PostToolUse => 1,
            HookEvent::UserPromptSubmit => 2,
            HookEvent::Notification => 3,
            HookEvent::Stop => 4,
            HookEvent::SubagentStop => 5,
            HookEvent::PreCompact => 6,
            HookEvent::SessionStart => 7,
            HookEvent::SessionEnd => 8,
        }
    }

    /// The event at a place in the order of events.
    pub open spec fn at(rank: int) -> HookEvent {
        if rank == 0 {
            HookEvent::PreToolUse
        } else if rank == 1 {
            HookEvent::PostToolUse
        } else if rank == 2 {
            HookEvent::UserPromptSubmit
        } else if rank == 3 {
            HookEvent::Notification
        } else if rank == 4 {
            HookEvent::Stop
        } else if rank == 5 {
            HookEvent::SubagentStop
        } else if rank == 6 {
            HookEvent::PreCompact
        } else if rank == 7 {
            HookEvent::SessionStart
        } else {
            HookEvent::SessionEnd
        }
    }

    /// The place of the event in the order of events.
    pub(crate) fn event_rank(self) -> (r: u64)
        ensures
            r == self.rank(),
    {
        match self {
            HookEvent::PreToolUse => 0,
            HookEvent::PostToolUse => 1,
            HookEvent::UserPromptSubmit => 2,
            HookEvent::Notification => 3,
            HookEvent::Stop => 4,
            HookEvent::SubagentStop => 5,
            HookEvent::PreCompact => 6,
            HookEvent::SessionStart => 7,
            HookEvent::SessionEnd => 8,
        }
    }

    /// The event at a place in the order of events.
    pub(crate) fn event_at(rank: u64) -> (r: HookEvent)
        requires
            rank < EVENT_COUNT,
        ensures
            r == HookEvent::at(rank as int),
            r.rank() == rank,
    {
        match rank {
            0 => HookEvent::PreToolUse,
            1 => HookEvent::PostToolUse,
            2 => HookEvent::UserPromptSubmit,
            3 => HookEvent::Notification,
            4 => HookEvent::Stop,
            5 => HookEvent::SubagentStop,
            6 => HookEvent::PreCompact,
            7 => HookEvent::SessionStart,
            _ => HookEvent::SessionEnd,
        }
    }
}

/// The identifier on the wire identifies the event: two events share it exactly when
/// they are the same.
pub proof fn law_event_names_distinct(a: HookEvent, b: HookEvent)
    ensures
        a.name() == b.name() <==> a == b,
{
    reveal_strlit("PreToolUse");
    reveal_strlit("PostToolUse");
    reveal_strlit("UserPromptSubmit");
    reveal_strlit("Notification");
    reveal_strlit("Stop");
    reveal_strlit("SubagentStop");
    reveal_strlit("PreCompact");
    reveal_strlit("SessionStart");
    reveal_strlit("SessionEnd");
    assert("PreToolUse"@.len() == 10);
    assert("PostToolUse"@.len() == 11);
    assert("UserPromptSubmit"@.len() == 16);
    assert("Notification"@.len() == 12);
    assert("Stop"@.len() == 4);
    assert("SubagentStop"@.len() == 12);
    assert("PreCompact"@.len() == 10);
    assert("SessionStart"@.len() == 12);
    assert("SessionEnd"@.len() == 10);
    assert("PreToolUse"@[3] == 'T' && "PreCompact"@[3] == 'C' && "SessionEnd"@[3] == 's');
    assert("Notification"@[1] == 'o' && "SubagentStop"@[1] == 'u' && "SessionStart"@[1] == 'e');
}

/// Input handed to a hook callback.
///
/// The typed fields cover the common cases; `raw` always carries the full payload.
#[derive(Debug, PartialEq)]
pub struct HookInput {
    /// The event that triggered the callback (e.g. `PreToolUse`).
    pub hook_event_name: Option<String>,
    /// For tool events, the tool being used (e.g. `Bash`).
    pub tool_name: Option<String>,
    /// For tool events, the tool's input arguments.
    pub tool_input: Option<Value>,
    /// For `PostToolUse`, the tool's response.
    pub tool_response: Option<Value>,
    /// The `tool_use_id` of the call, when present.
    pub tool_use_id: Option<String>,
    /// The complete, unmodified payload.
    pub raw: Value,
}

/// What a [`HookInput`] holds.
pub struct HookInputView {
    pub hook_event_name: Option<Seq<char>>,
    pub tool_name: Option<Seq<char>>,
    pub tool_input: Option<Json>,
    pub tool_response: Option<Json>,
    pub tool_use_id: Option<Seq<char>>,
    pub raw: Json,
}

impl View for HookInput {
    type V = HookInputView;

    open spec fn view(&self) -> HookInputView {
        HookInputView {
            hook_event_name: text_view(self.hook_event_name),
            tool_name: text_view(self.tool_name),
            tool_input: json_option(self.tool_input),
            tool_response: json_option(self.tool_response),
            tool_use_id: text_view(self.tool_use_id),
            raw: json(self.raw),
        }
    }
}

impl Clone for HookInput {
    fn clone(&self) -> (r: HookInput)
        ensures
            r@ == self@,
    {
        HookInput {
            hook_event_name: self.hook_event_name.clone(),
            tool_name: self.tool_name.clone(),
            tool_input: clone_option(&self.tool_input),
            tool_response: clone_option(&self.tool_response),
            tool_use_id: self.tool_use_id.clone(),
            raw: self.raw.clone(),
        }
    }
}

/// The payload that a hook request carries: its `input`, null where it has none.
pub open spec fn request_payload(request: Json) -> Json {
    match request.member("input"@) {
        Some(input) => input,
        None => Json::Null,
    }
}

/// The input that a callback gets for a request and the identifier of a tool use that
/// came with it.
pub open spec fn hook_input(request: Json, tool_use_id: Option<Seq<char>>) -> HookInputView {
    let payload = request_payload(request);
    HookInputView {
        hook_event_name: payload.text_member("hook_event_name"@),
        tool_name: payload.text_member("tool_name"@),
        tool_input: payload.member("tool_input"@),
        tool_response: payload.member("tool_response"@),
        tool_use_id: match tool_use_id {
            Some(id) => Some(id),
            None => payload.text_member("tool_use_id"@),
        },
        raw: payload,
    }
}

impl HookInput {
    /// Reads the input of a callback out of a `hook_callback` request. The identifier
    /// of the tool use that came with the request goes before one in the payload.
    pub fn from_request(request: &Value, tool_use_id: Option<String>) -> (r: HookInput)
        ensures
            r@ == hook_input(json(*request), text_view(tool_use_id)),
    {
        let input = match cloned_member(request, "input") {
            Some(input) => input,
            None => null(),
        };
        let tool_use_id = match tool_use_id {
            Some(id) => Some(id),
            None => text_member(&input, "tool_use_id"),
        };
        HookInput {
            hook_event_name: text_member(&input, "hook_event_name"),
            tool_name: text_member(&input, "tool_name"),
            tool_input: cloned_member(&input, "tool_input"),
            tool_response: cloned_member(&input, "tool_response"),
            tool_use_id,
            raw: input,
        }
    }
}

/// Permission decision that a `PreToolUse` hook can return.
#[derive(Debug, Clone, Copy, PartialEq, Eq, Structural)]
pub enum PermissionDecision {
    Allow,
    Deny,
    Ask,
}

impl PermissionDecision {
    /// The identifier of a decision on the wire.
    pub open spec fn name(self) -> Seq<char> {
        match self {
            PermissionDecision::Allow => "allow"@,
            PermissionDecision::Deny => "deny"@,
            PermissionDecision::Ask => "ask"@,
        }
    }

    /// The identifier of the decision on the wire: its name in lower case.
    pub fn as_str(&self) -> (r: &'static str)
        ensures
            r@ == self.name(),
    {
        match self {
            PermissionDecision::Allow => "allow",
            PermissionDecision::Deny => "deny",
            PermissionDecision::Ask => "ask",
        }
    }
}

/// The value that a hook callback returns to influence the turn.
///
/// `HookOutput::default()` is an empty, no-op response: the turn proceeds unchanged.
#[derive(Debug, PartialEq)]
pub struct HookOutput {
    /// Whether the agent should continue after the hook runs (`continue` on the wire).
    /// `Some(false)` halts the turn.
    pub continue_turn: Option<bool>,
    /// Reason surfaced when the turn is halted.
    pub stop_reason: Option<String>,
    /// Suppress the hook's output from the transcript.
    pub suppress_output: Option<bool>,
    /// `approve` / `block` decision for events that support it.
    pub decision: Option<String>,
    /// Human-readable reason accompanying `decision`.
    pub reason: Option<String>,
    /// Additional context injected as a system message.
    pub system_message: Option<String>,
    /// Event-specific structured output, passed through verbatim.
    pub hook_specific_output: Option<Value>,
}

/// What a [`HookOutput`] holds.
pub struct HookOutputView {
    pub continue_turn: Option<bool>,
    pub stop_reason: Option<Seq<char>>,
    pub suppress_output: Option<bool>,
    pub decision: Option<Seq<char>>,
    pub reason: Option<Seq<char>>,
    pub system_message: Option<Seq<char>>,
    pub hook_specific_output: Option<Json>,
}

impl View for HookOutput {
    type V = HookOutputView;

    open spec fn view(&self) -> HookOutputView {
        HookOutputView {
            continue_turn: self.continue_turn,
            stop_reason: text_view(self.stop_reason),
            suppress_output: self.suppress_output,
            decision: text_view(self.decision),
            reason: text_view(self.reason),
            system_message: text_view(self.system_message),
            hook_specific_output: json_option(self.hook_specific_output),
        }
    }
}

impl HookOutputView {
    /// The output with no field set.
    pub open spec fn empty() -> HookOutputView {
        HookOutputView {
            continue_turn: None,
            stop_reason: None,
            suppress_output: None,
            decision: None,
            reason: None,
            system_message: None,
            hook_specific_output: None,
        }
    }

    /// The field that stands under `key` on the wire, where it is set.
    pub open spec fn wire_field(self, key: Seq<char>) -> Option<Json> {
        if key == "continue"@ {
            bool_json(self.continue_turn)
        } else if key == "stopReason"@ {
            text_json(self.stop_reason)
        } else if key == "suppressOutput"@ {
            bool_json(self.suppress_output)
        } else if key == "decision"@ {
            text_json(self.decision)
        } else if key == "reason"@ {
            text_json(self.reason)
        } else if key == "systemMessage"@ {
            text_json(self.system_message)
        } else if key == "hookSpecificOutput"@ {
            self.hook_specific_output
        } else {
            None
        }
    }

    /// The output on the wire: the object of the fields that are set.
    pub open spec fn wire(self) -> Json {
        Json::Object(
            Map::new(
                |key: Seq<char>| self.wire_field(key) is Some,
                |key: Seq<char>| self.wire_field(key)->0,
            ),
        )
    }
}

/// The structured output of a `PreToolUse` permission decision.
pub open spec fn permission_output(decision: PermissionDecision, reason: Seq<char>) -> Json {
    Json::Object(
        no_members().insert("hookEventName"@, Json::Text("PreToolUse"@)).insert(
            "permissionDecision"@,
            Json::Text(decision.name()),
        ).insert("permissionDecisionReason"@, Json::Text(reason)),
    )
}

impl Clone for HookOutput {
    fn clone(&self) -> (r: HookOutput)
        ensures
            r@ == self@,
    {
        HookOutput {
            continue_turn: self.continue_turn,
            stop_reason: self.stop_reason.clone(),
            suppress_output: self.suppress_output,
            decision: self.decision.clone(),
            reason: self.reason.clone(),
            system_message: self.system_message.clone(),
            hook_specific_output: clone_option(&self.hook_specific_output),
        }
    }
}

/// The fields of an output stand under different keys.
proof fn lemma_output_keys()
    ensures
        "continue"@ != "stopReason"@,
        "continue"@ != "suppressOutput"@,
        "continue"@ != "decision"@,
        "continue"@ != "reason"@,
        "continue"@ != "systemMessage"@,
        "continue"@ != "hookSpecificOutput"@,
        "stopReason"@ != "suppressOutput"@,
        "stopReason"@ != "decision"@,
        "stopReason"@ != "reason"@,
        "stopReason"@ != "systemMessage"@,
        "stopReason"@ != "hookSpecificOutput"@,
        "suppressOutput"@ != "decision"@,
        "suppressOutput"@ != "reason"@,
        "suppressOutput"@ != "systemMessage"@,
        "suppressOutput"@ != "hookSpecificOutput"@,
        "decision"@ != "reason"@,
        "decision"@ != "systemMessage"@,
        "decision"@ != "hookSpecificOutput"@,
        "reason"@ != "systemMessage"@,
        "reason"@ != "hookSpecificOutput"@,
        "systemMessage"@ != "hookSpecificOutput"@,
{
    reveal_strlit("continue");
    reveal_strlit("stopReason");
    reveal_strlit("suppressOutput");
    reveal_strlit("decision");
    reveal_strlit("reason");
    reveal_strlit("systemMessage");
    reveal_strlit("hookSpecificOutput");
    assert("continue"@.len() == 8);
    assert("stopReason"@.len() == 10);
    assert("suppressOutput"@.len() == 14);
    assert("decision"@.len() == 8);
    assert("reason"@.len() == 6);
    assert("systemMessage"@.len() == 13);
    assert("hookSpecificOutput"@.len() == 18);
    assert("continue"@[0] != "decision"@[0]);
}

impl Default for HookOutput {
    /// The output with no field set.
    fn default() -> (r: HookOutput)
        ensures
            r@ == HookOutputView::empty(),
    {
        HookOutput {
            continue_turn: None,
            stop_reason: None,
            suppress_output: None,
            decision: None,
            reason: None,
            system_message: None,
            hook_specific_output: None,
        }
    }
}

impl HookOutput {
    /// An empty, observe-only response.
    pub fn new() -> (r: HookOutput)
        ensures
            r@ == HookOutputView::empty(),
    {
        HookOutput::default()
    }

    /// Block the action and say why.
    pub fn block<T: Into<String>>(reason: T) -> (r: HookOutput)
        ensures
            r.reason is Some,
            converts(reason, r.reason->0),
            r@ == (HookOutputView {
                decision: Some("block"@),
                reason: Some(r.reason->0@),
                ..HookOutputView::empty()
            }),
    {
        let mut r = HookOutput::default();
        r.decision = Some(String::from("block"));
        r.reason = Some(reason.into());
        r
    }

    /// Halt the entire turn with a reason.
    pub fn stop<T: Into<String>>(reason: T) -> (r: HookOutput)
        ensures
            r.stop_reason is Some,
            converts(reason, r.stop_reason->0),
            r@ == (HookOutputView {
                continue_turn: Some(false),
                stop_reason: Some(r.stop_reason->0@),
                ..HookOutputView::empty()
            }),
    {
        let mut r = HookOutput::default();
        r.continue_turn = Some(false);
        r.stop_reason = Some(reason.into());
        r
    }

    /// Return a `PreToolUse` permission decision.
    pub fn permission<T: Into<String>>(decision: PermissionDecision, reason: T) -> (r: HookOutput)
        ensures
            exists|text: String| #[trigger]
                converts(reason, text) && r@ == (HookOutputView {
                    hook_specific_output: Some(permission_output(decision, text@)),
                    ..HookOutputView::empty()
                }),
    {
        let text: String = reason.into();
        assert(converts(reason, text));
        let mut map = serde_json::Map::new();
        let _ = map.insert(String::from("hookEventName"), string(String::from("PreToolUse")));
        let _ = map.insert(
            String::from("permissionDecision"),
            string(String::from(decision.as_str())),
        );
        let _ = map.insert(String::from("permissionDecisionReason"), string(text));
        let mut r = HookOutput::default();
        r.hook_specific_output = Some(object(map));
        r
    }

    /// Attach a system message to the response.
    pub fn with_system_message<T: Into<String>>(self, message: T) -> (r: HookOutput)
        ensures
            r.system_message is Some,
            converts(message, r.system_message->0),
            r@ == (HookOutputView { system_message: Some(r.system_message->0@), ..self@ }),
            r == (HookOutput { system_message: r.system_message, ..self }),
    {
        let mut r = self;
        r.system_message = Some(message.into());
        r
    }

    /// The response on the wire: an object of the fields that are set.
    pub fn to_value(&self) -> (r: Value)
        ensures
            json(r) == self@.wire(),
    {
        let mut map = serde_json::Map::new();
        put_bool(&mut map, "continue", &self.continue_turn);
        put_text(&mut map, "stopReason", &self.stop_reason);
        put_bool(&mut map, "suppressOutput", &self.suppress_output);
        put_text(&mut map, "decision", &self.decision);
        put_text(&mut map, "reason", &self.reason);
        put_text(&mut map, "systemMessage", &self.system_message);
        put_value(&mut map, "hookSpecificOutput", &self.hook_specific_output);
        proof {
            lemma_output_keys();
            assert(members(map) =~= self@.wire()->Object_0);
        }
        object(map)
    }
}

/// An output has on the wire exactly the fields that are set, each with its value.
pub proof fn law_output_has_only_set_fields(output: HookOutputView, key: Seq<char>)
    ensures
        output.wire().member(key) == output.wire_field(key),
{
}

/// The empty output is the empty object on the wire.
pub proof fn law_empty_output()
    ensures
        HookOutputView::empty().wire() == Json::Object(no_members()),
{
    assert(HookOutputView::empty().wire()->Object_0 =~= no_members());
}

/// Nothing of an output is lost on the wire: different outputs differ there.
pub proof fn law_output_wire_is_faithful(a: HookOutputView, b: HookOutputView)
    requires
        a.wire() == b.wire(),
    ensures
        a == b,
{
    lemma_output_keys();
    assert forall|key: Seq<char>| a.wire_field(key) == #[trigger] b.wire_field(key) by {
        law_output_has_only_set_fields(a, key);
        law_output_has_only_set_fields(b, key);
    }
    assert(a.wire_field("continue"@) == b.wire_field("continue"@));
    assert(a.wire_field("stopReason"@) == b.wire_field("stopReason"@));
    assert(a.wire_field("suppressOutput"@) == b.wire_field("suppressOutput"@));
    assert(a.wire_field("decision"@) == b.wire_field("decision"@));
    assert(a.wire_field("reason"@) == b.wire_field("reason"@));
    assert(a.wire_field("systemMessage"@) == b.wire_field("systemMessage"@));
    assert(a.wire_field("hookSpecificOutput"@) == b.wire_field("hookSpecificOutput"@));
}

/// Different decisions have different identifiers on the wire.
pub proof fn law_decision_names_distinct(a: PermissionDecision, b: PermissionDecision)
    requires
        a.name() == b.name(),
    ensures
        a == b,
{
    reveal_strlit("allow");
    reveal_strlit("deny");
    reveal_strlit("ask");
    assert("allow"@.len() == 5);
    assert("deny"@.len() == 4);
    assert("ask"@.len() == 3);
}

/// The fields of an input are determined by its payload and the identifier of the tool
/// use: a request made of these two gives the same input again.
pub proof fn law_input_rewrapped(request: Json, tool_use_id: Option<Seq<char>>)
    ensures
        ({
            let input = hook_input(request, tool_use_id);
            hook_input(
                Json::Object(no_members().insert("input"@, input.raw)),
                input.tool_use_id,
            ) == input
        }),
{
    let input = hook_input(request, tool_use_id);
    let again = Json::Object(no_members().insert("input"@, input.raw));
    assert(request_payload(again) == input.raw);
}

} // verus!
