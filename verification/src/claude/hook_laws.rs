//! What the hook operations are for, stated of their arguments and results.
//!
//! Each law speaks of an executable function by what a call of it may return, of the
//! fields of the values that go in and come out, and of JSON members under literal keys.

use crate::claude::hooks::{
    permission_output, HookEvent, HookInput, HookOutput, PermissionDecision, EVENT_COUNT,
};
use crate::json::{json, Json};
use crate::text::converts;
use serde_json::Value;
use vstd::prelude::*;

verus! {

/// The identifier of an event is the name of its variant.
pub proof fn law_event_identifier(event: HookEvent, r: &str, s: String)
    requires
        call_ensures(HookEvent::as_str, (&event,), r),
        call_ensures(HookEvent::to_string, (&event,), s),
    ensures
        s@ == r@,
        event.name() == r@,
        match event {
            HookEvent::PreToolUse => r@ == "PreToolUse"@,
            HookEvent::PostToolUse => r@ == "PostToolUse"@,
            HookEvent::UserPromptSubmit => r@ == "UserPromptSubmit"@,
            HookEvent::Notification => r@ == "Notification"@,
            HookEvent::Stop => r@ == "Stop"@,
            HookEvent::SubagentStop => r@ == "SubagentStop"@,
            HookEvent::PreCompact => r@ == "PreCompact"@,
            HookEvent::SessionStart => r@ == "SessionStart"@,
            HookEvent::SessionEnd => r@ == "SessionEnd"@,
        },
{
}

/// The order of the events is that of their declaration, and every place below the
/// number of events is that of one event.
pub proof fn law_event_order(event: HookEvent, rank: int)
    ensures
        0 == HookEvent::PreToolUse.rank(),
        HookEvent::PreToolUse.rank() + 1 == HookEvent::PostToolUse.rank(),
        HookEvent::PostToolUse.rank() + 1 == HookEvent::UserPromptSubmit.rank(),
        HookEvent::UserPromptSubmit.rank() + 1 == HookEvent::Notification.rank(),
        HookEvent::Notification.rank() + 1 == HookEvent::Stop.rank(),
        HookEvent::Stop.rank() + 1 == HookEvent::SubagentStop.rank(),
        HookEvent::SubagentStop.rank() + 1 == HookEvent::PreCompact.rank(),
        HookEvent::PreCompact.rank() + 1 == HookEvent::SessionStart.rank(),
        HookEvent::SessionStart.rank() + 1 == HookEvent::SessionEnd.rank(),
        HookEvent::SessionEnd.rank() + 1 == EVENT_COUNT,
        HookEvent::at(event.rank() as int) == event,
        0 <= rank < EVENT_COUNT ==> HookEvent::at(rank).rank() == rank,
{
}

/// The identifier of a decision is the name of its variant in lower case.
pub proof fn law_decision_identifier(decision: PermissionDecision, r: &str)
    requires
        call_ensures(PermissionDecision::as_str, (&decision,), r),
    ensures
        decision.name() == r@,
        match decision {
            PermissionDecision::Allow => r@ == "allow"@,
            PermissionDecision::Deny => r@ == "deny"@,
            PermissionDecision::Ask => r@ == "ask"@,
        },
{
}

/// The input of a callback carries the payload of the request unchanged, null where the
/// request has none.
pub proof fn law_input_payload(
    request: &Value,
    tool_use_id: Option<String>,
    input: HookInput,
)
    requires
        call_ensures(HookInput::from_request, (request, tool_use_id), input),
    ensures
        match json(*request) {
            Json::Object(map) => if map.contains_key("input"@) {
                json(input.raw) == map["input"@]
            } else {
                json(input.raw) == Json::Null
            },
            _ => json(input.raw) == Json::Null,
        },
{
}

/// Each field of an input is what the payload has under the key of that name: any value
/// for the input and the response of a tool, a string for the names. The identifier of
/// the tool use is the one given with the request, else the string in the payload.
pub proof fn law_input_fields(
    request: &Value,
    tool_use_id: Option<String>,
    input: HookInput,
)
    requires
        call_ensures(HookInput::from_request, (request, tool_use_id), input),
    ensures
        match json(input.raw).member("tool_input"@) {
            Some(value) => input.tool_input is Some && json(input.tool_input->0) == value,
            None => input.tool_input is None,
        },
        match json(input.raw).member("tool_response"@) {
            Some(value) => input.tool_response is Some && json(input.tool_response->0) == value,
            None => input.tool_response is None,
        },
        match json(input.raw).member("hook_event_name"@) {
            Some(Json::Text(name)) => input.hook_event_name is Some
                && input.hook_event_name->0@ == name,
            _ => input.hook_event_name is None,
        },
        match json(input.raw).member("tool_name"@) {
            Some(Json::Text(name)) => input.tool_name is Some && input.tool_name->0@ == name,
            _ => input.tool_name is None,
        },
        match (tool_use_id, json(input.raw).member("tool_use_id"@)) {
            (Some(given), _) => input.tool_use_id is Some && input.tool_use_id->0@ == given@,
            (None, Some(Json::Text(id))) => input.tool_use_id is Some && input.tool_use_id->0@
                == id,
            _ => input.tool_use_id is None,
        },
{
}

/// A member of the payload bears on no field but its own: two payloads that differ only
/// under one key give inputs that agree in every field of another key.
pub proof fn law_input_fields_are_independent(
    a: &Value,
    b: &Value,
    tool_use_id: Option<String>,
    of_a: HookInput,
    of_b: HookInput,
    payload: Map<Seq<char>, Json>,
    key: Seq<char>,
    value: Json,
)
    requires
        call_ensures(HookInput::from_request, (a, tool_use_id), of_a),
        call_ensures(HookInput::from_request, (b, tool_use_id), of_b),
        json(*a).member("input"@) == Some(Json::Object(payload)),
        json(*b).member("input"@) == Some(Json::Object(payload.insert(key, value))),
    ensures
        key != "tool_input"@ ==> (of_a.tool_input is Some <==> of_b.tool_input is Some) && (
        of_a.tool_input is Some ==> json(of_a.tool_input->0) == json(of_b.tool_input->0)),
        key != "tool_response"@ ==> (of_a.tool_response is Some <==> of_b.tool_response is Some)
            && (of_a.tool_response is Some ==> json(of_a.tool_response->0) == json(
            of_b.tool_response->0,
        )),
        key != "hook_event_name"@ ==> (of_a.hook_event_name is Some <==> of_b.hook_event_name
            is Some) && (of_a.hook_event_name is Some ==> of_a.hook_event_name->0@
            == of_b.hook_event_name->0@),
        key != "tool_name"@ ==> (of_a.tool_name is Some <==> of_b.tool_name is Some) && (
        of_a.tool_name is Some ==> of_a.tool_name->0@ == of_b.tool_name->0@),
        key != "tool_use_id"@ ==> (of_a.tool_use_id is Some <==> of_b.tool_use_id is Some) && (
        of_a.tool_use_id is Some ==> of_a.tool_use_id->0@ == of_b.tool_use_id->0@),
        key == "tool_input"@ ==> of_b.tool_input is Some && json(of_b.tool_input->0) == value,
        key == "tool_response"@ ==> of_b.tool_response is Some && json(of_b.tool_response->0)
            == value,
{
    law_input_payload(a, tool_use_id, of_a);
    law_input_payload(b, tool_use_id, of_b);
    law_input_fields(a, tool_use_id, of_a);
    law_input_fields(b, tool_use_id, of_b);
}

/// A copy of an input holds the same in every field.
pub proof fn law_input_copy(input: &HookInput, copy: HookInput)
    requires
        call_ensures(<HookInput as Clone>::clone, (input,), copy),
    ensures
        input.hook_event_name is Some <==> copy.hook_event_name is Some,
        input.hook_event_name is Some ==> input.hook_event_name->0@ == copy.hook_event_name->0@,
        input.tool_name is Some <==> copy.tool_name is Some,
        input.tool_name is Some ==> input.tool_name->0@ == copy.tool_name->0@,
        input.tool_input is Some <==> copy.tool_input is Some,
        input.tool_input is Some ==> json(input.tool_input->0) == json(copy.tool_input->0),
        input.tool_response is Some <==> copy.tool_response is Some,
        input.tool_response is Some ==> json(input.tool_response->0) == json(copy.tool_response->0),
        input.tool_use_id is Some <==> copy.tool_use_id is Some,
        input.tool_use_id is Some ==> input.tool_use_id->0@ == copy.tool_use_id->0@,
        json(input.raw) == json(copy.raw),
{
}

/// The keys of the fields of an output are different.
proof fn lemma_wire_keys()
    ensures
        "continue"@ != "stopReason"@,
        "continue"@ != "suppressOutput"@,
        "continue"@ != "decision"@,
        "continue"@ != "reason"@,
        "continue"@ != "systemMessage"@,
        "continue"@ != "hookSpecificOutput"@,
        "stopReason"@ != "suppressOutput"@,
        "stopReason"@ != "decision"@,
        "stopReason"@ != "reason"@,
        "stopReason"@ != "systemMessage"@,
        "stopReason"@ != "hookSpecificOutput"@,
        "suppressOutput"@ != "decision"@,
        "suppressOutput"@ != "reason"@,
        "suppressOutput"@ != "systemMessage"@,
        "suppressOutput"@ != "hookSpecificOutput"@,
        "decision"@ != "reason"@,
        "decision"@ != "systemMessage"@,
        "decision"@ != "hookSpecificOutput"@,
        "reason"@ != "systemMessage"@,
        "reason"@ != "hookSpecificOutput"@,
        "systemMessage"@ != "hookSpecificOutput"@,
{
    reveal_strlit("continue");
    reveal_strlit("stopReason");
    reveal_strlit("suppressOutput");
    reveal_strlit("decision");
    reveal_strlit("reason");
    reveal_strlit("systemMessage");
    reveal_strlit("hookSpecificOutput");
    assert("continue"@.len() == 8);
    assert("stopReason"@.len() == 10);
    assert("suppressOutput"@.len() == 14);
    assert("decision"@.len() == 8);
    assert("reason"@.len() == 6);
    assert("systemMessage"@.len() == 13);
    assert("hookSpecificOutput"@.len() == 18);
    assert("continue"@[0] == 'c' && "decision"@[0] == 'd');
}

/// An output goes out as an object that has each field that is set under its own key,
/// whatever the other fields hold, and nothing else.
pub proof fn law_output_fields(output: &HookOutput, r: Value)
    requires
        call_ensures(HookOutput::to_value, (output,), r),
    ensures
        json(r) is Object,
        match output.continue_turn {
            Some(flag) => json(r).member("continue"@) == Some(Json::Bool(flag)),
            None => json(r).member("continue"@) is None,
        },
        match output.stop_reason {
            Some(text) => json(r).member("stopReason"@) == Some(Json::Text(text@)),
            None => json(r).member("stopReason"@) is None,
        },
        match output.suppress_output {
            Some(flag) => json(r).member("suppressOutput"@) == Some(Json::Bool(flag)),
            None => json(r).member("suppressOutput"@) is None,
        },
        match output.decision {
            Some(text) => json(r).member("decision"@) == Some(Json::Text(text@)),
            None => json(r).member("decision"@) is None,
        },
        match output.reason {
            Some(text) => json(r).member("reason"@) == Some(Json::Text(text@)),
            None => json(r).member("reason"@) is None,
        },
        match output.system_message {
            Some(text) => json(r).member("systemMessage"@) == Some(Json::Text(text@)),
            None => json(r).member("systemMessage"@) is None,
        },
        match output.hook_specific_output {
            Some(value) => json(r).member("hookSpecificOutput"@) == Some(json(value)),
            None => json(r).member("hookSpecificOutput"@) is None,
        },
        forall|key: Seq<char>| #[trigger]
            json(r).member(key) is Some ==> key == "continue"@ || key == "stopReason"@ || key
                == "suppressOutput"@ || key == "decision"@ || key == "reason"@ || key
                == "systemMessage"@ || key == "hookSpecificOutput"@,
{
    lemma_wire_keys();
}

/// A new output, which is the default, has no field set.
pub proof fn law_new_output(r: HookOutput, d: HookOutput)
    requires
        call_ensures(HookOutput::new, (), r),
        call_ensures(<HookOutput as Default>::default, (), d),
    ensures
        r.continue_turn is None,
        r.stop_reason is None,
        r.suppress_output is None,
        r.decision is None,
        r.reason is None,
        r.system_message is None,
        r.hook_specific_output is None,
        d.continue_turn is None,
        d.stop_reason is None,
        d.suppress_output is None,
        d.decision is None,
        d.reason is None,
        d.system_message is None,
        d.hook_specific_output is None,
{
}

/// Blocking sets the decision `block` and the reason, and nothing else.
pub proof fn law_block<T: Into<String>>(reason: T, r: HookOutput)
    requires
        call_ensures(HookOutput::block::<T>, (reason,), r),
    ensures
        r.decision is Some,
        r.decision->0@ == "block"@,
        r.reason is Some,
        call_ensures(<T as Into<String>>::into, (reason,), r.reason->0),
        r.continue_turn is None,
        r.stop_reason is None,
        r.suppress_output is None,
        r.system_message is None,
        r.hook_specific_output is None,
{
}

/// Stopping sets that the turn does not continue and the reason, and nothing else.
pub proof fn law_stop<T: Into<String>>(reason: T, r: HookOutput)
    requires
        call_ensures(HookOutput::stop::<T>, (reason,), r),
    ensures
        r.continue_turn == Some(false),
        r.stop_reason is Some,
        call_ensures(<T as Into<String>>::into, (reason,), r.stop_reason->0),
        r.suppress_output is None,
        r.decision is None,
        r.reason is None,
        r.system_message is None,
        r.hook_specific_output is None,
{
}

/// A system message is attached and every other field stays.
pub proof fn law_system_message<T: Into<String>>(output: HookOutput, message: T, r: HookOutput)
    requires
        call_ensures(HookOutput::with_system_message::<T>, (output, message), r),
    ensures
        r.system_message is Some,
        call_ensures(<T as Into<String>>::into, (message,), r.system_message->0),
        r.continue_turn == output.continue_turn,
        r.stop_reason == output.stop_reason,
        r.suppress_output == output.suppress_output,
        r.decision == output.decision,
        r.reason == output.reason,
        r.hook_specific_output == output.hook_specific_output,
{
}

/// A copy of an output holds the same in every field.
pub proof fn law_output_copy(output: &HookOutput, copy: HookOutput)
    requires
        call_ensures(<HookOutput as Clone>::clone, (output,), copy),
    ensures
        output.continue_turn == copy.continue_turn,
        output.suppress_output == copy.suppress_output,
        output.stop_reason is Some <==> copy.stop_reason is Some,
        output.stop_reason is Some ==> output.stop_reason->0@ == copy.stop_reason->0@,
        output.decision is Some <==> copy.decision is Some,
        output.decision is Some ==> output.decision->0@ == copy.decision->0@,
        output.reason is Some <==> copy.reason is Some,
        output.reason is Some ==> output.reason->0@ == copy.reason->0@,
        output.system_message is Some <==> copy.system_message is Some,
        output.system_message is Some ==> output.system_message->0@ == copy.system_message->0@,
        output.hook_specific_output is Some <==> copy.hook_specific_output is Some,
        output.hook_specific_output is Some ==> json(output.hook_specific_output->0) == json(copy.hook_specific_output->0),
{
}

/// The keys of a permission are different.
proof fn lemma_permission_keys()
    ensures
        "hookEventName"@ != "permissionDecision"@,
        "hookEventName"@ != "permissionDecisionReason"@,
        "permissionDecision"@ != "permissionDecisionReason"@,
{
    reveal_strlit("hookEventName");
    reveal_strlit("permissionDecision");
    reveal_strlit("permissionDecisionReason");
    assert("hookEventName"@.len() == 13);
    assert("permissionDecision"@.len() == 18);
    assert("permissionDecisionReason"@.len() == 24);
}

/// A permission goes out as structured output of `PreToolUse` with the decision in lower
/// case and the reason, and sets nothing else.
pub proof fn law_permission<T: Into<String>>(
    decision: PermissionDecision,
    reason: T,
    r: HookOutput,
)
    requires
        call_ensures(HookOutput::permission::<T>, (decision, reason), r),
    ensures
        r.hook_specific_output is Some,
        json(r.hook_specific_output->0) is Object,
        json(r.hook_specific_output->0).member("hookEventName"@) == Some(
            Json::Text("PreToolUse"@),
        ),
        json(r.hook_specific_output->0).member("permissionDecision"@) == Some(
            Json::Text(
                match decision {
                    PermissionDecision::Allow => "allow"@,
                    PermissionDecision::Deny => "deny"@,
                    PermissionDecision::Ask => "ask"@,
                },
            ),
        ),
        exists|text: String| #[trigger]
            call_ensures(<T as Into<String>>::into, (reason,), text) && json(
                r.hook_specific_output->0,
            ).member("permissionDecisionReason"@) == Some(Json::Text(text@)),
        forall|key: Seq<char>| #[trigger]
            json(r.hook_specific_output->0).member(key) is Some ==> key == "hookEventName"@ || key
                == "permissionDecision"@ || key == "permissionDecisionReason"@,
        r.continue_turn is None,
        r.stop_reason is None,
        r.suppress_output is None,
        r.decision is None,
        r.reason is None,
        r.system_message is None,
{
    lemma_permission_keys();
    let text = choose|text: String| #[trigger]
        converts(reason, text) && r@.hook_specific_output == Some(
            permission_output(decision, text@),
        );
    assert(call_ensures(<T as Into<String>>::into, (reason,), text));
}

/// Different decisions go out differently, whatever the reasons.
pub proof fn law_permissions_differ<T: Into<String>>(
    a: PermissionDecision,
    for_a: T,
    of_a: HookOutput,
    b: PermissionDecision,
    for_b: T,
    of_b: HookOutput,
)
    requires
        call_ensures(HookOutput::permission::<T>, (a, for_a), of_a),
        call_ensures(HookOutput::permission::<T>, (b, for_b), of_b),
        a != b,
    ensures
        json(of_a.hook_specific_output->0) != json(of_b.hook_specific_output->0),
{
    law_permission(a, for_a, of_a);
    law_permission(b, for_b, of_b);
    reveal_strlit("allow");
    reveal_strlit("deny");
    reveal_strlit("ask");
    assert("allow"@.len() == 5);
    assert("deny"@.len() == 4);
    assert("ask"@.len() == 3);
}

} // verus!
