use std::future::Future;
use std::pin::Pin;
use std::sync::Arc;

use agent_sdk::claude::{
    HookEvent, HookInput, HookMatcher, HookOutput, HookRegistry, PermissionDecision,
};
use serde_json::Value;

type Reply = Pin<Box<dyn Future<Output = HookOutput> + Send>>;
type HookCallback = dyn Fn(HookInput) -> Reply + Send + Sync + 'static;

fn hook<F, Fut>(callback: F) -> Arc<HookCallback>
where
    F: Fn(HookInput) -> Fut + Send + Sync + 'static,
    Fut: Future<Output = HookOutput> + Send + 'static,
{
    Arc::new(move |input| Box::pin(callback(input)))
}

fn json(text: &str) -> Value {
    serde_json::from_str(text).unwrap()
}

#[test]
fn build_assigns_sequential_callback_ids_and_camelcase_payload() {
    let registry = HookRegistry::new()
        .on(
            HookEvent::PreToolUse,
            HookMatcher::new("Bash", vec![hook(|_| async { HookOutput::block("no") })]),
        )
        .on(
            HookEvent::Stop,
            HookMatcher::any(vec![hook(|_| async { HookOutput::new() })]),
        );

    let (payload, callbacks) = registry.build();

    assert_eq!(callbacks.len(), 2);
    assert!(callbacks.contains_key("hook_0"));
    assert!(callbacks.contains_key("hook_1"));

    assert_eq!(
        payload,
        json(
            r#"{
                "PreToolUse": [ { "matcher": "Bash", "hookCallbackIds": ["hook_0"] } ],
                "Stop": [ { "hookCallbackIds": ["hook_1"] } ]
            }"#
        )
    );
}

#[test]
fn hook_output_serializes_only_set_fields() {
    assert_eq!(HookOutput::new().to_value(), json("{}"));
    assert_eq!(
        HookOutput::block("nope").to_value(),
        json(r#"{ "decision": "block", "reason": "nope" }"#)
    );
    assert_eq!(
        HookOutput::permission(PermissionDecision::Deny, "blocked").to_value(),
        json(
            r#"{
                "hookSpecificOutput": {
                    "hookEventName": "PreToolUse",
                    "permissionDecision": "deny",
                    "permissionDecisionReason": "blocked"
                }
            }"#
        )
    );
}

#[test]
fn hook_input_extracts_typed_fields() {
    let request = json(
        r#"{
            "input": {
                "hook_event_name": "PreToolUse",
                "tool_name": "Bash",
                "tool_input": { "command": "ls" }
            }
        }"#,
    );
    let input = HookInput::from_request(&request, Some("toolu_9".to_string()));
    assert_eq!(input.hook_event_name.as_deref(), Some("PreToolUse"));
    assert_eq!(input.tool_name.as_deref(), Some("Bash"));
    assert_eq!(input.tool_use_id.as_deref(), Some("toolu_9"));
    assert_eq!(input.tool_input, Some(json(r#"{ "command": "ls" }"#)));
}

#[test]
fn hook_input_keeps_the_full_payload() {
    let request = json(
        r#"{ "input": { "tool_use_id": "toolu_1", "tool_response": [1, 2.5, null], "extra": true } }"#,
    );
    let input = HookInput::from_request(&request, None);
    assert_eq!(input.raw, request["input"]);
    assert_eq!(input.tool_use_id.as_deref(), Some("toolu_1"));
    assert_eq!(input.tool_response, Some(json("[1, 2.5, null]")));
    assert_eq!(input.tool_input, None);
    assert_eq!(input.hook_event_name, None);
    assert_eq!(input.clone(), input);
}

#[test]
fn hook_input_of_a_request_without_payload() {
    let input = HookInput::from_request(&json(r#"{ "subtype": "hook_callback" }"#), None);
    assert_eq!(input.raw, Value::Null);
    assert_eq!(input.tool_name, None);
    assert_eq!(input.tool_use_id, None);
    let input = HookInput::from_request(&json("[1]"), None);
    assert_eq!(input.raw, Value::Null);
}

#[test]
fn hook_input_skips_fields_that_are_no_strings() {
    let request = json(r#"{ "input": { "tool_name": 7, "tool_use_id": null, "tool_input": null } }"#);
    let input = HookInput::from_request(&request, None);
    assert_eq!(input.tool_name, None);
    assert_eq!(input.tool_use_id, None);
    assert_eq!(input.tool_input, Some(Value::Null));
}

#[test]
fn given_tool_use_id_goes_before_the_payload() {
    let request = json(r#"{ "input": { "tool_use_id": "inner" } }"#);
    let input = HookInput::from_request(&request, Some("outer".to_string()));
    assert_eq!(input.tool_use_id.as_deref(), Some("outer"));
}

#[test]
fn stop_halts_the_turn() {
    let output = HookOutput::stop("enough");
    assert_eq!(output.continue_turn, Some(false));
    assert_eq!(
        output.to_value(),
        json(r#"{ "continue": false, "stopReason": "enough" }"#)
    );
}

#[test]
fn system_message_leaves_the_other_fields() {
    let output = HookOutput::block("no".to_string()).with_system_message("note");
    assert_eq!(
        output.to_value(),
        json(r#"{ "decision": "block", "reason": "no", "systemMessage": "note" }"#)
    );
}

#[test]
fn full_output_on_the_wire() {
    let output = HookOutput {
        continue_turn: Some(true),
        stop_reason: Some("s".to_string()),
        suppress_output: Some(true),
        decision: Some("approve".to_string()),
        reason: Some("r".to_string()),
        system_message: Some("m".to_string()),
        hook_specific_output: Some(json(r#"{ "a": [1] }"#)),
    };
    assert_eq!(
        output.to_value(),
        json(
            r#"{ "continue": true, "stopReason": "s", "suppressOutput": true,
                 "decision": "approve", "reason": "r", "systemMessage": "m",
                 "hookSpecificOutput": { "a": [1] } }"#
        )
    );
    assert_eq!(output.clone(), output);
    assert_ne!(output, HookOutput::default());
}

#[test]
fn permission_decisions_in_lower_case() {
    assert_eq!(PermissionDecision::Allow.as_str(), "allow");
    assert_eq!(PermissionDecision::Deny.as_str(), "deny");
    assert_eq!(PermissionDecision::Ask.as_str(), "ask");
}

#[test]
fn event_names_on_the_wire() {
    let events = [
        (HookEvent::PreToolUse, "PreToolUse"),
        (HookEvent::PostToolUse, "PostToolUse"),
        (HookEvent::UserPromptSubmit, "UserPromptSubmit"),
        (HookEvent::Notification, "Notification"),
        (HookEvent::Stop, "Stop"),
        (HookEvent::SubagentStop, "SubagentStop"),
        (HookEvent::PreCompact, "PreCompact"),
        (HookEvent::SessionStart, "SessionStart"),
        (HookEvent::SessionEnd, "SessionEnd"),
    ];
    for (event, name) in events {
        assert_eq!(event.as_str(), name);
    }
    for pair in events.windows(2) {
        assert!(pair[0].0 < pair[1].0);
    }
}

fn label(callbacks: &[&str]) -> Vec<Arc<String>> {
    callbacks.iter().map(|name| Arc::new(name.to_string())).collect()
}

#[test]
fn ids_follow_events_and_then_registrations() {
    let registry = HookRegistry::new()
        .on(HookEvent::SessionEnd, HookMatcher::any(label(&["last"])))
        .on(HookEvent::PreToolUse, HookMatcher::new("Bash", label(&["a", "b"])))
        .on(HookEvent::PreToolUse, HookMatcher::any(label(&[])))
        .on(HookEvent::PreToolUse, HookMatcher::new("Edit".to_string(), label(&["c"])));
    let (payload, callbacks) = registry.build();
    assert_eq!(
        payload,
        json(
            r#"{
                "PreToolUse": [
                    { "matcher": "Bash", "hookCallbackIds": ["hook_0", "hook_1"] },
                    { "hookCallbackIds": [] },
                    { "matcher": "Edit", "hookCallbackIds": ["hook_2"] }
                ],
                "SessionEnd": [ { "hookCallbackIds": ["hook_3"] } ]
            }"#
        )
    );
    let routed: Vec<&str> = (0..4)
        .map(|n| callbacks.get(&format!("hook_{n}")).unwrap().as_str())
        .collect();
    assert_eq!(routed, ["a", "b", "c", "last"]);
    assert!(callbacks.get("hook_4").is_none());
    assert!(callbacks.get("hook_").is_none());
    assert!(!callbacks.contains_key("hook_00"));
}

#[test]
fn every_announced_id_routes_back() {
    let names: Vec<String> = (0..123).map(|n| format!("callback {n}")).collect();
    let callbacks: Vec<Arc<String>> = names.iter().map(|name| Arc::new(name.clone())).collect();
    let registry = HookRegistry::new().on(HookEvent::Notification, HookMatcher::any(callbacks));
    let (payload, table) = registry.build();
    let ids = payload["Notification"][0]["hookCallbackIds"].as_array().unwrap();
    assert_eq!(ids.len(), 123);
    assert_eq!(table.len(), 123);
    assert_eq!(ids[9], "hook_9");
    assert_eq!(ids[10], "hook_10");
    assert_eq!(ids[122], "hook_122");
    for (id, name) in ids.iter().zip(&names) {
        assert_eq!(**table.get(id.as_str().unwrap()).unwrap(), *name);
    }
}

#[test]
fn registrations_for_different_events_commute() {
    let one = HookRegistry::new()
        .on(HookEvent::Stop, HookMatcher::any(label(&["s"])))
        .on(HookEvent::PreCompact, HookMatcher::any(label(&["p"])));
    let other = HookRegistry::new()
        .on(HookEvent::PreCompact, HookMatcher::any(label(&["p"])))
        .on(HookEvent::Stop, HookMatcher::any(label(&["s"])));
    let (a, at) = one.build();
    let (b, bt) = other.build();
    assert_eq!(a, b);
    assert_eq!(at.get("hook_1"), bt.get("hook_1"));
    assert_eq!(at.get("hook_1").unwrap().as_str(), "p");
}

#[test]
fn empty_registry() {
    let registry: HookRegistry<String> = HookRegistry::default();
    assert!(registry.is_empty());
    let (payload, callbacks) = registry.build();
    assert_eq!(payload, json("{}"));
    assert_eq!(callbacks.len(), 0);
    assert!(registry.matchers(HookEvent::Stop).is_none());
    let registry = registry.on(HookEvent::Stop, HookMatcher::any(label(&[])));
    assert!(!registry.is_empty());
    assert_eq!(
        registry.build().0,
        json(r#"{ "Stop": [ { "hookCallbackIds": [] } ] }"#)
    );
}

#[test]
fn a_copy_of_a_registry_shares_its_callbacks() {
    let registry = HookRegistry::new().on(HookEvent::Stop, HookMatcher::new("X", label(&["s"])));
    let copy = registry.clone();
    assert_eq!(copy.build().0, registry.build().0);
    let (_, one) = registry.build();
    let (_, other) = copy.build();
    assert!(Arc::ptr_eq(one.get("hook_0").unwrap(), other.get("hook_0").unwrap()));
    let matchers = registry.matchers(HookEvent::Stop).unwrap();
    assert_eq!(matchers[0].matcher.as_deref(), Some("X"));
    assert_eq!(matchers[0].callbacks_summary(), "[1 callback(s)]");
}

#[test]
fn an_event_as_a_string_is_its_name() {
    let events = [
        HookEvent::PreToolUse,
        HookEvent::PostToolUse,
        HookEvent::UserPromptSubmit,
        HookEvent::Notification,
        HookEvent::Stop,
        HookEvent::SubagentStop,
        HookEvent::PreCompact,
        HookEvent::SessionStart,
        HookEvent::SessionEnd,
    ];
    for a in events {
        assert_eq!(a.to_string(), a.as_str());
        assert_eq!(format!("{a:?}"), a.as_str());
        for b in events {
            assert_eq!(a == b, a.as_str() == b.as_str());
        }
    }
}

#[test]
fn building_twice_gives_the_same() {
    let registry = HookRegistry::new()
        .on(HookEvent::Stop, HookMatcher::any(label(&["x", "y"])))
        .on(HookEvent::PreToolUse, HookMatcher::new("Bash", label(&["z"])));
    let (first, one) = registry.build();
    let (second, other) = registry.build();
    assert_eq!(first, second);
    assert_eq!(one.len(), other.len());
    for id in ["hook_0", "hook_1", "hook_2"] {
        assert!(Arc::ptr_eq(one.get(id).unwrap(), other.get(id).unwrap()));
    }
    assert_eq!(one.get("hook_0").unwrap().as_str(), "z");
}

#[test]
fn a_rewrapped_payload_gives_the_same_input() {
    let requests = [
        r#"{ "input": { "tool_name": "Bash", "tool_use_id": "a", "tool_input": [1] } }"#,
        r#"{ "input": { "tool_use_id": 3 } }"#,
        r#"{ "input": "text" }"#,
        r#"{}"#,
    ];
    for request in requests {
        for id in [None, Some("given".to_string())] {
            let input = HookInput::from_request(&json(request), id);
            let mut again = serde_json::Map::new();
            again.insert("input".to_string(), input.raw.clone());
            let rewrapped =
                HookInput::from_request(&Value::Object(again), input.tool_use_id.clone());
            assert_eq!(rewrapped, input);
        }
    }
}
