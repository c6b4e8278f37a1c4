//! What the operations of the registry are for, stated of their arguments and results.
//!
//! Each law speaks of an executable function by what a call of it may return, of the
//! registered matchers by event and index, and of JSON members under literal keys.

use crate::claude::hooks::{HookEvent, EVENT_COUNT};
use crate::claude::registry::{
    callback_id, callback_number, callback_order, callbacks_before, law_announced_events,
    law_table_size, lemma_callbacks_before_prefix, lemma_locate_in_events, lemma_matcher_position,
    lemma_routes, CallbackTable, HookMatcher, HookMatcherView, HookRegistry,
};
use crate::json::{json, Json};
use crate::text::decimal;
use serde_json::Value;
use std::sync::Arc;
use vstd::prelude::*;

verus! {

/// A matcher keeps its pattern and its callbacks.
pub proof fn law_matcher<T: Into<String>, C: ?Sized>(
    pattern: T,
    callbacks: Vec<Arc<C>>,
    r: HookMatcher<C>,
)
    requires
        call_ensures(HookMatcher::<C>::new::<T>, (pattern, callbacks), r),
    ensures
        r.matcher is Some,
        call_ensures(<T as Into<String>>::into, (pattern,), r.matcher->0),
        r.callbacks@ == callbacks@,
{
}

/// A matcher for every tool has no pattern and keeps its callbacks.
pub proof fn law_any_matcher<C: ?Sized>(callbacks: Vec<Arc<C>>, r: HookMatcher<C>)
    requires
        call_ensures(HookMatcher::<C>::any, (callbacks,), r),
    ensures
        r.matcher is None,
        r.callbacks@ == callbacks@,
{
}

/// What a matcher holds is the text of its pattern, where it has one, and its callbacks,
/// and a copy has the same.
pub proof fn law_matcher_contents<C: ?Sized>(matcher: &HookMatcher<C>, copy: HookMatcher<C>)
    requires
        call_ensures(<HookMatcher<C> as Clone>::clone, (matcher,), copy),
    ensures
        matcher.matcher is Some <==> matcher@.matcher is Some,
        matcher.matcher is Some ==> matcher@.matcher->0 == matcher.matcher->0@,
        matcher@.callbacks == matcher.callbacks@,
        matcher.matcher is Some <==> copy.matcher is Some,
        matcher.matcher is Some ==> matcher.matcher->0@ == copy.matcher->0@,
        matcher.callbacks@ == copy.callbacks@,
{
}

/// The summary of the callbacks names how many there are.
pub proof fn law_callbacks_summary<C: ?Sized>(matcher: &HookMatcher<C>, r: String)
    requires
        call_ensures(HookMatcher::<C>::callbacks_summary, (matcher,), r),
    ensures
        r@ == "["@ + decimal(matcher.callbacks@.len()) + " callback(s)]"@,
{
}

/// A new registry, which is the default, has no event and is empty.
pub proof fn law_new_registry<C: ?Sized>(r: HookRegistry<C>, d: HookRegistry<C>, event: HookEvent)
    requires
        call_ensures(HookRegistry::<C>::new, (), r),
        call_ensures(<HookRegistry<C> as Default>::default, (), d),
    ensures
        !r@.contains_key(event),
        !d@.contains_key(event),
        r@ == d@,
        forall|empty: bool|
            call_ensures(HookRegistry::<C>::is_empty, (&r,), empty) ==> empty,
{
}

/// Registering puts the matcher behind those of its event and leaves the other events:
/// what is read back afterwards is what was there before and the matcher.
pub proof fn law_registering<C: ?Sized>(
    registry: HookRegistry<C>,
    event: HookEvent,
    matcher: HookMatcher<C>,
    r: HookRegistry<C>,
    other: HookEvent,
)
    requires
        call_ensures(HookRegistry::<C>::on, (registry, event, matcher), r),
    ensures
        r@.contains_key(event),
        r@[event].last().callbacks == matcher.callbacks@,
        matcher.matcher is Some ==> r@[event].last().matcher == Some(matcher.matcher->0@),
        matcher.matcher is None ==> r@[event].last().matcher is None,
        registry@.contains_key(event) ==> r@[event].drop_last() == registry@[event],
        !registry@.contains_key(event) ==> r@[event].len() == 1,
        r@[event].len() > 0,
        other != event ==> (r@.contains_key(other) <==> registry@.contains_key(other)),
        other != event && registry@.contains_key(other) ==> r@[other] == registry@[other],
        forall|empty: bool|
            call_ensures(HookRegistry::<C>::is_empty, (&r,), empty) ==> !empty,
{
    if registry@.contains_key(event) {
        assert(r@[event].drop_last() =~= registry@[event]);
    }
    assert(r@.contains_key(event));
}

/// The matchers that are read for an event are those that the registry holds for it, one
/// for one.
pub proof fn law_matchers_read<C: ?Sized>(
    registry: &HookRegistry<C>,
    event: HookEvent,
    r: Option<&Vec<HookMatcher<C>>>,
)
    requires
        call_ensures(HookRegistry::<C>::matchers, (registry, event), r),
    ensures
        r is Some <==> registry@.contains_key(event),
        r matches Some(matchers) ==> {
            &&& matchers@.len() == registry@[event].len()
            &&& forall|j: int|
                #![trigger registry@[event][j]]
                0 <= j < matchers@.len() ==> {
                    &&& registry@[event][j].callbacks == matchers@[j].callbacks@
                    &&& (matchers@[j].matcher is Some <==> registry@[event][j].matcher is Some)
                    &&& (matchers@[j].matcher is Some ==> registry@[event][j].matcher->0
                        == matchers@[j].matcher->0@)
                }
        },
{
}

/// A copy of a registry holds the same matchers for every event.
pub proof fn law_registry_copy<C: ?Sized>(registry: &HookRegistry<C>, copy: HookRegistry<C>)
    requires
        call_ensures(<HookRegistry<C> as Clone>::clone, (registry,), copy),
    ensures
        registry@ == copy@,
{
}

/// The payload is an object that has the name of each event with a registration, each
/// with an array of as many announcements as there are matchers, and nothing else.
pub proof fn law_payload_events<C: ?Sized>(
    registry: &HookRegistry<C>,
    r: (Value, CallbackTable<C>),
    event: HookEvent,
)
    requires
        call_ensures(HookRegistry::<C>::build, (registry,), r),
    ensures
        json(r.0) is Object,
        registry@.contains_key(event) ==> {
            &&& json(r.0).member(event.name()) is Some
            &&& json(r.0).member(event.name())->0 is Array
            &&& (json(r.0).member(event.name())->0)->Array_0.len() == registry@[event].len()
        },
        !registry@.contains_key(event) ==> json(r.0).member(event.name()) is None,
        forall|key: Seq<char>| #[trigger]
            json(r.0).member(key) is Some ==> exists|e: HookEvent|
                registry@.contains_key(e) && key == #[trigger] e.name(),
{
    law_announced_events(registry@, event);
}

/// The announcement of each matcher has its pattern under `matcher` exactly where the
/// matcher has one, an identifier for each of its callbacks under `hookCallbackIds`, and
/// nothing else, for every event.
pub proof fn law_payload_matchers<C: ?Sized>(
    registry: &HookRegistry<C>,
    r: (Value, CallbackTable<C>),
    event: HookEvent,
    j: int,
)
    requires
        call_ensures(HookRegistry::<C>::build, (registry,), r),
        registry@.contains_key(event),
        0 <= j < registry@[event].len(),
    ensures
        ({
            let entry = (json(r.0).member(event.name())->0)->Array_0[j];
            &&& entry is Object
            &&& match registry@[event][j].matcher {
                Some(pattern) => entry.member("matcher"@) == Some(Json::Text(pattern)),
                None => entry.member("matcher"@) is None,
            }
            &&& entry.member("hookCallbackIds"@) is Some
            &&& entry.member("hookCallbackIds"@)->0 is Array
            &&& (entry.member("hookCallbackIds"@)->0)->Array_0.len()
                == registry@[event][j].callbacks.len()
            &&& forall|key: Seq<char>| #[trigger]
                entry.member(key) is Some ==> key == "matcher"@ || key == "hookCallbackIds"@
        }),
{
    reveal_strlit("matcher");
    reveal_strlit("hookCallbackIds");
    assert("matcher"@.len() == 7);
    assert("hookCallbackIds"@.len() == 15);
    law_announced_events(registry@, event);
}

/// The identifier announced for each callback is `hook_` with the number of the callback,
/// and asking the table for that identifier gives the callback.
pub proof fn law_payload_callbacks<C: ?Sized>(
    registry: &HookRegistry<C>,
    r: (Value, CallbackTable<C>),
    event: HookEvent,
    j: int,
    k: int,
    id: &str,
    routed: Option<&Arc<C>>,
)
    requires
        call_ensures(HookRegistry::<C>::build, (registry,), r),
        registry@.contains_key(event),
        0 <= j < registry@[event].len(),
        0 <= k < registry@[event][j].callbacks.len(),
        id@ == "hook_"@ + decimal(callback_number(registry@, event, j, k)),
        call_ensures(CallbackTable::<C>::get, (&r.1, id), routed),
    ensures
        ((json(r.0).member(event.name())->0)->Array_0[j].member(
            "hookCallbackIds"@,
        )->0)->Array_0[k] == Json::Text(id@),
        r.1@.contains_key(id@),
        r.1@[id@] == registry@[event][j].callbacks[k],
        routed is Some,
        *(routed->0) == registry@[event][j].callbacks[k],
{
    let n = callback_number(registry@, event, j, k);
    let rank = event.rank() as nat;
    law_payload_matchers(registry, r, event, j);
    law_announced_events(registry@, event);
    lemma_matcher_position(registry@[event], j, k);
    assert(HookEvent::at(rank as int) == event);
    assert(callbacks_before(registry@, rank + 1)[n as int] == registry@[event][j].callbacks[k]);
    lemma_callbacks_before_prefix(registry@, rank + 1, EVENT_COUNT as nat);
    lemma_routes(callback_order(registry@), n);
}

/// The numbers of the callbacks follow the order of the events, then that of the
/// registrations for an event, then that of the callbacks of a matcher.
pub proof fn law_numbers_follow_order<C: ?Sized>(
    registry: Map<HookEvent, Seq<HookMatcherView<C>>>,
    event: HookEvent,
    j: int,
    k: int,
    later: HookEvent,
    later_j: int,
    later_k: int,
)
    requires
        registry.contains_key(event),
        0 <= j < registry[event].len(),
        0 <= k < registry[event][j].callbacks.len(),
        registry.contains_key(later),
        0 <= later_j < registry[later].len(),
        0 <= later_k < registry[later][later_j].callbacks.len(),
        event.rank() < later.rank() || (event == later && (j < later_j || (j == later_j && k
            < later_k))),
    ensures
        callback_number(registry, event, j, k) < callback_number(
            registry,
            later,
            later_j,
            later_k,
        ),
{
    if event == later {
        if j < later_j {
            let matchers = registry[event].take(later_j);
            lemma_matcher_position(matchers, j, k);
            assert(matchers.take(j) =~= registry[event].take(j));
        }
    } else {
        let rank = event.rank() as nat;
        lemma_matcher_position(registry[event], j, k);
        assert(HookEvent::at(rank as int) == event);
        lemma_callbacks_before_prefix(registry, rank + 1, later.rank() as nat);
    }
}

/// The numbers of the callbacks are those from zero up to how many entries the table has,
/// and the table has an entry for each of these numbers and no other.
pub proof fn law_numbers_are_used_up<C: ?Sized>(
    registry: &HookRegistry<C>,
    r: (Value, CallbackTable<C>),
    n: nat,
    id: Seq<char>,
    size: usize,
)
    requires
        call_ensures(HookRegistry::<C>::build, (registry,), r),
        call_ensures(CallbackTable::<C>::len, (&r.1,), size),
    ensures
        n < size <==> exists|event: HookEvent, j: int, k: int|
            registry@.contains_key(event) && 0 <= j < registry@[event].len() && 0 <= k
                < registry@[event][j].callbacks.len() && n == #[trigger] callback_number(
                registry@,
                event,
                j,
                k,
            ),
        n < size ==> r.1@.contains_key("hook_"@ + decimal(n)),
        r.1@.contains_key(id) ==> exists|m: nat|
            m < size && id == "hook_"@ + #[trigger] decimal(m),
{
    law_table_size(registry@);
    let order = callback_order(registry@);
    if n < size {
        let (event, j, k) = lemma_locate_in_events(registry@, EVENT_COUNT as nat, n);
        assert(n == callback_number(registry@, event, j, k));
        lemma_routes(order, n);
    }
    if exists|event: HookEvent, j: int, k: int|
        registry@.contains_key(event) && 0 <= j < registry@[event].len() && 0 <= k
            < registry@[event][j].callbacks.len() && n == #[trigger] callback_number(
            registry@,
            event,
            j,
            k,
        ) {
        let (event, j, k) = choose|event: HookEvent, j: int, k: int|
            registry@.contains_key(event) && 0 <= j < registry@[event].len() && 0 <= k
                < registry@[event][j].callbacks.len() && n == #[trigger] callback_number(
                registry@,
                event,
                j,
                k,
            );
        let rank = event.rank() as nat;
        lemma_matcher_position(registry@[event], j, k);
        assert(HookEvent::at(rank as int) == event);
        lemma_callbacks_before_prefix(registry@, rank + 1, EVENT_COUNT as nat);
    }
    if r.1@.contains_key(id) {
        let m = choose|m: nat|
            m < order.len() && id == #[trigger] callback_id(m);
        assert(id == "hook_"@ + decimal(m));
    }
}

/// The table answers for an identifier exactly where it has an entry, with the callback
/// of the entry.
pub proof fn law_table_answers<C: ?Sized>(
    table: &CallbackTable<C>,
    id: &str,
    r: Option<&Arc<C>>,
    has: bool,
)
    requires
        call_ensures(CallbackTable::<C>::get, (table, id), r),
        call_ensures(CallbackTable::<C>::contains_key, (table, id), has),
    ensures
        has <==> table@.contains_key(id@),
        r is Some <==> has,
        has ==> *(r->0) == table@[id@],
{
}

} // verus!
