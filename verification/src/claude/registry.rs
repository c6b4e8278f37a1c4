//! The registry of hook callbacks.
//!
//! The agent command line calls back into the library at well-defined points of a turn
//! (before or after a tool runs, when the model stops, ...). A hook is a callback
//! registered against a [`HookEvent`] and an optional matcher, a tool-name pattern.
//! [`HookRegistry::build`] resolves the registered callbacks into the payload that
//! announces them to the command line and into the table that routes its
//! `hook_callback` requests back.
//!
//! The types that carry callbacks leave the callback's own type open: `C` is the
//! closure or trait object behind a shared pointer.

use crate::claude::hooks::{law_event_names_distinct, HookEvent, EVENT_COUNT};
use crate::json::{
    array, json, jsons, members, no_members, object, put_text, string, text_json, with_member,
    Json,
};
use crate::text::{converts, decimal, decimal_text, law_decimal_injective, text_view};
use serde_json::Value;
use std::collections::BTreeMap;
use std::sync::Arc;
use vstd::prelude::*;

verus! {

/// A set of hook callbacks gated by an optional tool-name matcher.
pub struct HookMatcher<C: ?Sized> {
    /// Tool-name pattern, as the command line understands it. `None` matches every
    /// tool and event.
    pub matcher: Option<String>,
    /// Callbacks invoked when the matcher fires.
    pub callbacks: Vec<Arc<C>>,
}

/// What a [`HookMatcher`] holds.
pub struct HookMatcherView<C: ?Sized> {
    pub matcher: Option<Seq<char>>,
    pub callbacks: Seq<Arc<C>>,
}

impl<C: ?Sized> View for HookMatcher<C> {
    type V = HookMatcherView<C>;

    open spec fn view(&self) -> HookMatcherView<C> {
        HookMatcherView { matcher: text_view(self.matcher), callbacks: self.callbacks@ }
    }
}

/// What each matcher of a sequence holds.
pub open spec fn matcher_views<C: ?Sized>(matchers: Seq<HookMatcher<C>>) -> Seq<
    HookMatcherView<C>,
> {
    Seq::new(matchers.len(), |i: int| matchers[i]@)
}

impl<C: ?Sized> Clone for HookMatcher<C> {
    fn clone(&self) -> (r: HookMatcher<C>)
        ensures
            r@ == self@,
    {
        let mut callbacks: Vec<Arc<C>> = Vec::new();
        let mut i: usize = 0;
        while i < self.callbacks.len()
            invariant
                i <= self.callbacks@.len(),
                callbacks@ == self.callbacks@.take(i as int),
            decreases self.callbacks@.len() - i,
        {
            callbacks.push(Arc::clone(&self.callbacks[i]));
            assert(self.callbacks@.take(i + 1) =~= self.callbacks@.take(i as int).push(
                self.callbacks@[i as int],
            ));
            i = i + 1;
        }
        assert(self.callbacks@.take(i as int) =~= self.callbacks@);
        HookMatcher { matcher: self.matcher.clone(), callbacks }
    }
}

impl<C: ?Sized> HookMatcher<C> {
    /// Match a specific tool name (or any pattern that the command line understands).
    pub fn new<T: Into<String>>(matcher: T, callbacks: Vec<Arc<C>>) -> (r: HookMatcher<C>)
        ensures
            r.matcher is Some,
            converts(matcher, r.matcher->0),
            r.callbacks == callbacks,
    {
        HookMatcher { matcher: Some(matcher.into()), callbacks }
    }

    /// Match every invocation of the event regardless of tool.
    pub fn any(callbacks: Vec<Arc<C>>) -> (r: HookMatcher<C>)
        ensures
            r.matcher is None,
            r.callbacks == callbacks,
    {
        HookMatcher { matcher: None, callbacks }
    }

    /// What stands for the callbacks in a printed matcher: how many there are.
    pub fn callbacks_summary(&self) -> (r: String)
        ensures
            r@ == "["@ + decimal(self.callbacks@.len()) + " callback(s)]"@,
    {
        let mut r = String::from("[");
        r.append(decimal_text(self.callbacks.len()).as_str());
        r.append(" callback(s)]");
        r
    }
}

/// Hook configuration: which matchers fire for which events.
///
/// The matchers stand under the rank of their event.
pub struct HookRegistry<C: ?Sized> {
    events: BTreeMap<u64, Vec<HookMatcher<C>>>,
}

impl<C: ?Sized> View for HookRegistry<C> {
    type V = Map<HookEvent, Seq<HookMatcherView<C>>>;

    closed spec fn view(&self) -> Map<HookEvent, Seq<HookMatcherView<C>>> {
        Map::new(
            |event: HookEvent| self.events@.contains_key(event.rank()),
            |event: HookEvent| matcher_views(self.events@[event.rank()]@),
        )
    }
}

/// The matchers registered for an event, in the order of their registration.
pub open spec fn registered<C: ?Sized>(
    registry: Map<HookEvent, Seq<HookMatcherView<C>>>,
    event: HookEvent,
) -> Seq<HookMatcherView<C>> {
    if registry.contains_key(event) {
        registry[event]
    } else {
        Seq::empty()
    }
}

/// The registry with one more matcher for an event.
pub open spec fn with_matcher<C: ?Sized>(
    registry: Map<HookEvent, Seq<HookMatcherView<C>>>,
    event: HookEvent,
    matcher: HookMatcherView<C>,
) -> Map<HookEvent, Seq<HookMatcherView<C>>> {
    registry.insert(event, registered(registry, event).push(matcher))
}

impl<C: ?Sized> Default for HookRegistry<C> {
    /// A registry without matchers.
    fn default() -> (r: HookRegistry<C>)
        ensures
            r@ == Map::<HookEvent, Seq<HookMatcherView<C>>>::empty(),
    {
        HookRegistry::new()
    }
}

impl<C: ?Sized> Clone for HookRegistry<C> {
    fn clone(&self) -> (r: HookRegistry<C>)
        ensures
            r@ == self@,
    {
        proof {
            use_type_invariant(self);
        }
        let r = HookRegistry { events: self.events.clone() };
        assert(r@ =~= self@);
        r
    }
}

impl<C: ?Sized> HookRegistry<C> {
    #[verifier::type_invariant]
    spec fn ranks_are_of_events(self) -> bool {
        forall|rank: u64| #[trigger] self.events@.contains_key(rank) ==> rank < EVENT_COUNT
    }

    /// A registry without matchers.
    pub fn new() -> (r: HookRegistry<C>)
        ensures
            r@ == Map::<HookEvent, Seq<HookMatcherView<C>>>::empty(),
    {
        HookRegistry { events: BTreeMap::new() }
    }

    /// Whether no matcher is registered for any event.
    pub fn is_empty(&self) -> (r: bool)
        ensures
            r == (self@ == Map::<HookEvent, Seq<HookMatcherView<C>>>::empty()),
    {
        proof {
            use_type_invariant(self);
        }
        let r = self.events.is_empty();
        proof {
            if r {
                assert(self@ =~= Map::<HookEvent, Seq<HookMatcherView<C>>>::empty());
            } else {
                let rank = choose|rank: u64| self.events@.contains_key(rank);
                assert(self.events@.contains_key(rank));
                assert(HookEvent::at(rank as int).rank() == rank);
                assert(self@.contains_key(HookEvent::at(rank as int)));
            }
        }
        r
    }

    /// The matchers registered for an event, where there are any.
    pub fn matchers(&self, event: HookEvent) -> (r: Option<&Vec<HookMatcher<C>>>)
        ensures
            match r {
                Some(matchers) => self@.contains_key(event) && self@[event] == matcher_views(
                    matchers@,
                ),
                None => !self@.contains_key(event),
            },
    {
        broadcast use vstd::std_specs::btree::group_btree_axioms;

        self.events.get(&event.event_rank())
    }

    /// Register a matcher for an event. Chainable.
    pub fn on(self, event: HookEvent, matcher: HookMatcher<C>) -> (r: HookRegistry<C>)
        ensures
            r@ == with_matcher(self@, event, matcher@),
    {
        broadcast use vstd::std_specs::btree::group_btree_axioms;

        proof {
            use_type_invariant(&self);
        }
        let mut events = self.events;
        let rank: u64 = event.event_rank();
        let mut matchers = match events.remove(&rank) {
            Some(matchers) => matchers,
            None => Vec::new(),
        };
        matchers.push(matcher);
        let _ = events.insert(rank, matchers);
        let r = HookRegistry { events };
        proof {
            assert(matcher_views(matchers@) =~= registered(self@, event).push(matcher@));
            assert(r@ =~= with_matcher(self@, event, matcher@));
        }
        r
    }
}

/// The identifier of the callback that is announced after `n` others.
pub open spec fn callback_id(n: nat) -> Seq<char> {
    "hook_"@ + decimal(n)
}

/// The callbacks of matchers, one matcher after the other.
pub open spec fn matcher_callbacks<C: ?Sized>(matchers: Seq<HookMatcherView<C>>) -> Seq<Arc<C>>
    decreases matchers.len(),
{
    if matchers.len() == 0 {
        Seq::empty()
    } else {
        matcher_callbacks(matchers.drop_last()) + matchers.last().callbacks
    }
}

/// The callbacks registered for the first `count` events, in the order of the events
/// and, for one event, of registration.
pub open spec fn callbacks_before<C: ?Sized>(
    registry: Map<HookEvent, Seq<HookMatcherView<C>>>,
    count: nat,
) -> Seq<Arc<C>>
    decreases count,
{
    if count == 0 {
        Seq::empty()
    } else {
        callbacks_before(registry, (count - 1) as nat) + matcher_callbacks(
            registered(registry, HookEvent::at(count - 1)),
        )
    }
}

/// All registered callbacks in the order in which they are announced.
pub open spec fn callback_order<C: ?Sized>(
    registry: Map<HookEvent, Seq<HookMatcherView<C>>>,
) -> Seq<Arc<C>> {
    callbacks_before(registry, EVENT_COUNT as nat)
}

/// The table that routes the identifier of each callback to the callback.
pub open spec fn routing_table<C: ?Sized>(order: Seq<Arc<C>>) -> Map<Seq<char>, Arc<C>> {
    Map::new(
        |id: Seq<char>| exists|n: nat| n < order.len() && id == #[trigger] callback_id(n),
        |id: Seq<char>|
            order[(choose|n: nat| n < order.len() && id == #[trigger] callback_id(n)) as int],
    )
}

/// The announcement of a matcher whose callbacks come after `first` others.
pub open spec fn matcher_entry<C: ?Sized>(matcher: HookMatcherView<C>, first: nat) -> Json {
    Json::Object(
        with_member(no_members(), "matcher"@, text_json(matcher.matcher)).insert(
            "hookCallbackIds"@,
            Json::Array(
                Seq::new(
                    matcher.callbacks.len(),
                    |k: int| Json::Text(callback_id((first + k) as nat)),
                ),
            ),
        ),
    )
}

/// The announcements of matchers whose callbacks come after `first` others.
pub open spec fn matcher_entries<C: ?Sized>(
    matchers: Seq<HookMatcherView<C>>,
    first: nat,
) -> Seq<Json> {
    Seq::new(
        matchers.len(),
        |j: int| matcher_entry(matchers[j], first + matcher_callbacks(matchers.take(j)).len()),
    )
}

/// The announcement of the callbacks that a registry holds for one event.
pub open spec fn event_entry<C: ?Sized>(
    registry: Map<HookEvent, Seq<HookMatcherView<C>>>,
    event: HookEvent,
) -> Json {
    Json::Array(
        matcher_entries(
            registered(registry, event),
            callbacks_before(registry, event.rank() as nat).len(),
        ),
    )
}

/// The payload that announces the callbacks of a registry: for each event with a
/// registration, the announcements of its matchers under its name.
pub open spec fn announcement<C: ?Sized>(
    registry: Map<HookEvent, Seq<HookMatcherView<C>>>,
) -> Json {
    Json::Object(
        Map::new(
            |key: Seq<char>|
                exists|event: HookEvent|
                    registry.contains_key(event) && key == #[trigger] event.name(),
            |key: Seq<char>|
                event_entry(
                    registry,
                    choose|event: HookEvent|
                        registry.contains_key(event) && key == #[trigger] event.name(),
                ),
        ),
    )
}

/// Different callbacks have different identifiers.
pub proof fn law_callback_ids_distinct(a: nat, b: nat)
    requires
        callback_id(a) == callback_id(b),
    ensures
        a == b,
{
    let prefix = "hook_"@.len() as int;
    assert(callback_id(a).skip(prefix) =~= decimal(a));
    assert(callback_id(b).skip(prefix) =~= decimal(b));
    law_decimal_injective(a, b);
}

/// There are as many different identifiers as a sequence without repetition has.
proof fn lemma_distinct_ids(ids: Seq<Seq<char>>, set: Set<Seq<char>>)
    requires
        ids.no_duplicates(),
        forall|id: Seq<char>| #[trigger] set.contains(id) <==> ids.contains(id),
    ensures
        set.finite(),
        set.len() == ids.len(),
{
    ids.unique_seq_to_set();
    assert(set =~= ids.to_set());
}

/// Callbacks under their identifiers.
pub struct CallbackTable<C: ?Sized> {
    entries: Vec<(String, Arc<C>)>,
}

impl<C: ?Sized> View for CallbackTable<C> {
    type V = Map<Seq<char>, Arc<C>>;

    closed spec fn view(&self) -> Map<Seq<char>, Arc<C>> {
        Map::new(
            |id: Seq<char>|
                exists|i: int|
                    0 <= i < self.entries@.len() && id == (#[trigger] self.entries@[i]).0@,
            |id: Seq<char>|
                self.entries@[choose|i: int|
                    0 <= i < self.entries@.len() && id == (#[trigger] self.entries@[i]).0@].1,
        )
    }
}

impl<C: ?Sized> CallbackTable<C> {
    #[verifier::type_invariant]
    spec fn ids_are_distinct(self) -> bool {
        forall|i: int, j: int|
            0 <= i < j < self.entries@.len() ==> (#[trigger] self.entries@[i]).0@ != (
            #[trigger] self.entries@[j]).0@
    }

    /// The number of callbacks.
    pub fn len(&self) -> (r: usize)
        ensures
            self@.dom().finite(),
            r == self@.dom().len(),
    {
        proof {
            use_type_invariant(self);
            let ids = Seq::new(self.entries@.len(), |i: int| self.entries@[i].0@);
            assert forall|id: Seq<char>| #[trigger]
                self@.dom().contains(id) <==> ids.contains(id) by {
                if self@.dom().contains(id) {
                    let i = choose|i: int|
                        0 <= i < self.entries@.len() && id == (#[trigger] self.entries@[i]).0@;
                    assert(ids[i] == id);
                }
                if ids.contains(id) {
                    let i = choose|i: int| 0 <= i < ids.len() && ids[i] == id;
                    assert(self.entries@[i].0@ == id);
                }
            }
            lemma_distinct_ids(ids, self@.dom());
        }
        self.entries.len()
    }

    /// The callback under an identifier.
    pub fn get(&self, id: &str) -> (r: Option<&Arc<C>>)
        ensures
            match r {
                Some(callback) => self@.contains_key(id@) && self@[id@] == *callback,
                None => !self@.contains_key(id@),
            },
    {
        proof {
            use_type_invariant(self);
        }
        let mut i: usize = 0;
        while i < self.entries.len()
            invariant
                i <= self.entries@.len(),
                self.ids_are_distinct(),
                forall|k: int| 0 <= k < i ==> (#[trigger] self.entries@[k]).0@ != id@,
            decreases self.entries@.len() - i,
        {
            if *self.entries[i].0.as_str() == *id {
                assert(self.entries@[i as int].0@ == id@);
                return Some(&self.entries[i].1);
            }
            i = i + 1;
        }
        None
    }

    /// Whether there is a callback under an identifier.
    pub fn contains_key(&self, id: &str) -> (r: bool)
        ensures
            r == self@.contains_key(id@),
    {
        self.get(id).is_some()
    }
}

/// Whether the entries stand under the identifiers that follow one another.
spec fn numbered<C: ?Sized>(entries: Seq<(String, Arc<C>)>) -> bool {
    forall|i: int|
        0 <= i < entries.len() ==> (#[trigger] entries[i]).0@ == callback_id(i as nat)
}

/// The callbacks of entries.
spec fn entry_callbacks<C: ?Sized>(entries: Seq<(String, Arc<C>)>) -> Seq<Arc<C>> {
    Seq::new(entries.len(), |i: int| entries[i].1)
}

/// Gives the callbacks of a matcher the next identifiers and announces them.
fn announce_matcher<C: ?Sized>(
    matcher: &HookMatcher<C>,
    entries: &mut Vec<(String, Arc<C>)>,
) -> (r: Value)
    requires
        numbered(old(entries)@),
    ensures
        numbered(final(entries)@),
        entry_callbacks(final(entries)@) == entry_callbacks(old(entries)@)
            + matcher@.callbacks,
        json(r) == matcher_entry(matcher@, old(entries)@.len()),
{
    let ghost first = entries@.len();
    let mut callback_ids: Vec<Value> = Vec::new();
    let mut k: usize = 0;
    while k < matcher.callbacks.len()
        invariant
            k <= matcher.callbacks@.len(),
            numbered(entries@),
            entry_callbacks(entries@) == entry_callbacks(old(entries)@)
                + matcher.callbacks@.take(k as int),
            first == old(entries)@.len(),
            entries@.len() == first + k,
            jsons(callback_ids@) == Seq::new(
                k as nat,
                |n: int| Json::Text(callback_id((first + n) as nat)),
            ),
        decreases matcher.callbacks@.len() - k,
    {
        let mut id = String::from("hook_");
        id.append(decimal_text(entries.len()).as_str());
        let ghost earlier = entries@;
        let ghost earlier_ids = callback_ids@;
        entries.push((id.clone(), Arc::clone(&matcher.callbacks[k])));
        callback_ids.push(string(id));
        proof {
            assert(id@ == callback_id((first + k) as nat));
            assert(jsons(callback_ids@) =~= jsons(earlier_ids).push(
                Json::Text(callback_id((first + k) as nat)),
            ));
            assert(entry_callbacks(entries@) =~= entry_callbacks(earlier).push(
                matcher.callbacks@[k as int],
            ));
            assert(matcher.callbacks@.take(k + 1) =~= matcher.callbacks@.take(k as int).push(
                matcher.callbacks@[k as int],
            ));
        }
        k = k + 1;
    }
    assert(matcher.callbacks@.take(k as int) =~= matcher.callbacks@);
    let mut entry = serde_json::Map::new();
    put_text(&mut entry, "matcher", &matcher.matcher);
    let _ = entry.insert(String::from("hookCallbackIds"), array(callback_ids));
    object(entry)
}

/// Gives the callbacks of the matchers of an event the next identifiers and announces
/// them.
fn announce_event<C: ?Sized>(
    matchers: &Vec<HookMatcher<C>>,
    entries: &mut Vec<(String, Arc<C>)>,
) -> (r: Value)
    requires
        numbered(old(entries)@),
    ensures
        numbered(final(entries)@),
        entry_callbacks(final(entries)@) == entry_callbacks(old(entries)@)
            + matcher_callbacks(matcher_views(matchers@)),
        json(r) == Json::Array(
            matcher_entries(matcher_views(matchers@), old(entries)@.len()),
        ),
{
    let ghost views = matcher_views(matchers@);
    let ghost first = entries@.len();
    let mut announced: Vec<Value> = Vec::new();
    let mut j: usize = 0;
    assert(views.take(0) =~= Seq::empty());
    while j < matchers.len()
        invariant
            j <= matchers@.len(),
            numbered(entries@),
            views == matcher_views(matchers@),
            first == old(entries)@.len(),
            entry_callbacks(entries@) == entry_callbacks(old(entries)@)
                + matcher_callbacks(views.take(j as int)),
            announced@.len() == j,
            forall|i: int|
                0 <= i < j ==> json(#[trigger] announced@[i]) == matcher_entry(
                    views[i],
                    first + matcher_callbacks(views.take(i)).len(),
                ),
        decreases matchers@.len() - j,
    {
        assert(entries@.len() == entry_callbacks(entries@).len());
        assert(entries@.len() == first + matcher_callbacks(views.take(j as int)).len());
        let entry = announce_matcher(&matchers[j], entries);
        announced.push(entry);
        proof {
            assert(views.take(j + 1).drop_last() =~= views.take(j as int));
            assert(views.take(j + 1).last() == matchers@[j as int]@);
        }
        j = j + 1;
    }
    assert(views.take(j as int) =~= views);
    assert(jsons(announced@) =~= matcher_entries(views, first));
    array(announced)
}

impl<C: ?Sized> HookRegistry<C> {
    /// Resolve the registry into the payload that announces its callbacks and the table
    /// that routes `hook_callback` requests to them. Identifiers are assigned in the
    /// order of events and, for one event, of registration (`hook_0`, ...).
    pub fn build(&self) -> (r: (Value, CallbackTable<C>))
        ensures
            json(r.0) == announcement(self@),
            r.1@ == routing_table(callback_order(self@)),
    {
        broadcast use vstd::std_specs::btree::group_btree_axioms;

        let mut entries: Vec<(String, Arc<C>)> = Vec::new();
        let mut config = serde_json::Map::new();
        let mut rank: u64 = 0;
        assert(entry_callbacks(entries@) =~= Seq::empty());
        while rank < EVENT_COUNT
            invariant
                rank <= EVENT_COUNT,
                numbered(entries@),
                entry_callbacks(entries@) == callbacks_before(self@, rank as nat),
                forall|event: HookEvent|
                    self@.contains_key(event) && event.rank() < rank ==> members(
                        config,
                    ).contains_key(#[trigger] event.name()) && members(config)[event.name()]
                        == event_entry(self@, event),
                forall|key: Seq<char>| #[trigger]
                    members(config).contains_key(key) ==> exists|event: HookEvent|
                        self@.contains_key(event) && key == #[trigger] event.name(),
            decreases EVENT_COUNT - rank,
        {
            let event = HookEvent::event_at(rank);
            assert(entries@.len() == entry_callbacks(entries@).len());
            if let Some(matchers) = self.events.get(&rank) {
                assert(self@.contains_key(event));
                assert(registered(self@, event) == matcher_views(matchers@));
                let entry = announce_event(matchers, &mut entries);
                let _ = config.insert(String::from(event.as_str()), entry);
                proof {
                    assert forall|other: HookEvent|
                        self@.contains_key(other) && other.rank() < rank + 1 implies members(
                        config,
                    ).contains_key(#[trigger] other.name()) && members(config)[other.name()]
                        == event_entry(self@, other) by {
                        if other.name() == event.name() {
                            law_event_names_distinct(other, event);
                        }
                    }
                }
            } else {
                assert(!self@.contains_key(event));
                assert(matcher_callbacks(registered(self@, event)) =~= Seq::empty());
                assert(callbacks_before(self@, (rank + 1) as nat) =~= callbacks_before(
                    self@,
                    rank as nat,
                ));
            }
            rank = rank + 1;
        }
        proof {
            let announced = announcement(self@)->Object_0;
            assert forall|key: Seq<char>| #[trigger] announced.contains_key(key) implies members(
                config,
            ).contains_key(key) && members(config)[key] == announced[key] by {
                let event = choose|event: HookEvent|
                    self@.contains_key(event) && key == #[trigger] event.name();
                assert(event.rank() < EVENT_COUNT);
                assert(members(config).contains_key(event.name()));
            }
            assert(members(config) =~= announced);
        }
        let callbacks = CallbackTable::numbered_table(entries);
        (object(config), callbacks)
    }
}

impl<C: ?Sized> CallbackTable<C> {
    /// The table of entries that stand under the identifiers that follow one another.
    fn numbered_table(entries: Vec<(String, Arc<C>)>) -> (r: CallbackTable<C>)
        requires
            numbered(entries@),
        ensures
            r@ == routing_table(entry_callbacks(entries@)),
    {
        proof {
            assert forall|i: int, j: int| 0 <= i < j < entries@.len() implies (
            #[trigger] entries@[i]).0@ != (#[trigger] entries@[j]).0@ by {
                if entries@[i].0@ == entries@[j].0@ {
                    law_callback_ids_distinct(i as nat, j as nat);
                }
            }
        }
        let r = CallbackTable { entries };
        proof {
            let table = routing_table(entry_callbacks(entries@));
            assert forall|id: Seq<char>| #[trigger] r@.contains_key(id) implies table.contains_key(
                id,
            ) && table[id] == r@[id] by {
                let i = choose|i: int|
                    0 <= i < entries@.len() && id == (#[trigger] entries@[i]).0@;
                assert(id == callback_id(i as nat));
                let n = choose|n: nat|
                    n < entries@.len() && id == #[trigger] callback_id(n);
                law_callback_ids_distinct(i as nat, n);
            }
            assert forall|id: Seq<char>| #[trigger] table.contains_key(id) implies r@.contains_key(
                id,
            ) by {
                let n = choose|n: nat|
                    n < entries@.len() && id == #[trigger] callback_id(n);
                assert(entries@[n as int].0@ == id);
            }
            assert(r@ =~= table);
        }
        r
    }
}

/// The number of the callback at `k` of the matcher at `j` that a registry holds for
/// an event: how many callbacks are announced before it.
pub open spec fn callback_number<C: ?Sized>(
    registry: Map<HookEvent, Seq<HookMatcherView<C>>>,
    event: HookEvent,
    j: int,
    k: int,
) -> nat {
    (callbacks_before(registry, event.rank() as nat).len() + matcher_callbacks(
        registered(registry, event).take(j),
    ).len() + k) as nat
}

/// The identifier that a payload announces, under the name of an event, for the callback
/// at `k` of the matcher at `j`.
pub open spec fn announced_id(payload: Json, event: HookEvent, j: int, k: int) -> Option<
    Seq<char>,
> {
    match payload.member(event.name()) {
        Some(Json::Array(entries)) => if 0 <= j < entries.len() {
            match entries[j].member("hookCallbackIds"@) {
                Some(Json::Array(ids)) => if 0 <= k < ids.len() {
                    ids[k].text()
                } else {
                    None
                },
                _ => None,
            }
        } else {
            None
        },
        _ => None,
    }
}

/// Whether a registry holds a callback at `k` of the matcher at `j` for an event.
pub open spec fn has_callback<C: ?Sized>(
    registry: Map<HookEvent, Seq<HookMatcherView<C>>>,
    event: HookEvent,
    j: int,
    k: int,
) -> bool {
    &&& registry.contains_key(event)
    &&& 0 <= j < registry[event].len()
    &&& 0 <= k < registry[event][j].callbacks.len()
}

/// A routing table routes the identifier of each number to the callback of that number.
pub(crate) proof fn lemma_routes<C: ?Sized>(order: Seq<Arc<C>>, n: nat)
    requires
        n < order.len(),
    ensures
        routing_table(order).contains_key(callback_id(n)),
        routing_table(order)[callback_id(n)] == order[n as int],
{
    let id = callback_id(n);
    assert(exists|m: nat| m < order.len() && id == #[trigger] callback_id(m));
    let m = choose|m: nat| m < order.len() && id == #[trigger] callback_id(m);
    law_callback_ids_distinct(n, m);
}

/// The callbacks of fewer events are the first of the callbacks of more events.
pub(crate) proof fn lemma_callbacks_before_prefix<C: ?Sized>(
    registry: Map<HookEvent, Seq<HookMatcherView<C>>>,
    few: nat,
    many: nat,
)
    requires
        few <= many,
    ensures
        callbacks_before(registry, few).len() <= callbacks_before(registry, many).len(),
        forall|i: int|
            0 <= i < callbacks_before(registry, few).len() ==> callbacks_before(registry, few)[i]
                == callbacks_before(registry, many)[i],
    decreases many,
{
    if few < many {
        lemma_callbacks_before_prefix(registry, few, (many - 1) as nat);
    }
}

/// Where the callbacks of a matcher stand among those of the matchers.
pub(crate) proof fn lemma_matcher_position<C: ?Sized>(
    matchers: Seq<HookMatcherView<C>>,
    j: int,
    k: int,
)
    requires
        0 <= j < matchers.len(),
        0 <= k < matchers[j].callbacks.len(),
    ensures
        matcher_callbacks(matchers.take(j)).len() + k < matcher_callbacks(matchers).len(),
        matcher_callbacks(matchers)[matcher_callbacks(matchers.take(j)).len() + k]
            == matchers[j].callbacks[k],
    decreases matchers.len(),
{
    if j == matchers.len() - 1 {
        assert(matchers.take(j) =~= matchers.drop_last());
    } else {
        lemma_matcher_position(matchers.drop_last(), j, k);
        assert(matchers.drop_last().take(j) =~= matchers.take(j));
    }
}

/// Each of the callbacks of the matchers is one of a matcher.
proof fn lemma_locate_in_matchers<C: ?Sized>(matchers: Seq<HookMatcherView<C>>, n: nat) -> (r: (
    int,
    int,
))
    requires
        n < matcher_callbacks(matchers).len(),
    ensures
        0 <= r.0 < matchers.len(),
        0 <= r.1 < matchers[r.0].callbacks.len(),
        n == matcher_callbacks(matchers.take(r.0)).len() + r.1,
    decreases matchers.len(),
{
    let before = matcher_callbacks(matchers.drop_last()).len();
    if n < before {
        let r = lemma_locate_in_matchers(matchers.drop_last(), n);
        assert(matchers.drop_last().take(r.0) =~= matchers.take(r.0));
        r
    } else {
        let j = matchers.len() - 1;
        assert(matchers.take(j) =~= matchers.drop_last());
        (j, n - before)
    }
}

/// Each of the callbacks of the first events is one of a matcher of an event.
pub(crate) proof fn lemma_locate_in_events<C: ?Sized>(
    registry: Map<HookEvent, Seq<HookMatcherView<C>>>,
    count: nat,
    n: nat,
) -> (r: (HookEvent, int, int))
    requires
        count <= EVENT_COUNT,
        n < callbacks_before(registry, count).len(),
    ensures
        has_callback(registry, r.0, r.1, r.2),
        n == callback_number(registry, r.0, r.1, r.2),
    decreases count,
{
    let before = callbacks_before(registry, (count - 1) as nat).len();
    if n < before {
        lemma_locate_in_events(registry, (count - 1) as nat, n)
    } else {
        let event = HookEvent::at(count - 1);
        assert(event.rank() == count - 1);
        let (j, k) = lemma_locate_in_matchers(registered(registry, event), (n - before) as nat);
        (event, j, k)
    }
}

/// The payload announces, for each callback, the identifier of its number.
proof fn lemma_announced_id<C: ?Sized>(
    registry: Map<HookEvent, Seq<HookMatcherView<C>>>,
    event: HookEvent,
    j: int,
    k: int,
)
    requires
        has_callback(registry, event, j, k),
    ensures
        announced_id(announcement(registry), event, j, k) == Some(
            callback_id(callback_number(registry, event, j, k)),
        ),
{
    law_announced_events(registry, event);
    let entry = matcher_entry(
        registry[event][j],
        callbacks_before(registry, event.rank() as nat).len() + matcher_callbacks(
            registry[event].take(j),
        ).len(),
    );
    assert(event_entry(registry, event)->Array_0[j] == entry);
    assert(entry.member("hookCallbackIds"@) is Some);
}

/// The payload has an entry for an event exactly when a matcher was registered for the
/// event, and the entry announces its matchers.
pub proof fn law_announced_events<C: ?Sized>(
    registry: Map<HookEvent, Seq<HookMatcherView<C>>>,
    event: HookEvent,
)
    ensures
        announcement(registry).member(event.name()) == (if registry.contains_key(event) {
            Some(event_entry(registry, event))
        } else {
            None
        }),
{
    let key = event.name();
    if announcement(registry).member(key) is Some || registry.contains_key(event) {
        assert(exists|e: HookEvent| registry.contains_key(e) && key == #[trigger] e.name());
        let other = choose|e: HookEvent| registry.contains_key(e) && key == #[trigger] e.name();
        law_event_names_distinct(event, other);
    }
}

/// The announcement of a matcher has its pattern exactly where it has one.
pub proof fn law_announced_pattern<C: ?Sized>(matcher: HookMatcherView<C>, first: nat)
    ensures
        matcher_entry(matcher, first).member("matcher"@) == text_json(matcher.matcher),
{
    reveal_strlit("matcher");
    reveal_strlit("hookCallbackIds");
    assert("matcher"@.len() == 7);
    assert("hookCallbackIds"@.len() == 15);
}

/// Every callback is announced under an identifier that routes back to it.
pub proof fn law_announced_callbacks_are_routed<C: ?Sized>(
    registry: Map<HookEvent, Seq<HookMatcherView<C>>>,
    event: HookEvent,
    j: int,
    k: int,
)
    requires
        has_callback(registry, event, j, k),
    ensures
        match announced_id(announcement(registry), event, j, k) {
            Some(id) => routing_table(callback_order(registry)).contains_key(id)
                && routing_table(callback_order(registry))[id]
                == registry[event][j].callbacks[k],
            None => false,
        },
{
    let n = callback_number(registry, event, j, k);
    let rank = event.rank() as nat;
    lemma_announced_id(registry, event, j, k);
    lemma_matcher_position(registry[event], j, k);
    assert(HookEvent::at(rank as int) == event);
    assert(callbacks_before(registry, rank + 1)[n as int] == registry[event][j].callbacks[k]);
    lemma_callbacks_before_prefix(registry, rank + 1, EVENT_COUNT as nat);
    lemma_routes(callback_order(registry), n);
}

/// Every identifier that is routed is announced for a callback of the registry.
pub proof fn law_routed_ids_are_announced<C: ?Sized>(
    registry: Map<HookEvent, Seq<HookMatcherView<C>>>,
    id: Seq<char>,
)
    requires
        routing_table(callback_order(registry)).contains_key(id),
    ensures
        exists|event: HookEvent, j: int, k: int|
            has_callback(registry, event, j, k) && #[trigger] announced_id(
                announcement(registry),
                event,
                j,
                k,
            ) == Some(id),
{
    let n = choose|n: nat| n < callback_order(registry).len() && id == #[trigger] callback_id(n);
    let (event, j, k) = lemma_locate_in_events(registry, EVENT_COUNT as nat, n);
    lemma_announced_id(registry, event, j, k);
}

/// No two callbacks share an identifier: the table has as many entries as there are
/// callbacks.
pub proof fn law_table_size<C: ?Sized>(registry: Map<HookEvent, Seq<HookMatcherView<C>>>)
    ensures
        routing_table(callback_order(registry)).dom().finite(),
        routing_table(callback_order(registry)).dom().len() == callback_order(registry).len(),
{
    let order = callback_order(registry);
    let ids = Seq::new(order.len(), |i: int| callback_id(i as nat));
    assert forall|i: int, j: int| 0 <= i < j < ids.len() implies ids[i] != ids[j] by {
        if ids[i] == ids[j] {
            law_callback_ids_distinct(i as nat, j as nat);
        }
    }
    let ids_of_table = routing_table(order).dom();
    assert forall|id: Seq<char>| #[trigger] ids_of_table.contains(id) <==> ids.contains(id) by {
        if ids_of_table.contains(id) {
            let n = choose|n: nat| n < order.len() && id == #[trigger] callback_id(n);
            assert(ids[n as int] == id);
        }
        if ids.contains(id) {
            let i = choose|i: int| 0 <= i < ids.len() && ids[i] == id;
            assert(id == callback_id(i as nat));
        }
    }
    lemma_distinct_ids(ids, ids_of_table);
}

/// A registration appends to the matchers of its event and leaves those of the others.
pub proof fn law_registration_appends<C: ?Sized>(
    registry: Map<HookEvent, Seq<HookMatcherView<C>>>,
    event: HookEvent,
    matcher: HookMatcherView<C>,
    other: HookEvent,
)
    ensures
        registered(with_matcher(registry, event, matcher), event) == registered(
            registry,
            event,
        ).push(matcher),
        other != event ==> registered(with_matcher(registry, event, matcher), other) == registered(
            registry,
            other,
        ),
        with_matcher(registry, event, matcher) != Map::<
            HookEvent,
            Seq<HookMatcherView<C>>,
        >::empty(),
{
    assert(with_matcher(registry, event, matcher).contains_key(event));
}

/// Registrations for different events can be made in either order: the registry, and
/// with it the payload and every identifier, is the same.
pub proof fn law_registration_order_across_events<C: ?Sized>(
    registry: Map<HookEvent, Seq<HookMatcherView<C>>>,
    a: HookEvent,
    for_a: HookMatcherView<C>,
    b: HookEvent,
    for_b: HookMatcherView<C>,
)
    requires
        a != b,
    ensures
        ({
            let a_first = with_matcher(with_matcher(registry, a, for_a), b, for_b);
            let b_first = with_matcher(with_matcher(registry, b, for_b), a, for_a);
            &&& a_first == b_first
            &&& announcement(a_first) == announcement(b_first)
            &&& routing_table(callback_order(a_first)) == routing_table(callback_order(b_first))
        }),
{
    assert(with_matcher(with_matcher(registry, a, for_a), b, for_b) =~= with_matcher(
        with_matcher(registry, b, for_b),
        a,
        for_a,
    ));
}

/// An empty registry announces nothing and routes nothing.
pub proof fn law_empty_registry<C: ?Sized>()
    ensures
        announcement(Map::<HookEvent, Seq<HookMatcherView<C>>>::empty()) == Json::Object(
            no_members(),
        ),
        callback_order(Map::<HookEvent, Seq<HookMatcherView<C>>>::empty()).len() == 0,
{
    let registry = Map::<HookEvent, Seq<HookMatcherView<C>>>::empty();
    assert(announcement(registry)->Object_0 =~= no_members());
    if callback_order(registry).len() > 0 {
        let located = lemma_locate_in_events(registry, EVENT_COUNT as nat, 0);
    }
}

/// Resolving a registry twice gives the same payload and the same table: the identifiers
/// start anew each time and route to the same callbacks.
pub proof fn law_build_repeats<C: ?Sized>(
    registry: &HookRegistry<C>,
    first: (Value, CallbackTable<C>),
    second: (Value, CallbackTable<C>),
)
    requires
        call_ensures(HookRegistry::<C>::build, (registry,), first),
        call_ensures(HookRegistry::<C>::build, (registry,), second),
    ensures
        json(first.0) == json(second.0),
        first.1@ == second.1@,
        callback_order(registry@).len() > 0 ==> first.1@.contains_key(callback_id(0))
            && first.1@[callback_id(0)] == callback_order(registry@)[0],
{
    if callback_order(registry@).len() > 0 {
        lemma_routes(callback_order(registry@), 0);
    }
}

/// The registry that is made by registrations, one after the other.
pub open spec fn registry_of<C: ?Sized>(
    registrations: Seq<(HookEvent, HookMatcherView<C>)>,
) -> Map<HookEvent, Seq<HookMatcherView<C>>>
    decreases registrations.len(),
{
    if registrations.len() == 0 {
        Map::empty()
    } else {
        with_matcher(
            registry_of(registrations.drop_last()),
            registrations.last().0,
            registrations.last().1,
        )
    }
}

/// A registry is empty exactly when nothing was registered; a matcher without callbacks
/// counts.
pub proof fn law_empty_until_registration<C: ?Sized>(
    registrations: Seq<(HookEvent, HookMatcherView<C>)>,
)
    ensures
        registry_of(registrations) == Map::<HookEvent, Seq<HookMatcherView<C>>>::empty()
            <==> registrations.len() == 0,
{
    if registrations.len() > 0 {
        assert(registry_of(registrations).contains_key(registrations.last().0));
    }
}

} // verus!
