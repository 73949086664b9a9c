//! Flux: the path-based state engine — a state store, change
//! subscriptions, and request handlers routed by topic pattern.
//!
//! The engine decides; running the handlers and notifying subscribers is
//! left to the caller: `route` names the handlers a request goes to and
//! `StateStore::set_bytes` names the subscriptions a change goes to.
use vstd::prelude::*;
use crate::listing::{is_listing_of, sorted_texts};
use crate::store::{children_of, pair_views, string_views, without, StateStore, SubscriptionId};
use crate::text::{chars_of, split_chars, split_on, views_of};
use crate::topic::{topic_matches, TopicPattern};

verus! {

/// The positions, in registration order, of the handler patterns that
/// match `path`.
pub open spec fn matching_handlers(patterns: Seq<Seq<char>>, path: Seq<char>) -> Seq<int>
    decreases patterns.len(),
{
    if patterns.len() == 0 {
        Seq::empty()
    } else {
        let r = matching_handlers(patterns.drop_last(), path);
        if topic_matches(patterns.last(), path) {
            r.push(patterns.len() - 1)
        } else {
            r
        }
    }
}

/// Whether some handler pattern matches `path`.
pub open spec fn any_handler_matches(patterns: Seq<Seq<char>>, path: Seq<char>) -> bool {
    exists|i: int| 0 <= i < patterns.len() && topic_matches(#[trigger] patterns[i], path)
}

/// The numbers of a vector of positions.
pub open spec fn positions(v: Seq<usize>) -> Seq<int> {
    v.map_values(|x: usize| x as int)
}

/// The state engine: a store plus the patterns of the registered request
/// handlers, in registration order.
pub struct Flux {
    store: StateStore,
    handlers: Vec<TopicPattern>,
}

impl Flux {
    /// The engine's state store.
    pub closed spec fn state(&self) -> StateStore {
        self.store
    }

    /// The patterns of the registered handlers, oldest first.
    pub closed spec fn handler_patterns(&self) -> Seq<Seq<char>> {
        self.handlers@.map_values(|p: TopicPattern| p.text@)
    }

    /// Well-formedness of the store and of every handler pattern.
    pub closed spec fn wf(&self) -> bool {
        &&& self.store.wf()
        &&& forall|i: int| 0 <= i < self.handlers@.len() ==> (#[trigger] self.handlers@[i]).wf()
    }

    /// An engine with empty state, no subscriptions and no handlers.
    pub fn new() -> (f: Self)
        ensures
            f.wf(),
            f.state()@ == Map::<Seq<char>, Seq<u8>>::empty(),
            f.state().subscribers() == Seq::<(u64, Seq<char>)>::empty(),
            f.state().next_id() == 1,
            f.handler_patterns() == Seq::<Seq<char>>::empty(),
    {
        let f = Flux { store: StateStore::new(), handlers: Vec::new() };
        assert(f.handler_patterns() =~= Seq::<Seq<char>>::empty());
        f
    }

    /// The stored value at `path`, if any.
    pub fn get(&self, path: &str) -> (r: Option<Vec<u8>>)
        requires
            self.wf(),
        ensures
            r is Some == self.state()@.contains_key(path@),
            r matches Some(v) ==> v@ == self.state()@[path@],
    {
        self.store.get(path)
    }

    /// The entries below `prefix`, in ascending path order.
    pub fn scan(&self, prefix: &str) -> (r: Vec<(String, Vec<u8>)>)
        requires
            self.wf(),
        ensures
            is_listing_of(pair_views(r@), children_of(self.state()@, prefix@)),
    {
        self.store.scan(prefix)
    }

    /// Whether a value is stored at `path`.
    pub fn contains(&self, path: &str) -> (r: bool)
        requires
            self.wf(),
        ensures
            r == self.state()@.contains_key(path@),
    {
        self.store.contains(path)
    }

    /// The number of stored paths.
    pub fn len(&self) -> (r: usize)
        requires
            self.wf(),
        ensures
            r == self.state()@.len(),
    {
        self.store.len()
    }

    /// Whether no path is stored.
    pub fn is_empty(&self) -> (r: bool)
        requires
            self.wf(),
        ensures
            r == (self.state()@.len() == 0),
    {
        self.store.is_empty()
    }

    /// All stored entries in ascending path order.
    pub fn snapshot(&self) -> (r: Vec<(String, Vec<u8>)>)
        requires
            self.wf(),
        ensures
            is_listing_of(pair_views(r@), self.state()@),
    {
        self.store.snapshot()
    }

    /// Registers a request handler for `pattern`; it receives every request
    /// whose path the pattern matches.
    pub fn on(&mut self, pattern: &str)
        requires
            old(self).wf(),
        ensures
            final(self).wf(),
            final(self).state() == old(self).state(),
            final(self).handler_patterns() == old(self).handler_patterns().push(pattern@),
    {
        let p = TopicPattern::parse(pattern);
        self.handlers.push(p);
        assert(self.handler_patterns() =~= old(self).handler_patterns().push(pattern@));
    }

    /// The positions, in registration order, of the handlers a request to
    /// `path` is dispatched to.
    pub fn route(&self, path: &str) -> (r: Vec<usize>)
        requires
            self.wf(),
        ensures
            positions(r@) == matching_handlers(self.handler_patterns(), path@),
    {
        let chars = chars_of(path);
        let levels = split_chars(&chars, '/');
        let ghost pats = self.handler_patterns();
        let mut r: Vec<usize> = Vec::new();
        let mut i: usize = 0;
        assert(pats.take(0) =~= Seq::<Seq<char>>::empty());
        assert(positions(r@) =~= Seq::<int>::empty());
        while i < self.handlers.len()
            invariant
                self.wf(),
                pats == self.handler_patterns(),
                i <= self.handlers@.len(),
                views_of(levels@) == split_on(path@, '/'),
                positions(r@) == matching_handlers(pats.take(i as int), path@),
            decreases self.handlers@.len() - i,
        {
            assert(pats.take(i as int + 1).drop_last() =~= pats.take(i as int));
            assert(pats.take(i as int + 1).last() == pats[i as int]);
            assert(self.handlers@[i as int].wf());
            if self.handlers[i].matches_levels(&levels) {
                let ghost before = r@;
                r.push(i);
                assert(positions(r@) =~= positions(before).push(i as int));
            }
            i = i + 1;
        }
        assert(pats.take(i as int) =~= pats);
        r
    }

    /// Whether any registered handler would receive a request to `path`.
    pub fn has_handler(&self, path: &str) -> (r: bool)
        requires
            self.wf(),
        ensures
            r == any_handler_matches(self.handler_patterns(), path@),
    {
        let targets = self.route(path);
        proof {
            lemma_matching_handlers_exact(self.handler_patterns(), path@);
        }
        if targets.len() > 0 {
            assert(positions(targets@)[0] == targets@[0] as int);
            true
        } else {
            false
        }
    }

    /// Subscribes to changes of the paths `pattern` matches.
    pub fn subscribe(&mut self, pattern: &str) -> (id: SubscriptionId)
        requires
            old(self).wf(),
            old(self).state().next_id() < u64::MAX,
        ensures
            final(self).wf(),
            final(self).handler_patterns() == old(self).handler_patterns(),
            final(self).state()@ == old(self).state()@,
            id.0 == old(self).state().next_id(),
            id.0 >= 1,
            final(self).state().next_id() == old(self).state().next_id() + 1,
            final(self).state().subscribers() == old(self).state().subscribers().push(
                (id.0, pattern@),
            ),
    {
        self.store.subscribe(pattern)
    }

    /// Removes the subscription `id` registered for `pattern`.
    pub fn unsubscribe(&mut self, pattern: &str, id: SubscriptionId)
        requires
            old(self).wf(),
        ensures
            final(self).wf(),
            final(self).handler_patterns() == old(self).handler_patterns(),
            final(self).state()@ == old(self).state()@,
            final(self).state().next_id() == old(self).state().next_id(),
            final(self).state().subscribers() == without(
                old(self).state().subscribers(),
                id.0,
                pattern@,
            ),
    {
        self.store.unsubscribe(pattern, id)
    }

    /// The engine's state store.
    pub fn store(&self) -> (r: &StateStore)
        requires
            self.wf(),
        ensures
            *r == self.state(),
            r.wf(),
    {
        &self.store
    }

    /// The engine's state store, for handlers that change state.
    pub fn store_mut(&mut self) -> (r: &mut StateStore)
        requires
            old(self).wf(),
        ensures
            *r == old(self).state(),
            r.wf(),
            final(self).handler_patterns() == old(self).handler_patterns(),
            final(self).state() == *final(r),
            final(r).wf() ==> final(self).wf(),
    {
        &mut self.store
    }
}

impl Default for Flux {
    /// An engine with empty state, no subscriptions and no handlers.
    fn default() -> (f: Self)
        ensures
            f.wf(),
            f.state()@ == Map::<Seq<char>, Seq<u8>>::empty(),
            f.state().subscribers() == Seq::<(u64, Seq<char>)>::empty(),
            f.handler_patterns() == Seq::<Seq<char>>::empty(),
    {
        Flux::new()
    }
}

/// The positions `matching_handlers` yields are exactly the matching
/// patterns' positions, ascending.
proof fn lemma_matching_handlers_exact(patterns: Seq<Seq<char>>, path: Seq<char>)
    ensures
        forall|i: int|
            0 <= i < matching_handlers(patterns, path).len() ==> 0
                <= #[trigger] matching_handlers(patterns, path)[i] < patterns.len()
                && topic_matches(patterns[matching_handlers(patterns, path)[i]], path),
        forall|j: int|
            0 <= j < patterns.len() && topic_matches(#[trigger] patterns[j], path)
                ==> matching_handlers(patterns, path).contains(j),
    decreases patterns.len(),
{
    if patterns.len() > 0 {
        let t = patterns.drop_last();
        lemma_matching_handlers_exact(t, path);
        let m = matching_handlers(patterns, path);
        let mt = matching_handlers(t, path);
        if topic_matches(patterns.last(), path) {
            assert(m == mt.push(patterns.len() - 1));
        } else {
            assert(m == mt);
        }
        assert forall|i: int| 0 <= i < m.len() implies 0 <= #[trigger] m[i] < patterns.len()
            && topic_matches(patterns[m[i]], path) by {
            if i < mt.len() {
                assert(m[i] == mt[i]);
                assert(patterns[mt[i]] == t[mt[i]]);
            } else {
                assert(patterns[patterns.len() - 1] == patterns.last());
            }
        }
        assert forall|j: int| 0 <= j < patterns.len() && topic_matches(#[trigger] patterns[j], path)
            implies m.contains(j) by {
            if j < patterns.len() - 1 {
                assert(t[j] == patterns[j]);
                let k = choose|k: int| 0 <= k < mt.len() && mt[k] == j;
                assert(m[k] == mt[k]);
            } else {
                assert(patterns[j] == patterns.last());
                assert(m[m.len() - 1] == j);
            }
        }
    }
}

/// A request is routed to some handler exactly when `has_handler` says so.
pub proof fn law_route_agrees_with_has_handler(patterns: Seq<Seq<char>>, path: Seq<char>)
    ensures
        (matching_handlers(patterns, path).len() > 0) == any_handler_matches(patterns, path),
{
    lemma_matching_handlers_exact(patterns, path);
    if any_handler_matches(patterns, path) {
        let j = choose|j: int| 0 <= j < patterns.len() && topic_matches(patterns[j], path);
        assert(matching_handlers(patterns, path).contains(j));
    }
    if matching_handlers(patterns, path).len() > 0 {
        let i = matching_handlers(patterns, path)[0];
        assert(topic_matches(patterns[i], path));
    }
}

/// A request reaches the handlers it goes to in the order they were
/// registered, each once.
pub proof fn law_route_in_registration_order(patterns: Seq<Seq<char>>, path: Seq<char>)
    ensures
        forall|i: int, j: int|
            0 <= i < j < matching_handlers(patterns, path).len() ==> #[trigger] matching_handlers(
                patterns,
                path,
            )[i] < #[trigger] matching_handlers(patterns, path)[j],
    decreases patterns.len(),
{
    if patterns.len() > 0 {
        let t = patterns.drop_last();
        law_route_in_registration_order(t, path);
        lemma_matching_handlers_exact(t, path);
        let mt = matching_handlers(t, path);
        let m = matching_handlers(patterns, path);
        if topic_matches(patterns.last(), path) {
            assert forall|i: int, j: int| 0 <= i < j < m.len() implies #[trigger] m[i] < #[trigger] m[j] by {
                assert(m[i] == mt[i]);
                if j < m.len() - 1 {
                    assert(m[j] == mt[j]);
                }
            }
        }
    }
}

/// A request goes to exactly the handlers whose pattern matches its path,
/// each once: a registered handler is named if and only if its pattern
/// matches, every name is a registered handler, and none is named twice.
pub proof fn law_route_names_every_matching_handler(patterns: Seq<Seq<char>>, path: Seq<char>)
    ensures
        forall|j: int|
            0 <= j < patterns.len() ==> (topic_matches(#[trigger] patterns[j], path)
                <==> matching_handlers(patterns, path).contains(j)),
        forall|i: int|
            0 <= i < matching_handlers(patterns, path).len() ==> 0 <= #[trigger] matching_handlers(
                patterns,
                path,
            )[i] < patterns.len(),
        forall|a: int, b: int|
            0 <= a < b < matching_handlers(patterns, path).len() ==> #[trigger] matching_handlers(
                patterns,
                path,
            )[a] != #[trigger] matching_handlers(patterns, path)[b],
{
    lemma_matching_handlers_exact(patterns, path);
    law_route_in_registration_order(patterns, path);
    let m = matching_handlers(patterns, path);
    assert forall|j: int| 0 <= j < patterns.len() implies (topic_matches(#[trigger] patterns[j], path)
        <==> m.contains(j)) by {
        if m.contains(j) {
            let i = choose|i: int| 0 <= i < m.len() && m[i] == j;
            assert(topic_matches(patterns[m[i]], path));
        }
    }
}

} // verus!
