//! Per-path state store with topic-routed change subscriptions.
//!
//! Values are JSON bytes kept per path in ascending path order. A change
//! subscription is a topic pattern with an identifier; storing a value
//! reports the identifiers of every subscription whose pattern matches the
//! path, in the order they subscribed, so that the caller can notify them.
use vstd::prelude::*;
use crate::listing::{
    is_listing_of, lemma_listing_insert, lemma_listing_len, lemma_listing_lookup,
    law_listing_unique, lemma_listing_remove, lemma_listing_update, listing_keys, listing_map, lookup, sorted_keys,
    sorted_texts, Pair,
};
use crate::text::{
    chars_of, compare_text, has_child_prefix, is_child_path, lemma_text_lt_asymmetric,
    lemma_text_lt_irreflexive, lemma_text_lt_transitive, split_chars, split_on, text_lt,
    TextOrder,
};
use crate::topic::{levels_match, topic_matches, TopicPattern};

verus! {

/// Identifies one change subscription.
#[derive(Clone, Copy, Debug, PartialEq, Eq, Hash, Structural)]
pub struct SubscriptionId(pub u64);

struct Entry {
    path: String,
    key: Vec<char>,
    value: Vec<u8>,
}

struct Subscription {
    id: SubscriptionId,
    pattern: TopicPattern,
}

/// The identifiers, in order, of the subscriptions in `subs` whose pattern
/// matches `path`.
pub open spec fn matching_ids(subs: Seq<(u64, Seq<char>)>, path: Seq<char>) -> Seq<u64>
    decreases subs.len(),
{
    if subs.len() == 0 {
        Seq::empty()
    } else {
        let r = matching_ids(subs.drop_last(), path);
        if topic_matches(subs.last().1, path) {
            r.push(subs.last().0)
        } else {
            r
        }
    }
}

/// `subs` without the subscriptions that have identifier `id` and pattern
/// `pattern`.
pub open spec fn without(subs: Seq<(u64, Seq<char>)>, id: u64, pattern: Seq<char>) -> Seq<
    (u64, Seq<char>),
>
    decreases subs.len(),
{
    if subs.len() == 0 {
        Seq::empty()
    } else {
        let r = without(subs.drop_last(), id, pattern);
        if subs.last().0 == id && subs.last().1 == pattern {
            r
        } else {
            r.push(subs.last())
        }
    }
}

/// The numbers of a sequence of subscription identifiers.
pub open spec fn ids_of(v: Seq<SubscriptionId>) -> Seq<u64> {
    v.map_values(|s: SubscriptionId| s.0)
}

/// A `(path, value)` vector as the specifications see it.
pub open spec fn pair_views(v: Seq<(String, Vec<u8>)>) -> Seq<Pair> {
    v.map_values(|p: (String, Vec<u8>)| (p.0@, p.1@))
}

/// The texts of a vector of strings.
pub open spec fn string_views(v: Seq<String>) -> Seq<Seq<char>> {
    v.map_values(|s: String| s@)
}

/// The entries of `m` whose path lies below `prefix`.
pub open spec fn children_of(m: Map<Seq<char>, Seq<u8>>, prefix: Seq<char>) -> Map<
    Seq<char>,
    Seq<u8>,
> {
    Map::new(|k: Seq<char>| m.contains_key(k) && is_child_path(prefix, k), |k: Seq<char>| m[k])
}

spec fn entry_views(v: Seq<Entry>) -> Seq<Pair> {
    v.map_values(|e: Entry| (e.path@, e.value@))
}

spec fn sub_views(v: Seq<Subscription>) -> Seq<(u64, Seq<char>)> {
    v.map_values(|s: Subscription| (s.id.0, s.pattern.text@))
}

spec fn subs_wf(v: Seq<Subscription>, next_id: u64) -> bool {
    &&& forall|i: int| 0 <= i < v.len() ==> (#[trigger] v[i]).pattern.wf()
    &&& forall|i: int, j: int| 0 <= i < j < v.len() ==> (#[trigger] v[i]).id.0 < (#[trigger] v[j]).id.0
    &&& forall|i: int| 0 <= i < v.len() ==> (#[trigger] v[i]).id.0 < next_id
}

/// Path-keyed store of JSON byte values plus a registry of change
/// subscriptions.
pub struct StateStore {
    entries: Vec<Entry>,
    subscriptions: Vec<Subscription>,
    next_id: u64,
}

impl View for StateStore {
    type V = Map<Seq<char>, Seq<u8>>;

    /// The stored values by path.
    closed spec fn view(&self) -> Map<Seq<char>, Seq<u8>> {
        listing_map(self.listing())
    }
}

impl StateStore {
    /// The stored `(path, value)` pairs in ascending path order.
    pub closed spec fn listing(&self) -> Seq<Pair> {
        entry_views(self.entries@)
    }

    /// The subscriptions as `(identifier, pattern)`, oldest first.
    pub closed spec fn subscribers(&self) -> Seq<(u64, Seq<char>)> {
        sub_views(self.subscriptions@)
    }

    /// The identifier the next subscription receives.
    pub closed spec fn next_id(&self) -> u64 {
        self.next_id
    }

    /// Well-formedness: entries sorted by path with their characters kept
    /// alongside, patterns parsed, identifiers ascending and below `next_id`.
    pub closed spec fn wf(&self) -> bool {
        &&& sorted_keys(self.listing())
        &&& forall|i: int|
            0 <= i < self.entries@.len() ==> (#[trigger] self.entries@[i]).key@
                == self.entries@[i].path@
        &&& subs_wf(self.subscriptions@, self.next_id)
        &&& self.next_id >= 1
    }

    /// The stored listing is the sorted listing of the view, and the view is
    /// finite with one entry per pair.
    pub proof fn lemma_view_listing(&self)
        requires
            self.wf(),
        ensures
            is_listing_of(self.listing(), self@),
            self@.dom().finite(),
            self@.len() == self.listing().len(),
            self@.dom() == listing_keys(self.listing()).to_set(),
    {
        lemma_listing_len(self.listing());
    }

    /// Identifiers start at 1: the next one is at least 1, and every
    /// registered subscription's identifier is below it.
    pub proof fn lemma_next_id(&self)
        requires
            self.wf(),
        ensures
            self.next_id() >= 1,
            forall|i: int|
                0 <= i < self.subscribers().len() ==> #[trigger] self.subscribers()[i].0 < self.next_id(),
    {
        assert forall|i: int| 0 <= i < self.subscribers().len() implies #[trigger] self.subscribers()[i].0
            < self.next_id() by {
            assert(self.subscriptions@[i].id.0 < self.next_id);
        }
    }

    /// An empty store with no subscriptions.
    pub fn new() -> (s: Self)
        ensures
            s.wf(),
            s@ == Map::<Seq<char>, Seq<u8>>::empty(),
            s.subscribers() == Seq::<(u64, Seq<char>)>::empty(),
            s.next_id() == 1,
    {
        let s = StateStore { entries: Vec::new(), subscriptions: Vec::new(), next_id: 1 };
        assert(s.listing() =~= Seq::<Pair>::empty());
        assert(s@ =~= Map::<Seq<char>, Seq<u8>>::empty());
        assert(s.subscribers() =~= Seq::<(u64, Seq<char>)>::empty());
        s
    }

    /// Position of `key` in the entries: the first entry not below it, and
    /// whether that entry has exactly this path.
    fn locate(&self, key: &Vec<char>) -> (r: (usize, bool))
        requires
            self.wf(),
        ensures
            r.0 <= self.entries@.len(),
            forall|i: int| 0 <= i < r.0 ==> text_lt(#[trigger] self.listing()[i].0, key@),
            forall|i: int| r.0 <= i < self.entries@.len() && !r.1 ==> text_lt(
                key@,
                #[trigger] self.listing()[i].0,
            ),
            r.1 ==> r.0 < self.entries@.len() && self.listing()[r.0 as int].0 == key@,
    {
        let mut i: usize = 0;
        while i < self.entries.len()
            invariant
                self.wf(),
                i <= self.entries@.len(),
                forall|j: int| 0 <= j < i ==> text_lt(#[trigger] self.listing()[j].0, key@),
            decreases self.entries@.len() - i,
        {
            assert(self.entries@[i as int].key@ == self.listing()[i as int].0);
            match compare_text(&self.entries[i].key, key) {
                TextOrder::Less => {
                    i = i + 1;
                },
                TextOrder::Equal => {
                    return (i, true);
                },
                TextOrder::Greater => {
                    assert forall|j: int| i <= j < self.entries@.len() implies text_lt(
                        key@,
                        #[trigger] self.listing()[j].0,
                    ) by {
                        if j > i {
                            lemma_text_lt_transitive(
                                key@,
                                self.listing()[i as int].0,
                                self.listing()[j].0,
                            );
                        }
                    }
                    return (i, false);
                },
            }
        }
        (i, false)
    }

    /// Whether a value is stored at `path`, and the view facts at the
    /// located position.
    proof fn lemma_locate_view(&self, key: Seq<char>, pos: int, found: bool)
        requires
            self.wf(),
            0 <= pos <= self.listing().len(),
            forall|i: int| 0 <= i < pos ==> text_lt(#[trigger] self.listing()[i].0, key),
            forall|i: int| pos <= i < self.listing().len() && !found ==> text_lt(
                key,
                #[trigger] self.listing()[i].0,
            ),
            found ==> pos < self.listing().len() && self.listing()[pos].0 == key,
        ensures
            self@.contains_key(key) == found,
            found ==> self@[key] == self.listing()[pos].1,
    {
        let s = self.listing();
        if found {
            lemma_listing_lookup(s, pos);
        } else {
            assert forall|i: int| 0 <= i < s.len() implies s[i].0 != key by {
                if s[i].0 == key {
                    lemma_text_lt_irreflexive(key);
                }
            }
        }
    }

    /// Stores `bytes` at `path`, replacing any previous value, and returns
    /// the identifiers of the subscriptions to notify of the change: those
    /// whose pattern matches `path`, oldest first.
    pub fn set_bytes(&mut self, path: &str, bytes: Vec<u8>) -> (notified: Vec<SubscriptionId>)
        requires
            old(self).wf(),
        ensures
            final(self).wf(),
            final(self)@ == old(self)@.insert(path@, bytes@),
            final(self).subscribers() == old(self).subscribers(),
            final(self).next_id() == old(self).next_id(),
            ids_of(notified@) == matching_ids(old(self).subscribers(), path@),
    {
        let key = chars_of(path);
        let (pos, found) = self.locate(&key);
        let ghost s = self.listing();
        let entry = Entry { path: path.to_owned(), key, value: bytes };
        if found {
            self.entries.set(pos, entry);
            proof {
                lemma_listing_update(s, pos as int, bytes@);
                assert(self.listing() =~= s.update(pos as int, (s[pos as int].0, bytes@)));
            }
        } else {
            self.entries.insert(pos, entry);
            proof {
                lemma_listing_insert(s, pos as int, path@, bytes@);
                assert(self.listing() =~= s.insert(pos as int, (path@, bytes@)));
            }
        }
        assert forall|i: int| 0 <= i < self.entries@.len() implies (#[trigger] self.entries@[
            i
        ]).key@ == self.entries@[i].path@ by {}
        self.notify_targets(path)
    }

    /// Identifiers of the subscriptions whose pattern matches `path`.
    fn notify_targets(&self, path: &str) -> (notified: Vec<SubscriptionId>)
        requires
            self.wf(),
        ensures
            ids_of(notified@) == matching_ids(self.subscribers(), path@),
    {
        let chars = chars_of(path);
        let levels = split_chars(&chars, '/');
        let mut notified: Vec<SubscriptionId> = Vec::new();
        let mut i: usize = 0;
        let ghost subs = self.subscribers();
        assert(subs.take(0) =~= Seq::<(u64, Seq<char>)>::empty());
        assert(ids_of(notified@) =~= Seq::<u64>::empty());
        while i < self.subscriptions.len()
            invariant
                self.wf(),
                subs == self.subscribers(),
                i <= self.subscriptions@.len(),
                crate::text::views_of(levels@) == split_on(path@, '/'),
                ids_of(notified@) == matching_ids(subs.take(i as int), path@),
            decreases self.subscriptions@.len() - i,
        {
            let sub = &self.subscriptions[i];
            assert(subs.take(i as int + 1).drop_last() =~= subs.take(i as int));
            assert(subs.take(i as int + 1).last() == subs[i as int]);
            assert(sub.pattern.wf());
            let hit = sub.pattern.matches_levels(&levels);
            if hit {
                let ghost before = notified@;
                notified.push(sub.id);
                assert(ids_of(notified@) =~= ids_of(before).push(sub.id.0));
            }
            i = i + 1;
        }
        assert(subs.take(i as int) =~= subs);
        notified
    }

    /// The value stored at `path`, if any.
    pub fn get(&self, path: &str) -> (r: Option<Vec<u8>>)
        requires
            self.wf(),
        ensures
            r is Some == self@.contains_key(path@),
            r matches Some(v) ==> v@ == self@[path@],
    {
        let key = chars_of(path);
        let (pos, found) = self.locate(&key);
        proof {
            self.lemma_locate_view(key@, pos as int, found);
        }
        if found {
            Some(copy_bytes(&self.entries[pos].value))
        } else {
            None
        }
    }

    /// Removes the value at `path`, returning it if there was one. No
    /// subscription is notified.
    pub fn remove(&mut self, path: &str) -> (r: Option<Vec<u8>>)
        requires
            old(self).wf(),
        ensures
            final(self).wf(),
            final(self)@ == old(self)@.remove(path@),
            final(self).subscribers() == old(self).subscribers(),
            final(self).next_id() == old(self).next_id(),
            r is Some == old(self)@.contains_key(path@),
            r matches Some(v) ==> v@ == old(self)@[path@],
    {
        let key = chars_of(path);
        let (pos, found) = self.locate(&key);
        proof {
            self.lemma_locate_view(key@, pos as int, found);
        }
        if found {
            let ghost s = self.listing();
            let e = self.entries.remove(pos);
            proof {
                lemma_listing_remove(s, pos as int);
                assert(self.listing() =~= s.remove(pos as int));
                assert forall|i: int| 0 <= i < self.entries@.len() implies (#[trigger] self.entries@[
                    i
                ]).key@ == self.entries@[i].path@ by {
                    if i >= pos {
                        assert(self.entries@[i] == old(self).entries@[i + 1]);
                    }
                }
            }
            Some(e.value)
        } else {
            proof {
                assert(old(self)@.remove(path@) =~= old(self)@);
            }
            None
        }
    }

    /// The entries stored below `prefix` (paths starting with `{prefix}/`),
    /// in ascending path order; `prefix` itself is not included.
    pub fn scan(&self, prefix: &str) -> (r: Vec<(String, Vec<u8>)>)
        requires
            self.wf(),
        ensures
            is_listing_of(pair_views(r@), children_of(self@, prefix@)),
    {
        let pre = chars_of(prefix);
        let mut r: Vec<(String, Vec<u8>)> = Vec::new();
        let ghost s = self.listing();
        let mut i: usize = 0;
        assert(s.take(0) =~= Seq::<Pair>::empty());
        assert(listing_map(pair_views(r@)) =~= children_of(listing_map(s.take(0)), prefix@));
        while i < self.entries.len()
            invariant
                self.wf(),
                s == self.listing(),
                pre@ == prefix@,
                i <= self.entries@.len(),
                sorted_keys(pair_views(r@)),
                forall|a: int, j: int|
                    0 <= a < r@.len() && i <= j < s.len() ==> text_lt(
                        #[trigger] pair_views(r@)[a].0,
                        #[trigger] s[j].0,
                    ),
                listing_map(pair_views(r@)) == children_of(listing_map(s.take(i as int)), prefix@),
            decreases self.entries@.len() - i,
        {
            let e = &self.entries[i];
            assert(e.key@ == s[i as int].0);
            assert(s[i as int] == (e.path@, e.value@));
            proof {
                lemma_take_one_more(s, i as int);
                lemma_children_insert(listing_map(s.take(i as int)), prefix@, s[i as int].0, s[i as int].1);
            }
            if has_child_prefix(&pre, &e.key) {
                let ghost before = pair_views(r@);
                let p = e.path.clone();
                let b = copy_bytes(&e.value);
                r.push((p, b));
                assert(pair_views(r@) =~= before.push(s[i as int]));
                proof {
                    assert forall|a: int| 0 <= a < before.len() implies text_lt(
                        #[trigger] before[a].0,
                        s[i as int].0,
                    ) by {}
                    lemma_listing_insert(before, before.len() as int, s[i as int].0, s[i as int].1);
                    assert(before.insert(before.len() as int, s[i as int]) =~= before.push(s[i as int]));
                    assert forall|a: int, j: int|
                        0 <= a < r@.len() && i + 1 <= j < s.len() implies text_lt(
                            #[trigger] pair_views(r@)[a].0,
                            #[trigger] s[j].0,
                        ) by {
                        if a == before.len() {
                            assert(text_lt(s[i as int].0, s[j].0));
                        } else {
                            assert(pair_views(r@)[a] == before[a]);
                        }
                    }
                }
            }
            i = i + 1;
        }
        assert(s.take(i as int) =~= s);
        r
    }

    /// Whether a value is stored at `path`.
    pub fn contains(&self, path: &str) -> (r: bool)
        requires
            self.wf(),
        ensures
            r == self@.contains_key(path@),
    {
        let key = chars_of(path);
        let (pos, found) = self.locate(&key);
        proof {
            self.lemma_locate_view(key@, pos as int, found);
        }
        found
    }

    /// The number of stored paths.
    pub fn len(&self) -> (r: usize)
        requires
            self.wf(),
        ensures
            r == self@.len(),
    {
        proof {
            self.lemma_view_listing();
        }
        self.entries.len()
    }

    /// Whether no path is stored.
    pub fn is_empty(&self) -> (r: bool)
        requires
            self.wf(),
        ensures
            r == (self@.len() == 0),
    {
        self.len() == 0
    }

    /// Whether a subscription with identifier `id` is registered.
    pub fn subscribed(&self, id: SubscriptionId) -> (r: bool)
        requires
            self.wf(),
        ensures
            r == exists|i: int|
                0 <= i < self.subscribers().len() && #[trigger] self.subscribers()[i].0 == id.0,
    {
        let mut i: usize = 0;
        while i < self.subscriptions.len()
            invariant
                i <= self.subscriptions@.len(),
                forall|j: int| 0 <= j < i ==> #[trigger] self.subscribers()[j].0 != id.0,
            decreases self.subscriptions@.len() - i,
        {
            if self.subscriptions[i].id.0 == id.0 {
                assert(self.subscribers()[i as int].0 == id.0);
                return true;
            }
            i = i + 1;
        }
        false
    }

    /// Whether an identifier is left for another subscription.
    pub fn has_fresh_id(&self) -> (r: bool)
        ensures
            r == (self.next_id() < u64::MAX),
    {
        self.next_id < u64::MAX
    }

    /// Registers a change subscription for `pattern` and returns its new,
    /// never before issued identifier.
    pub fn subscribe(&mut self, pattern: &str) -> (id: SubscriptionId)
        requires
            old(self).wf(),
            old(self).next_id() < u64::MAX,
        ensures
            final(self).wf(),
            final(self)@ == old(self)@,
            id.0 == old(self).next_id(),
            id.0 >= 1,
            final(self).next_id() == old(self).next_id() + 1,
            final(self).subscribers() == old(self).subscribers().push((id.0, pattern@)),
            forall|i: int|
                0 <= i < old(self).subscribers().len() ==> #[trigger] old(self).subscribers()[i].0
                    < id.0,
    {
        let id = SubscriptionId(self.next_id);
        let parsed = TopicPattern::parse(pattern);
        self.subscriptions.push(Subscription { id, pattern: parsed });
        self.next_id = self.next_id + 1;
        assert(self.subscribers() =~= old(self).subscribers().push((id.0, pattern@)));
        assert(self.listing() =~= old(self).listing());
        assert forall|i: int| 0 <= i < old(self).subscribers().len() implies #[trigger] old(
            self,
        ).subscribers()[i].0 < id.0 by {
            assert(old(self).subscriptions@[i].id.0 < old(self).next_id);
        }
        id
    }

    /// Removes the subscription with identifier `id` registered for
    /// `pattern`; does nothing if there is none.
    pub fn unsubscribe(&mut self, pattern: &str, id: SubscriptionId)
        requires
            old(self).wf(),
        ensures
            final(self).wf(),
            final(self)@ == old(self)@,
            final(self).next_id() == old(self).next_id(),
            final(self).subscribers() == without(old(self).subscribers(), id.0, pattern@),
    {
        let pat = chars_of(pattern);
        let mut rest: Vec<Subscription> = Vec::new();
        std::mem::swap(&mut rest, &mut self.subscriptions);
        let ghost orig = rest@;
        let ghost next = self.next_id;
        let mut kept: Vec<Subscription> = Vec::new();
        let ghost mut k: int = 0;
        assert(sub_views(kept@) =~= without(sub_views(orig.take(0)), id.0, pattern@));
        assert(rest@ =~= orig.skip(0));
        while rest.len() > 0
            invariant
                subs_wf(orig, next),
                0 <= k <= orig.len(),
                rest@ == orig.skip(k),
                pat@ == pattern@,
                sub_views(kept@) == without(sub_views(orig.take(k)), id.0, pattern@),
                forall|i: int| 0 <= i < kept@.len() ==> (#[trigger] kept@[i]).pattern.wf(),
                forall|i: int, j: int|
                    0 <= i < j < kept@.len() ==> (#[trigger] kept@[i]).id.0 < (
                    #[trigger] kept@[j]).id.0,
                forall|i: int| 0 <= i < kept@.len() ==> (#[trigger] kept@[i]).id.0 < next,
                k < orig.len() ==> forall|i: int|
                    0 <= i < kept@.len() ==> (#[trigger] kept@[i]).id.0 < orig[k].id.0,
            decreases rest@.len(),
        {
            let sub = rest.remove(0);
            assert(sub == orig[k]);
            let ghost before = kept@;
            let ghost sv = sub_views(orig.take(k + 1));
            assert(sv.drop_last() =~= sub_views(orig.take(k)));
            assert(sv.last() == (sub.id.0, sub.pattern.text@));
            let same = sub.id.0 == id.0 && crate::text::same_text(
                &chars_of(sub.pattern.text.as_str()),
                &pat,
            );
            if !same {
                kept.push(sub);
                assert(sub_views(kept@) =~= sub_views(before).push((sub.id.0, sub.pattern.text@)));
            }
            proof {
                k = k + 1;
                assert(rest@ =~= orig.skip(k));
                if k < orig.len() {
                    assert(orig[k - 1].id.0 < orig[k].id.0);
                }
            }
        }
        assert(orig.take(k) =~= orig) by {
            assert(orig.skip(k).len() == 0);
        }
        self.subscriptions = kept;
        assert(self.listing() == old(self).listing());
    }

    /// All stored `(path, value)` pairs in ascending path order.
    pub fn snapshot(&self) -> (r: Vec<(String, Vec<u8>)>)
        requires
            self.wf(),
        ensures
            is_listing_of(pair_views(r@), self@),
    {
        let mut r: Vec<(String, Vec<u8>)> = Vec::new();
        let ghost s = self.listing();
        let mut i: usize = 0;
        while i < self.entries.len()
            invariant
                s == self.listing(),
                i <= self.entries@.len(),
                pair_views(r@) == s.take(i as int),
            decreases self.entries@.len() - i,
        {
            let e = &self.entries[i];
            let ghost before = r@;
            assert(s[i as int] == (e.path@, e.value@));
            let p = e.path.clone();
            let b = copy_bytes(&e.value);
            r.push((p, b));
            assert(pair_views(r@) =~= pair_views(before).push((p@, b@)));
            assert(pair_views(r@) =~= s.take(i as int + 1));
            i = i + 1;
        }
        assert(s.take(i as int) =~= s);
        proof {
            self.lemma_view_listing();
        }
        r
    }

    /// All stored paths in ascending order.
    pub fn paths(&self) -> (r: Vec<String>)
        requires
            self.wf(),
        ensures
            sorted_texts(string_views(r@)),
            string_views(r@).to_set() == self@.dom(),
    {
        let mut r: Vec<String> = Vec::new();
        let ghost s = self.listing();
        let mut i: usize = 0;
        while i < self.entries.len()
            invariant
                s == self.listing(),
                i <= self.entries@.len(),
                string_views(r@) == listing_keys(s).take(i as int),
            decreases self.entries@.len() - i,
        {
            let ghost before = r@;
            let p = self.entries[i].path.clone();
            assert(s[i as int].0 == p@);
            r.push(p);
            assert(string_views(r@) =~= string_views(before).push(p@));
            assert(string_views(r@) =~= listing_keys(s).take(i as int + 1));
            i = i + 1;
        }
        assert(listing_keys(s).take(i as int) =~= listing_keys(s));
        proof {
            self.lemma_view_listing();
            assert forall|a: int, b: int| 0 <= a < b < string_views(r@).len() implies text_lt(
                #[trigger] string_views(r@)[a],
                #[trigger] string_views(r@)[b],
            ) by {
                assert(string_views(r@)[a] == s[a].0);
                assert(string_views(r@)[b] == s[b].0);
            }
        }
        r
    }
}

/// A copy of a byte vector.
fn copy_bytes(v: &Vec<u8>) -> (r: Vec<u8>)
    ensures
        r@ == v@,
{
    let mut r: Vec<u8> = Vec::new();
    let mut i: usize = 0;
    while i < v.len()
        invariant
            i <= v@.len(),
            r@ == v@.take(i as int),
        decreases v@.len() - i,
    {
        r.push(v[i]);
        assert(r@ =~= v@.take(i as int + 1));
        i = i + 1;
    }
    assert(v@.take(i as int) =~= v@);
    r
}

/// Listing one more pair of a sorted listing adds that entry to the map.
proof fn lemma_take_one_more(s: Seq<Pair>, i: int)
    requires
        sorted_keys(s),
        0 <= i < s.len(),
    ensures
        sorted_keys(s.take(i)),
        sorted_keys(s.take(i + 1)),
        listing_map(s.take(i + 1)) == listing_map(s.take(i)).insert(s[i].0, s[i].1),
{
    let t = s.take(i);
    assert(sorted_keys(t)) by {
        assert forall|a: int, b: int| 0 <= a < b < t.len() implies text_lt(
            #[trigger] t[a].0,
            #[trigger] t[b].0,
        ) by {
            assert(t[a] == s[a] && t[b] == s[b]);
        }
    }
    assert forall|a: int| 0 <= a < i implies text_lt(#[trigger] t[a].0, s[i].0) by {
        assert(t[a] == s[a]);
    }
    lemma_listing_insert(t, i, s[i].0, s[i].1);
    assert(t.insert(i, (s[i].0, s[i].1)) =~= s.take(i + 1));
}

/// Adding an entry adds it to the children of `prefix` exactly when its
/// path lies below `prefix`.
proof fn lemma_children_insert(
    m: Map<Seq<char>, Seq<u8>>,
    prefix: Seq<char>,
    k: Seq<char>,
    v: Seq<u8>,
)
    ensures
        is_child_path(prefix, k) ==> children_of(m.insert(k, v), prefix) == children_of(
            m,
            prefix,
        ).insert(k, v),
        !is_child_path(prefix, k) ==> children_of(m.insert(k, v), prefix) == children_of(
            m,
            prefix,
        ),
{
    if is_child_path(prefix, k) {
        assert(children_of(m.insert(k, v), prefix) =~= children_of(m, prefix).insert(k, v));
    } else {
        assert(children_of(m.insert(k, v), prefix) =~= children_of(m, prefix));
    }
}

/// A subscription that was registered and then removed is reported for no
/// path afterwards.
pub proof fn law_unsubscribed_never_notified(store: StateStore, pattern: Seq<char>, id: u64, path: Seq<char>)
    requires
        store.wf(),
        store.subscribers().contains((id, pattern)),
    ensures
        !matching_ids(without(store.subscribers(), id, pattern), path).contains(id),
{
    let subs = store.subscribers();
    lemma_ids_unique(store);
    lemma_without_removes_id(subs, id, pattern);
    lemma_matching_ids_subset(without(subs, id, pattern), path);
}

proof fn lemma_ids_unique(store: StateStore)
    requires
        store.wf(),
    ensures
        forall|i: int, j: int|
            0 <= i < store.subscribers().len() && 0 <= j < store.subscribers().len() && i != j
                ==> #[trigger] store.subscribers()[i].0 != #[trigger] store.subscribers()[j].0,
{
    let v = store.subscriptions@;
    assert forall|i: int, j: int|
        0 <= i < store.subscribers().len() && 0 <= j < store.subscribers().len() && i != j implies #[trigger] store.subscribers()[i].0
        != #[trigger] store.subscribers()[j].0 by {
        if i < j {
            assert(v[i].id.0 < v[j].id.0);
        } else {
            assert(v[j].id.0 < v[i].id.0);
        }
    }
}

proof fn lemma_without_removes_id(subs: Seq<(u64, Seq<char>)>, id: u64, pattern: Seq<char>)
    requires
        forall|i: int, j: int|
            0 <= i < subs.len() && 0 <= j < subs.len() && i != j ==> #[trigger] subs[i].0
                != #[trigger] subs[j].0,
        subs.contains((id, pattern)),
    ensures
        forall|i: int| 0 <= i < without(subs, id, pattern).len() ==> #[trigger] without(subs, id, pattern)[i].0 != id,
    decreases subs.len(),
{
    let t = subs.drop_last();
    let w = without(subs, id, pattern);
    let wt = without(t, id, pattern);
    if subs.last() == (id, pattern) {
        assert forall|i: int| 0 <= i < t.len() implies t[i].0 != id by {
            assert(subs[i] == t[i]);
            assert(subs[subs.len() - 1] == subs.last());
        }
        lemma_without_members(t, id, pattern);
    } else {
        let k = choose|k: int| 0 <= k < subs.len() && subs[k] == (id, pattern);
        assert(k != subs.len() - 1);
        assert(t[k] == subs[k]);
        assert(t.contains((id, pattern)));
        lemma_without_removes_id(t, id, pattern);
        assert(subs.last().0 != id) by {
            assert(subs[subs.len() - 1] == subs.last());
            assert(subs[k].0 != subs[subs.len() - 1].0);
        }
    }
}

proof fn lemma_without_members(subs: Seq<(u64, Seq<char>)>, id: u64, pattern: Seq<char>)
    ensures
        forall|i: int| 0 <= i < without(subs, id, pattern).len() ==> exists|j: int|
            0 <= j < subs.len() && subs[j] == #[trigger] without(subs, id, pattern)[i],
    decreases subs.len(),
{
    if subs.len() > 0 {
        let t = subs.drop_last();
        lemma_without_members(t, id, pattern);
        let w = without(subs, id, pattern);
        let wt = without(t, id, pattern);
        assert forall|i: int| 0 <= i < w.len() implies exists|j: int|
            0 <= j < subs.len() && subs[j] == #[trigger] w[i] by {
            if i < wt.len() {
                assert(w[i] == wt[i]);
                let j = choose|j: int| 0 <= j < t.len() && t[j] == wt[i];
                assert(subs[j] == t[j]);
            } else {
                assert(w[i] == subs.last());
                assert(subs[subs.len() - 1] == subs.last());
            }
        }
    }
}

proof fn lemma_matching_ids_subset(subs: Seq<(u64, Seq<char>)>, path: Seq<char>)
    ensures
        forall|i: int| 0 <= i < matching_ids(subs, path).len() ==> exists|j: int|
            0 <= j < subs.len() && subs[j].0 == #[trigger] matching_ids(subs, path)[i],
    decreases subs.len(),
{
    if subs.len() > 0 {
        let t = subs.drop_last();
        lemma_matching_ids_subset(t, path);
        let m = matching_ids(subs, path);
        let mt = matching_ids(t, path);
        assert forall|i: int| 0 <= i < m.len() implies exists|j: int|
            0 <= j < subs.len() && subs[j].0 == #[trigger] m[i] by {
            if i < mt.len() {
                assert(m[i] == mt[i]);
                let j = choose|j: int| 0 <= j < t.len() && t[j].0 == mt[i];
                assert(subs[j] == t[j]);
            } else {
                assert(subs[subs.len() - 1] == subs.last());
            }
        }
    }
}

impl Default for StateStore {
    /// An empty store with no subscriptions.
    fn default() -> (s: Self)
        ensures
            s.wf(),
            s@ == Map::<Seq<char>, Seq<u8>>::empty(),
            s.subscribers() == Seq::<(u64, Seq<char>)>::empty(),
            s.next_id() == 1,
    {
        StateStore::new()
    }
}

/// A read gives back what the last write to that path wrote, and a write
/// leaves every other path as it was.
pub proof fn law_read_after_write(
    before: StateStore,
    after: StateStore,
    path: Seq<char>,
    bytes: Seq<u8>,
    other: Seq<char>,
)
    requires
        after@ == before@.insert(path, bytes),
    ensures
        after@.contains_key(path),
        after@[path] == bytes,
        other != path ==> after@.contains_key(other) == before@.contains_key(other),
        other != path && before@.contains_key(other) ==> after@[other] == before@[other],
{
}

/// After a removal the path reads as absent, and every other path is as it
/// was.
pub proof fn law_read_after_remove(
    before: StateStore,
    after: StateStore,
    path: Seq<char>,
    other: Seq<char>,
)
    requires
        after@ == before@.remove(path),
    ensures
        !after@.contains_key(path),
        other != path ==> after@.contains_key(other) == before@.contains_key(other),
        other != path && before@.contains_key(other) ==> after@[other] == before@[other],
{
}

/// Writing a new path adds one to the count; overwriting keeps it.
pub proof fn law_len_after_write(before: StateStore, after: StateStore, path: Seq<char>, bytes: Seq<u8>)
    requires
        before.wf(),
        after.wf(),
        after@ == before@.insert(path, bytes),
    ensures
        before@.contains_key(path) ==> after@.len() == before@.len(),
        !before@.contains_key(path) ==> after@.len() == before@.len() + 1,
{
    before.lemma_view_listing();
    after.lemma_view_listing();
    if before@.contains_key(path) {
        assert(after@.dom() =~= before@.dom());
    } else {
        assert(after@.dom() =~= before@.dom().insert(path));
    }
}

/// Removing a stored path takes one from the count; removing an absent one
/// keeps it.
pub proof fn law_len_after_remove(before: StateStore, after: StateStore, path: Seq<char>)
    requires
        before.wf(),
        after.wf(),
        after@ == before@.remove(path),
    ensures
        before@.contains_key(path) ==> after@.len() == before@.len() - 1,
        !before@.contains_key(path) ==> after@.len() == before@.len(),
{
    before.lemma_view_listing();
    after.lemma_view_listing();
    if before@.contains_key(path) {
        assert(after@.dom() =~= before@.dom().remove(path));
    } else {
        assert(after@.dom() =~= before@.dom());
    }
}

/// A scan never lists the prefix itself, nor a path that merely begins
/// with the same characters without a `/` after them.
pub proof fn law_scan_lists_only_children(prefix: Seq<char>, key: Seq<char>)
    ensures
        !is_child_path(prefix, prefix),
        is_child_path(prefix, key) ==> key.len() > prefix.len() && key[prefix.len() as int] == '/',
{
}

/// Removing one subscription keeps every other one, in order.
pub proof fn law_unsubscribe_keeps_others(
    subs: Seq<(u64, Seq<char>)>,
    id: u64,
    pattern: Seq<char>,
    other: (u64, Seq<char>),
)
    requires
        subs.contains(other),
        other != (id, pattern),
    ensures
        without(subs, id, pattern).contains(other),
    decreases subs.len(),
{
    let t = subs.drop_last();
    let w = without(subs, id, pattern);
    let wt = without(t, id, pattern);
    if subs.last() == other {
        assert(w == wt.push(other));
        assert(w[w.len() - 1] == other);
    } else {
        let k = choose|k: int| 0 <= k < subs.len() && subs[k] == other;
        assert(k != subs.len() - 1);
        assert(t[k] == other);
        law_unsubscribe_keeps_others(t, id, pattern, other);
        let j = choose|j: int| 0 <= j < wt.len() && wt[j] == other;
        if subs.last().0 == id && subs.last().1 == pattern {
            assert(w == wt);
        } else {
            assert(w == wt.push(subs.last()));
            assert(w[j] == other);
        }
    }
}

/// Removing a subscription that was never registered changes nothing.
pub proof fn law_unsubscribe_absent_is_noop(subs: Seq<(u64, Seq<char>)>, id: u64, pattern: Seq<char>)
    requires
        !subs.contains((id, pattern)),
    ensures
        without(subs, id, pattern) == subs,
    decreases subs.len(),
{
    if subs.len() > 0 {
        let t = subs.drop_last();
        assert(!t.contains((id, pattern))) by {
            if t.contains((id, pattern)) {
                let k = choose|k: int| 0 <= k < t.len() && t[k] == (id, pattern);
                assert(subs[k] == (id, pattern));
            }
        }
        law_unsubscribe_absent_is_noop(t, id, pattern);
        assert(subs.last() != (id, pattern)) by {
            assert(subs[subs.len() - 1] == subs.last());
        }
        assert(t.push(subs.last()) =~= subs);
    } else {
        assert(without(subs, id, pattern) =~= subs);
    }
}

/// Removing a path that a write had just added gives back the state from
/// before the write.
pub proof fn law_remove_undoes_new_write(
    before: StateStore,
    written: StateStore,
    after: StateStore,
    path: Seq<char>,
    bytes: Seq<u8>,
)
    requires
        !before@.contains_key(path),
        written@ == before@.insert(path, bytes),
        after@ == written@.remove(path),
    ensures
        after@ == before@,
{
    assert(after@ =~= before@);
}

/// Unsubscribing a subscription just made, with its pattern, gives back
/// the subscriptions from before it.
pub proof fn law_unsubscribe_undoes_subscribe(
    subs: Seq<(u64, Seq<char>)>,
    id: u64,
    pattern: Seq<char>,
)
    requires
        forall|i: int| 0 <= i < subs.len() ==> #[trigger] subs[i].0 < id,
    ensures
        without(subs.push((id, pattern)), id, pattern) == subs,
{
    let pushed = subs.push((id, pattern));
    assert(pushed.drop_last() =~= subs);
    assert(!subs.contains((id, pattern))) by {
        if subs.contains((id, pattern)) {
            let k = choose|k: int| 0 <= k < subs.len() && subs[k] == (id, pattern);
            assert(subs[k].0 < id);
        }
    }
    law_unsubscribe_absent_is_noop(subs, id, pattern);
}

proof fn lemma_matching_ids_ascending(subs: Seq<(u64, Seq<char>)>, path: Seq<char>)
    requires
        forall|i: int, j: int| 0 <= i < j < subs.len() ==> #[trigger] subs[i].0 < #[trigger] subs[j].0,
    ensures
        forall|i: int, j: int|
            0 <= i < j < matching_ids(subs, path).len() ==> #[trigger] matching_ids(subs, path)[i]
                < #[trigger] matching_ids(subs, path)[j],
    decreases subs.len(),
{
    if subs.len() > 0 {
        let t = subs.drop_last();
        assert forall|i: int, j: int| 0 <= i < j < t.len() implies #[trigger] t[i].0 < #[trigger] t[j].0 by {
            assert(t[i] == subs[i] && t[j] == subs[j]);
        }
        lemma_matching_ids_ascending(t, path);
        lemma_matching_ids_subset(t, path);
        let mt = matching_ids(t, path);
        let m = matching_ids(subs, path);
        if topic_matches(subs.last().1, path) {
            assert forall|i: int, j: int| 0 <= i < j < m.len() implies #[trigger] m[i] < #[trigger] m[j] by {
                assert(m[i] == mt[i]);
                if j == m.len() - 1 {
                    let k = choose|k: int| 0 <= k < t.len() && t[k].0 == mt[i];
                    assert(subs[k] == t[k]);
                    assert(subs[k].0 < subs[subs.len() - 1].0);
                } else {
                    assert(m[j] == mt[j]);
                }
            }
        }
    }
}

/// A change is reported to the subscriptions it goes to in the order they
/// subscribed, each once, and only to registered subscriptions.
pub proof fn law_notified_in_subscription_order(store: StateStore, path: Seq<char>)
    requires
        store.wf(),
    ensures
        forall|i: int, j: int|
            0 <= i < j < matching_ids(store.subscribers(), path).len() ==> #[trigger] matching_ids(
                store.subscribers(),
                path,
            )[i] < #[trigger] matching_ids(store.subscribers(), path)[j],
        forall|i: int|
            0 <= i < matching_ids(store.subscribers(), path).len() ==> exists|j: int|
                0 <= j < store.subscribers().len() && store.subscribers()[j].0
                    == #[trigger] matching_ids(store.subscribers(), path)[i],
{
    let subs = store.subscribers();
    assert forall|i: int, j: int| 0 <= i < j < subs.len() implies #[trigger] subs[i].0 < #[trigger] subs[j].0 by {
        assert(store.subscriptions@[i].id.0 < store.subscriptions@[j].id.0);
    }
    lemma_matching_ids_ascending(subs, path);
    lemma_matching_ids_subset(subs, path);
}

/// Identifiers never repeat: every operation keeps or raises `next_id`
/// (see their `ensures`), so a subscription made after one that received
/// `earlier` receives a larger identifier, and both are at least 1.
pub proof fn law_later_subscription_larger_id(
    after_earlier: StateStore,
    before_later: StateStore,
    earlier: u64,
    later: u64,
)
    requires
        after_earlier.wf(),
        after_earlier.next_id() == earlier + 1,
        before_later.next_id() >= after_earlier.next_id(),
        later == before_later.next_id(),
    ensures
        earlier < later,
        later >= 1,
{
    after_earlier.lemma_next_id();
}

/// Whether the path of pair `p` lies below `prefix`.
#[verifier::opaque]
pub open spec fn pair_below(prefix: Seq<char>, p: Pair) -> bool {
    is_child_path(prefix, p.0)
}

/// The pairs of a listing whose path lies below `prefix`.
pub open spec fn below(s: Seq<Pair>, prefix: Seq<char>) -> Seq<Pair> {
    s.filter(|p: Pair| pair_below(prefix, p))
}

proof fn lemma_below_step(s: Seq<Pair>, prefix: Seq<char>)
    requires
        s.len() > 0,
    ensures
        below(s, prefix) == if pair_below(prefix, s.last()) {
            below(s.drop_last(), prefix).push(s.last())
        } else {
            below(s.drop_last(), prefix)
        },
{
    reveal(Seq::filter);
}

proof fn lemma_below(s: Seq<Pair>, prefix: Seq<char>)
    requires
        sorted_keys(s),
    ensures
        sorted_keys(below(s, prefix)),
        forall|i: int|
            0 <= i < below(s, prefix).len() ==> pair_below(prefix, #[trigger] below(s, prefix)[i])
                && s.contains(below(s, prefix)[i]),
        forall|j: int|
            0 <= j < s.len() && pair_below(prefix, #[trigger] s[j]) ==> below(s, prefix).contains(s[j]),
    decreases s.len(),
{
    let f = below(s, prefix);
    if s.len() == 0 {
        reveal(Seq::filter);
        assert(f.len() == 0);
    } else {
        lemma_below_step(s, prefix);
        let d = s.drop_last();
        assert(sorted_keys(d)) by {
            assert forall|a: int, b: int| 0 <= a < b < d.len() implies text_lt(#[trigger] d[a].0, #[trigger] d[b].0) by {
                assert(d[a] == s[a] && d[b] == s[b]);
            }
        }
        lemma_below(d, prefix);
        let fd = below(d, prefix);
        assert forall|i: int| 0 <= i < f.len() implies pair_below(prefix, #[trigger] f[i])
            && s.contains(f[i]) by {
            if i < fd.len() {
                assert(f[i] == fd[i]);
                assert(d.contains(fd[i]));
                let j = choose|j: int| 0 <= j < d.len() && d[j] == fd[i];
                assert(s[j] == d[j]);
            } else {
                assert(s[s.len() - 1] == f[i]);
            }
        }
        assert forall|j: int| 0 <= j < s.len() && pair_below(prefix, #[trigger] s[j]) implies f.contains(s[j]) by {
            if j < s.len() - 1 {
                assert(d[j] == s[j]);
                assert(fd.contains(d[j]));
                let i = choose|i: int| 0 <= i < fd.len() && fd[i] == d[j];
                assert(f[i] == fd[i]);
            } else {
                assert(f[f.len() - 1] == s[j]);
            }
        }
        assert forall|a: int, b: int| 0 <= a < b < f.len() implies text_lt(#[trigger] f[a].0, #[trigger] f[b].0) by {
            assert(f[a] == fd[a]);
            if b < fd.len() {
                assert(f[b] == fd[b]);
            } else {
                assert(d.contains(fd[a]));
                let j = choose|j: int| 0 <= j < d.len() && d[j] == fd[a];
                assert(s[j] == d[j]);
                assert(f[b] == s[s.len() - 1]);
            }
        }
    }
}

/// A scan gives the snapshot's pairs whose path lies below `prefix`, in
/// the same order: the scan is the snapshot filtered by path.
pub proof fn law_scan_is_filtered_snapshot(
    m: Map<Seq<char>, Seq<u8>>,
    snapshot: Seq<Pair>,
    scanned: Seq<Pair>,
    prefix: Seq<char>,
)
    requires
        is_listing_of(snapshot, m),
        is_listing_of(scanned, children_of(m, prefix)),
    ensures
        scanned == below(snapshot, prefix),
{
    let f = below(snapshot, prefix);
    lemma_below(snapshot, prefix);
    assert forall|k: Seq<char>| #[trigger] listing_map(f).contains_key(k) implies children_of(m, prefix).contains_key(k)
        && listing_map(f)[k] == children_of(m, prefix)[k] by {
        let i = choose|i: int| 0 <= i < f.len() && f[i].0 == k;
        assert(pair_below(prefix, f[i]) && snapshot.contains(f[i]));
        let j = choose|j: int| 0 <= j < snapshot.len() && snapshot[j] == f[i];
        lemma_listing_lookup(snapshot, j);
        lemma_listing_lookup(f, i);
        reveal(pair_below);
    }
    assert forall|k: Seq<char>| #[trigger] children_of(m, prefix).contains_key(k) implies listing_map(f).contains_key(k) by {
        let j = choose|j: int| 0 <= j < snapshot.len() && snapshot[j].0 == k;
        reveal(pair_below);
        assert(pair_below(prefix, snapshot[j]));
        assert(f.contains(snapshot[j]));
        let i = choose|i: int| 0 <= i < f.len() && f[i] == snapshot[j];
        assert(f[i].0 == k);
    }
    assert(listing_map(f) =~= children_of(m, prefix));
    law_listing_unique(scanned, f, children_of(m, prefix));
}

proof fn lemma_matching_ids_members(subs: Seq<(u64, Seq<char>)>, path: Seq<char>, id: u64)
    ensures
        matching_ids(subs, path).contains(id) <==> exists|i: int|
            0 <= i < subs.len() && subs[i].0 == id && topic_matches(subs[i].1, path),
    decreases subs.len(),
{
    if subs.len() > 0 {
        let d = subs.drop_last();
        lemma_matching_ids_members(d, path, id);
        let md = matching_ids(d, path);
        let m = matching_ids(subs, path);
        if m.contains(id) {
            let k = choose|k: int| 0 <= k < m.len() && m[k] == id;
            if k < md.len() {
                assert(m[k] == md[k]);
                assert(md.contains(id));
                let i = choose|i: int| 0 <= i < d.len() && d[i].0 == id && topic_matches(d[i].1, path);
                assert(subs[i] == d[i]);
            } else {
                assert(subs[subs.len() - 1] == subs.last());
            }
        }
        if exists|i: int| 0 <= i < subs.len() && subs[i].0 == id && topic_matches(subs[i].1, path) {
            let i = choose|i: int| 0 <= i < subs.len() && subs[i].0 == id && topic_matches(subs[i].1, path);
            if i < subs.len() - 1 {
                assert(d[i] == subs[i]);
                assert(md.contains(id));
                let k = choose|k: int| 0 <= k < md.len() && md[k] == id;
                assert(m[k] == md[k]);
            } else {
                assert(subs.last() == subs[i]);
                assert(m[m.len() - 1] == id);
            }
        }
    }
}

/// A change goes to exactly the subscriptions whose pattern matches its
/// path, each once: a registered subscription is reported if and only if
/// its pattern matches, and no identifier is reported twice.
pub proof fn law_every_matching_subscription_notified_once(store: StateStore, path: Seq<char>)
    requires
        store.wf(),
    ensures
        forall|i: int|
            0 <= i < store.subscribers().len() ==> (topic_matches(
                #[trigger] store.subscribers()[i].1,
                path,
            ) <==> matching_ids(store.subscribers(), path).contains(store.subscribers()[i].0)),
        forall|a: int, b: int|
            0 <= a < b < matching_ids(store.subscribers(), path).len() ==> #[trigger] matching_ids(
                store.subscribers(),
                path,
            )[a] != #[trigger] matching_ids(store.subscribers(), path)[b],
{
    let subs = store.subscribers();
    lemma_ids_unique(store);
    law_notified_in_subscription_order(store, path);
    assert forall|i: int| 0 <= i < subs.len() implies (topic_matches(#[trigger] subs[i].1, path)
        <==> matching_ids(subs, path).contains(subs[i].0)) by {
        lemma_matching_ids_members(subs, path, subs[i].0);
        if matching_ids(subs, path).contains(subs[i].0) {
            let j = choose|j: int| 0 <= j < subs.len() && subs[j].0 == subs[i].0 && topic_matches(subs[j].1, path);
            if j != i {
                assert(subs[j].0 != subs[i].0);
            }
        }
    }
}

} // verus!
