//! Sorted listings: a map from paths to byte values written out as a
//! sequence of `(path, value)` pairs in ascending path order.
use vstd::prelude::*;
use crate::text::{lemma_text_lt_irreflexive, lemma_text_lt_total, lemma_text_lt_transitive, text_lt};

verus! {

/// A `(path, value)` pair as the specifications see it.
pub type Pair = (Seq<char>, Seq<u8>);

/// The paths of a listing are in strictly ascending order.
pub open spec fn sorted_keys(s: Seq<Pair>) -> bool {
    forall|i: int, j: int| 0 <= i < j < s.len() ==> text_lt(#[trigger] s[i].0, #[trigger] s[j].0)
}

/// The texts of a sequence are in strictly ascending order.
pub open spec fn sorted_texts(s: Seq<Seq<char>>) -> bool {
    forall|i: int, j: int| 0 <= i < j < s.len() ==> text_lt(#[trigger] s[i], #[trigger] s[j])
}

/// The value of the last pair of `s` whose path is `k`.
pub open spec fn lookup(s: Seq<Pair>, k: Seq<char>) -> Seq<u8>
    decreases s.len(),
{
    if s.len() == 0 {
        Seq::empty()
    } else if s.last().0 == k {
        s.last().1
    } else {
        lookup(s.drop_last(), k)
    }
}

/// The map a listing writes out.
pub open spec fn listing_map(s: Seq<Pair>) -> Map<Seq<char>, Seq<u8>> {
    Map::new(
        |k: Seq<char>| exists|i: int| 0 <= i < s.len() && s[i].0 == k,
        |k: Seq<char>| lookup(s, k),
    )
}

/// `s` lists exactly the entries of `m`, in ascending path order.
pub open spec fn is_listing_of(s: Seq<Pair>, m: Map<Seq<char>, Seq<u8>>) -> bool {
    sorted_keys(s) && listing_map(s) == m
}

/// The paths of a listing.
pub open spec fn listing_keys(s: Seq<Pair>) -> Seq<Seq<char>> {
    s.map_values(|p: Pair| p.0)
}

/// A sorted listing holds each path once.
pub proof fn lemma_sorted_distinct(s: Seq<Pair>, i: int, j: int)
    requires
        sorted_keys(s),
        0 <= i < s.len(),
        0 <= j < s.len(),
        i != j,
    ensures
        s[i].0 != s[j].0,
{
    if i < j {
        assert(text_lt(s[i].0, s[j].0));
        if s[i].0 == s[j].0 {
            lemma_text_lt_irreflexive(s[i].0);
        }
    } else {
        assert(text_lt(s[j].0, s[i].0));
        if s[i].0 == s[j].0 {
            lemma_text_lt_irreflexive(s[i].0);
        }
    }
}

/// Each pair of a sorted listing is an entry of its map.
pub proof fn lemma_listing_lookup(s: Seq<Pair>, i: int)
    requires
        sorted_keys(s),
        0 <= i < s.len(),
    ensures
        listing_map(s).contains_key(s[i].0),
        listing_map(s)[s[i].0] == s[i].1,
{
    let k = s[i].0;
    assert(exists|j: int| 0 <= j < s.len() && s[j].0 == k);
    lemma_lookup_distinct(s, i);
}

proof fn lemma_lookup_distinct(s: Seq<Pair>, i: int)
    requires
        sorted_keys(s),
        0 <= i < s.len(),
    ensures
        lookup(s, s[i].0) == s[i].1,
    decreases s.len(),
{
    if i != s.len() - 1 {
        lemma_sorted_distinct(s, i, s.len() - 1);
        let r = s.drop_last();
        assert(sorted_keys(r)) by {
            assert forall|a: int, b: int| 0 <= a < b < r.len() implies text_lt(
                #[trigger] r[a].0,
                #[trigger] r[b].0,
            ) by {
                assert(r[a] == s[a] && r[b] == s[b]);
            }
        }
        assert(r[i] == s[i]);
        lemma_lookup_distinct(r, i);
    }
}

/// The map of a listing has as many entries as the listing has pairs.
pub proof fn lemma_listing_len(s: Seq<Pair>)
    requires
        sorted_keys(s),
    ensures
        listing_map(s).dom().finite(),
        listing_map(s).dom().len() == s.len(),
        listing_map(s).dom() == listing_keys(s).to_set(),
{
    let ks = listing_keys(s);
    assert(listing_map(s).dom() =~= ks.to_set()) by {
        assert forall|k: Seq<char>| listing_map(s).dom().contains(k) implies ks.to_set().contains(
            k,
        ) by {
            let i = choose|i: int| 0 <= i < s.len() && s[i].0 == k;
            assert(ks[i] == k);
        }
        assert forall|k: Seq<char>| ks.to_set().contains(k) implies listing_map(s).dom().contains(
            k,
        ) by {
            let i = choose|i: int| 0 <= i < ks.len() && ks[i] == k;
            assert(s[i].0 == k);
        }
    }
    assert(ks.no_duplicates()) by {
        assert forall|i: int, j: int| 0 <= i < ks.len() && 0 <= j < ks.len() && i != j implies ks[i]
            != ks[j] by {
            lemma_sorted_distinct(s, i, j);
        }
    }
    ks.unique_seq_to_set();
}

/// Replacing the value of one pair replaces that entry of the map.
pub proof fn lemma_listing_update(s: Seq<Pair>, pos: int, v: Seq<u8>)
    requires
        sorted_keys(s),
        0 <= pos < s.len(),
    ensures
        sorted_keys(s.update(pos, (s[pos].0, v))),
        listing_map(s.update(pos, (s[pos].0, v))) == listing_map(s).insert(s[pos].0, v),
{
    let k = s[pos].0;
    let t = s.update(pos, (k, v));
    assert(sorted_keys(t)) by {
        assert forall|i: int, j: int| 0 <= i < j < t.len() implies text_lt(
            #[trigger] t[i].0,
            #[trigger] t[j].0,
        ) by {
            assert(t[i].0 == s[i].0);
            assert(t[j].0 == s[j].0);
        }
    }
    assert(listing_map(t) =~= listing_map(s).insert(k, v)) by {
        assert forall|x: Seq<char>| #[trigger] listing_map(t).contains_key(x) == listing_map(
            s,
        ).insert(k, v).contains_key(x) by {
            if listing_map(t).contains_key(x) {
                let i = choose|i: int| 0 <= i < t.len() && t[i].0 == x;
                assert(s[i].0 == x);
            }
            if listing_map(s).contains_key(x) {
                let i = choose|i: int| 0 <= i < s.len() && s[i].0 == x;
                assert(t[i].0 == x);
            }
            if x == k {
                assert(t[pos].0 == x);
            }
        }
        assert forall|x: Seq<char>| #[trigger] listing_map(t).contains_key(x) implies listing_map(
            t,
        )[x] == listing_map(s).insert(k, v)[x] by {
            let i = choose|i: int| 0 <= i < t.len() && t[i].0 == x;
            lemma_listing_lookup(t, i);
            if i != pos {
                lemma_listing_lookup(s, i);
                lemma_sorted_distinct(s, i, pos);
            }
        }
    }
}

/// Inserting a new path at its place keeps the listing sorted and adds the
/// entry to the map.
pub proof fn lemma_listing_insert(s: Seq<Pair>, pos: int, k: Seq<char>, v: Seq<u8>)
    requires
        sorted_keys(s),
        0 <= pos <= s.len(),
        forall|i: int| 0 <= i < pos ==> text_lt(#[trigger] s[i].0, k),
        forall|i: int| pos <= i < s.len() ==> text_lt(k, #[trigger] s[i].0),
    ensures
        sorted_keys(s.insert(pos, (k, v))),
        listing_map(s.insert(pos, (k, v))) == listing_map(s).insert(k, v),
{
    let t = s.insert(pos, (k, v));
    assert(sorted_keys(t)) by {
        assert forall|i: int, j: int| 0 <= i < j < t.len() implies text_lt(
            #[trigger] t[i].0,
            #[trigger] t[j].0,
        ) by {
            if j < pos {
                assert(t[i] == s[i] && t[j] == s[j]);
            } else if j == pos {
                assert(t[i] == s[i]);
            } else if i < pos {
                assert(t[i] == s[i] && t[j] == s[j - 1]);
                assert(text_lt(s[i].0, k));
                assert(text_lt(k, s[j - 1].0));
                lemma_text_lt_transitive(s[i].0, k, s[j - 1].0);
            } else if i == pos {
                assert(t[j] == s[j - 1]);
            } else {
                assert(t[i] == s[i - 1] && t[j] == s[j - 1]);
            }
        }
    }
    assert forall|i: int| 0 <= i < s.len() implies s[i].0 != k by {
        if i < pos {
            assert(text_lt(s[i].0, k));
        } else {
            assert(text_lt(k, s[i].0));
        }
        if s[i].0 == k {
            lemma_text_lt_irreflexive(k);
        }
    }
    assert(listing_map(t) =~= listing_map(s).insert(k, v)) by {
        assert forall|x: Seq<char>| #[trigger] listing_map(t).contains_key(x) == listing_map(
            s,
        ).insert(k, v).contains_key(x) by {
            if listing_map(t).contains_key(x) {
                let i = choose|i: int| 0 <= i < t.len() && t[i].0 == x;
                if i < pos {
                    assert(s[i].0 == x);
                } else if i > pos {
                    assert(s[i - 1].0 == x);
                }
            }
            if listing_map(s).contains_key(x) {
                let i = choose|i: int| 0 <= i < s.len() && s[i].0 == x;
                if i < pos {
                    assert(t[i].0 == x);
                } else {
                    assert(t[i + 1].0 == x);
                }
            }
            if x == k {
                assert(t[pos].0 == x);
            }
        }
        assert forall|x: Seq<char>| #[trigger] listing_map(t).contains_key(x) implies listing_map(
            t,
        )[x] == listing_map(s).insert(k, v)[x] by {
            let i = choose|i: int| 0 <= i < t.len() && t[i].0 == x;
            lemma_listing_lookup(t, i);
            if i < pos {
                lemma_listing_lookup(s, i);
            } else if i > pos {
                lemma_listing_lookup(s, i - 1);
            }
        }
    }
}

/// Dropping one pair keeps the listing sorted and removes that entry.
pub proof fn lemma_listing_remove(s: Seq<Pair>, pos: int)
    requires
        sorted_keys(s),
        0 <= pos < s.len(),
    ensures
        sorted_keys(s.remove(pos)),
        listing_map(s.remove(pos)) == listing_map(s).remove(s[pos].0),
{
    let k = s[pos].0;
    let t = s.remove(pos);
    assert(sorted_keys(t)) by {
        assert forall|i: int, j: int| 0 <= i < j < t.len() implies text_lt(
            #[trigger] t[i].0,
            #[trigger] t[j].0,
        ) by {
            if j < pos {
                assert(t[i] == s[i] && t[j] == s[j]);
            } else if i < pos {
                assert(t[i] == s[i] && t[j] == s[j + 1]);
            } else {
                assert(t[i] == s[i + 1] && t[j] == s[j + 1]);
            }
        }
    }
    assert(listing_map(t) =~= listing_map(s).remove(k)) by {
        assert forall|x: Seq<char>| #[trigger] listing_map(t).contains_key(x) == listing_map(
            s,
        ).remove(k).contains_key(x) by {
            if listing_map(t).contains_key(x) {
                let i = choose|i: int| 0 <= i < t.len() && t[i].0 == x;
                if i < pos {
                    assert(s[i].0 == x);
                    lemma_sorted_distinct(s, i, pos);
                } else {
                    assert(s[i + 1].0 == x);
                    lemma_sorted_distinct(s, i + 1, pos);
                }
            }
            if listing_map(s).contains_key(x) && x != k {
                let i = choose|i: int| 0 <= i < s.len() && s[i].0 == x;
                if i < pos {
                    assert(t[i].0 == x);
                } else {
                    assert(i != pos);
                    assert(t[i - 1].0 == x);
                }
            }
        }
        assert forall|x: Seq<char>| #[trigger] listing_map(t).contains_key(x) implies listing_map(
            t,
        )[x] == listing_map(s).remove(k)[x] by {
            let i = choose|i: int| 0 <= i < t.len() && t[i].0 == x;
            lemma_listing_lookup(t, i);
            if i < pos {
                lemma_listing_lookup(s, i);
            } else {
                lemma_listing_lookup(s, i + 1);
            }
        }
    }
}

/// A map has at most one sorted listing.
pub proof fn law_listing_unique(s1: Seq<Pair>, s2: Seq<Pair>, m: Map<Seq<char>, Seq<u8>>)
    requires
        is_listing_of(s1, m),
        is_listing_of(s2, m),
    ensures
        s1 == s2,
    decreases s1.len(),
{
    lemma_listing_len(s1);
    lemma_listing_len(s2);
    if s1.len() > 0 {
        // The first pairs agree: each is the smallest path of the map.
        lemma_listing_lookup(s1, 0);
        lemma_listing_lookup(s2, 0);
        let k1 = s1[0].0;
        let k2 = s2[0].0;
        if k1 != k2 {
            let j2 = choose|j: int| 0 <= j < s2.len() && s2[j].0 == k1;
            let j1 = choose|j: int| 0 <= j < s1.len() && s1[j].0 == k2;
            assert(j2 != 0);
            assert(j1 != 0);
            assert(text_lt(k2, k1));
            assert(text_lt(k1, k2));
            lemma_text_lt_transitive(k1, k2, k1);
            lemma_text_lt_irreflexive(k1);
        }
        let r1 = s1.drop_first();
        let r2 = s2.drop_first();
        assert(sorted_keys(r1)) by {
            assert forall|i: int, j: int| 0 <= i < j < r1.len() implies text_lt(
                #[trigger] r1[i].0,
                #[trigger] r1[j].0,
            ) by {
                assert(r1[i] == s1[i + 1] && r1[j] == s1[j + 1]);
            }
        }
        assert(sorted_keys(r2)) by {
            assert forall|i: int, j: int| 0 <= i < j < r2.len() implies text_lt(
                #[trigger] r2[i].0,
                #[trigger] r2[j].0,
            ) by {
                assert(r2[i] == s2[i + 1] && r2[j] == s2[j + 1]);
            }
        }
        assert(s1.remove(0) =~= r1);
        assert(s2.remove(0) =~= r2);
        lemma_listing_remove(s1, 0);
        lemma_listing_remove(s2, 0);
        law_listing_unique(r1, r2, m.remove(k1));
        assert(s1 =~= s2) by {
            assert forall|i: int| 0 <= i < s1.len() implies s1[i] == s2[i] by {
                if i > 0 {
                    assert(s1[i] == r1[i - 1]);
                    assert(s2[i] == r2[i - 1]);
                }
            }
        }
    } else {
        assert(s1 =~= s2);
    }
}

} // verus!
