//! MQTT-style topic patterns over `/`-separated paths.
//!
//! A pattern is split into levels at `/`. A level `+` matches any one level
//! of the path, a level `#` matches whatever remains of the path (zero or
//! more levels), and any other level must equal the path's level.
use vstd::prelude::*;
use crate::text::{
    chars_of, lemma_split_concat, lemma_split_injective, lemma_split_no_sep, lemma_split_nonempty,
    same_text, split_chars, split_on, views_of,
};

verus! {

/// The level `#`.
pub open spec fn multi_level() -> Seq<char> {
    seq!['#']
}

/// The level `+`.
pub open spec fn single_level() -> Seq<char> {
    seq!['+']
}

/// Level-by-level matching of a split pattern against a split path.
pub open spec fn levels_match(p: Seq<Seq<char>>, t: Seq<Seq<char>>) -> bool
    decreases p.len(),
{
    if p.len() == 0 {
        t.len() == 0
    } else if p[0] == multi_level() {
        true
    } else if t.len() == 0 {
        false
    } else {
        (p[0] == single_level() || p[0] == t[0]) && levels_match(p.drop_first(), t.drop_first())
    }
}

/// Whether the topic pattern `pattern` matches the path `path`.
pub open spec fn topic_matches(pattern: Seq<char>, path: Seq<char>) -> bool {
    levels_match(split_on(pattern, '/'), split_on(path, '/'))
}

/// A pattern with no `+` or `#` level.
pub open spec fn is_exact_pattern(pattern: Seq<char>) -> bool {
    forall|i: int|
        0 <= i < split_on(pattern, '/').len() ==> {
            &&& #[trigger] split_on(pattern, '/')[i] != multi_level()
            &&& split_on(pattern, '/')[i] != single_level()
        }
}

/// A topic pattern kept both as text and split into levels.
pub struct TopicPattern {
    pub text: String,
    pub levels: Vec<Vec<char>>,
}

impl TopicPattern {
    /// The pattern is split consistently with its text.
    pub open spec fn wf(&self) -> bool {
        views_of(self.levels@) == split_on(self.text@, '/')
    }

    /// Parses `pattern` into its levels.
    pub fn parse(pattern: &str) -> (r: TopicPattern)
        ensures
            r.wf(),
            r.text@ == pattern@,
    {
        let chars = chars_of(pattern);
        let levels = split_chars(&chars, '/');
        TopicPattern { text: pattern.to_owned(), levels }
    }

    /// Whether this pattern matches the path whose levels are `path_levels`.
    pub fn matches_levels(&self, path_levels: &Vec<Vec<char>>) -> (r: bool)
        ensures
            r == levels_match(views_of(self.levels@), views_of(path_levels@)),
    {
        match_levels(&self.levels, path_levels)
    }
}

fn is_single_char_level(level: &Vec<char>, c: char) -> (r: bool)
    ensures
        r == (level@ == seq![c]),
{
    if level.len() == 1 && level[0] == c {
        assert(level@ =~= seq![c]);
        true
    } else {
        proof {
            if level@ == seq![c] {
                assert(level@[0] == c);
            }
        }
        false
    }
}

/// Level-by-level matching of `p` against `t`.
pub fn match_levels(p: &Vec<Vec<char>>, t: &Vec<Vec<char>>) -> (r: bool)
    ensures
        r == levels_match(views_of(p@), views_of(t@)),
{
    let ghost pv = views_of(p@);
    let ghost tv = views_of(t@);
    let mut i: usize = 0;
    assert(pv.skip(0) =~= pv);
    assert(tv.skip(0) =~= tv);
    while i < p.len()
        invariant
            i <= p.len(),
            i <= t.len(),
            pv == views_of(p@),
            tv == views_of(t@),
            levels_match(pv, tv) == levels_match(pv.skip(i as int), tv.skip(i as int)),
        decreases p.len() - i,
    {
        assert(pv.skip(i as int)[0] == p@[i as int]@);
        if is_single_char_level(&p[i], '#') {
            return true;
        }
        if i >= t.len() {
            assert(tv.skip(i as int) =~= Seq::<Seq<char>>::empty());
            return false;
        }
        assert(tv.skip(i as int)[0] == t@[i as int]@);
        let plus = is_single_char_level(&p[i], '+');
        if !plus && !same_text(&p[i], &t[i]) {
            return false;
        }
        assert(pv.skip(i as int).drop_first() =~= pv.skip(i as int + 1));
        assert(tv.skip(i as int).drop_first() =~= tv.skip(i as int + 1));
        i = i + 1;
    }
    assert(pv.skip(i as int) =~= Seq::<Seq<char>>::empty());
    if i == t.len() {
        assert(tv.skip(i as int) =~= Seq::<Seq<char>>::empty());
        true
    } else {
        false
    }
}

/// Whether the pattern `pattern` matches the path `path`.
pub fn topic_match(pattern: &str, path: &str) -> (r: bool)
    ensures
        r == topic_matches(pattern@, path@),
{
    let p = TopicPattern::parse(pattern);
    let path_chars = chars_of(path);
    let levels = split_chars(&path_chars, '/');
    p.matches_levels(&levels)
}

proof fn lemma_levels_match_exact(p: Seq<Seq<char>>, t: Seq<Seq<char>>)
    requires
        forall|i: int|
            0 <= i < p.len() ==> #[trigger] p[i] != multi_level() && p[i] != single_level(),
    ensures
        levels_match(p, t) == (p == t),
    decreases p.len(),
{
    if p.len() == 0 {
        if t.len() == 0 {
            assert(p =~= t);
        }
    } else {
        assert(p[0] != multi_level());
        if t.len() > 0 {
            assert forall|i: int| 0 <= i < p.drop_first().len() implies #[trigger] p.drop_first()[i]
                != multi_level() && p.drop_first()[i] != single_level() by {
                assert(p.drop_first()[i] == p[i + 1]);
            }
            lemma_levels_match_exact(p.drop_first(), t.drop_first());
            if p == t {
                assert(p.drop_first() =~= t.drop_first());
            }
            if p[0] == t[0] && p.drop_first() == t.drop_first() {
                assert(p =~= seq![p[0]] + p.drop_first());
                assert(t =~= seq![t[0]] + t.drop_first());
            }
        }
    }
}

/// A pattern without wildcard levels matches exactly the path equal to it.
pub proof fn law_exact_pattern_matches_only_itself(pattern: Seq<char>, path: Seq<char>)
    requires
        is_exact_pattern(pattern),
    ensures
        topic_matches(pattern, path) <==> pattern == path,
{
    let p = split_on(pattern, '/');
    let t = split_on(path, '/');
    assert forall|i: int| 0 <= i < p.len() implies #[trigger] p[i] != multi_level() && p[i]
        != single_level() by {}
    lemma_levels_match_exact(p, t);
    if p == t {
        lemma_split_injective(pattern, path, '/');
    }
}

/// The pattern `#` matches every path.
pub proof fn law_multi_level_matches_everything(path: Seq<char>)
    ensures
        topic_matches(multi_level(), path),
{
    lemma_split_no_sep(multi_level(), '/');
}

/// The pattern `{prefix}/#` matches every path below `prefix`, and
/// `{prefix}` itself.
pub proof fn law_trailing_multi_level(prefix: Seq<char>, rest: Seq<char>)
    requires
        is_exact_pattern(prefix),
    ensures
        topic_matches(prefix.push('/').push('#'), prefix),
        topic_matches(prefix.push('/').push('#'), prefix.push('/') + rest),
{
    let pp = prefix.push('/').push('#');
    lemma_split_nonempty(prefix, '/');
    let ps = split_on(prefix, '/');
    assert(pp.drop_last() =~= prefix.push('/'));
    assert(prefix.push('/').drop_last() =~= prefix);
    assert(split_on(prefix.push('/'), '/') =~= ps.push(Seq::<char>::empty()));
    assert(split_on(pp, '/') =~= ps.push(seq!['#']));
    assert(ps.take(ps.len() as int) =~= ps);
    lemma_levels_prefix_then_multi(ps, ps);
    lemma_split_prefix(prefix, rest);
    let r = split_on(prefix.push('/') + rest, '/');
    assert(r.take(ps.len() as int) =~= ps);
    lemma_levels_prefix_then_multi(ps, r);
}

/// Levels that both pattern and path begin with, none of them `#`, can be
/// matched off: what decides is the rest.
proof fn lemma_levels_common_prefix(ps: Seq<Seq<char>>, q: Seq<Seq<char>>, r: Seq<Seq<char>>)
    requires
        forall|i: int| 0 <= i < ps.len() ==> #[trigger] ps[i] != multi_level(),
    ensures
        levels_match(ps + q, ps + r) == levels_match(q, r),
    decreases ps.len(),
{
    if ps.len() > 0 {
        assert((ps + q)[0] == ps[0]);
        assert((ps + r)[0] == ps[0]);
        assert((ps + q).drop_first() =~= ps.drop_first() + q);
        assert((ps + r).drop_first() =~= ps.drop_first() + r);
        assert forall|i: int| 0 <= i < ps.drop_first().len() implies #[trigger] ps.drop_first()[i]
            != multi_level() by {
            assert(ps.drop_first()[i] == ps[i + 1]);
        }
        lemma_levels_common_prefix(ps.drop_first(), q, r);
    } else {
        assert(ps + q =~= q);
        assert(ps + r =~= r);
    }
}

/// The pattern `{prefix}/+` matches every path exactly one level below
/// `prefix`, but neither `prefix` itself nor a path two or more levels
/// below it.
pub proof fn law_single_level(prefix: Seq<char>, level: Seq<char>, more: Seq<char>)
    requires
        is_exact_pattern(prefix),
        forall|j: int| 0 <= j < level.len() ==> level[j] != '/',
    ensures
        topic_matches(prefix.push('/').push('+'), prefix.push('/') + level),
        !topic_matches(prefix.push('/').push('+'), prefix),
        !topic_matches(prefix.push('/').push('+'), (prefix.push('/') + level).push('/') + more),
{
    let ps = split_on(prefix, '/');
    assert forall|i: int| 0 <= i < ps.len() implies #[trigger] ps[i] != multi_level() by {}
    let plus = seq!['+'];
    assert(prefix.push('/').push('+') =~= prefix.push('/') + plus);
    lemma_split_no_sep(plus, '/');
    lemma_split_concat(prefix, plus, '/');
    let pat = split_on(prefix.push('/').push('+'), '/');
    assert(pat == ps + seq![single_level()]);
    lemma_split_no_sep(level, '/');
    lemma_split_concat(prefix, level, '/');
    let one = split_on(prefix.push('/') + level, '/');
    assert(one == ps + seq![level]);
    lemma_levels_common_prefix(ps, seq![single_level()], seq![level]);
    assert(single_level() != multi_level()) by {
        assert(single_level()[0] != multi_level()[0]);
    }
    assert(seq![single_level()].drop_first() =~= Seq::<Seq<char>>::empty());
    assert(seq![level].drop_first() =~= Seq::<Seq<char>>::empty());
    assert(levels_match(Seq::<Seq<char>>::empty(), Seq::<Seq<char>>::empty()));
    assert(levels_match(seq![single_level()], seq![level]));
    assert(ps + Seq::<Seq<char>>::empty() =~= ps);
    lemma_levels_common_prefix(ps, seq![single_level()], Seq::<Seq<char>>::empty());
    let deep = (prefix.push('/') + level).push('/') + more;
    lemma_split_concat(prefix.push('/') + level, more, '/');
    lemma_split_nonempty(more, '/');
    let m = split_on(more, '/');
    assert(split_on(deep, '/') =~= ps + (seq![level] + m));
    lemma_levels_common_prefix(ps, seq![single_level()], seq![level] + m);
    assert((seq![level] + m).drop_first() =~= m);
    assert((seq![level] + m)[0] == level);
    assert(!levels_match(Seq::<Seq<char>>::empty(), m));
    assert(!levels_match(seq![single_level()], seq![level] + m));
}

/// A `+` level matches any one path level wherever it stands, whatever
/// follows it: below an exact prefix, `{prefix}/+/{pattern}` matches
/// `{prefix}/{level}/{path}` exactly when `pattern` matches `path`.
pub proof fn law_single_level_then_rest(
    prefix: Seq<char>,
    level: Seq<char>,
    pattern: Seq<char>,
    path: Seq<char>,
)
    requires
        is_exact_pattern(prefix),
        forall|j: int| 0 <= j < level.len() ==> level[j] != '/',
    ensures
        topic_matches(
            prefix.push('/').push('+').push('/') + pattern,
            (prefix.push('/') + level).push('/') + path,
        ) == topic_matches(pattern, path),
{
    let ps = split_on(prefix, '/');
    assert forall|i: int| 0 <= i < ps.len() implies #[trigger] ps[i] != multi_level() by {}
    let plus = seq!['+'];
    lemma_split_no_sep(plus, '/');
    lemma_split_no_sep(level, '/');
    let sq = split_on(pattern, '/');
    let st = split_on(path, '/');
    assert(prefix.push('/').push('+').push('/') + pattern =~= prefix.push('/') + (plus.push('/')
        + pattern));
    lemma_split_concat(plus, pattern, '/');
    lemma_split_concat(prefix, plus.push('/') + pattern, '/');
    assert(split_on(prefix.push('/').push('+').push('/') + pattern, '/') == ps + (seq![
        single_level(),
    ] + sq));
    assert((prefix.push('/') + level).push('/') + path =~= prefix.push('/') + (level.push('/')
        + path));
    lemma_split_concat(level, path, '/');
    lemma_split_concat(prefix, level.push('/') + path, '/');
    assert(split_on((prefix.push('/') + level).push('/') + path, '/') == ps + (seq![level] + st));
    lemma_levels_common_prefix(ps, seq![single_level()] + sq, seq![level] + st);
    assert(single_level() != multi_level()) by {
        assert(single_level()[0] != multi_level()[0]);
    }
    assert((seq![single_level()] + sq)[0] == single_level());
    assert((seq![single_level()] + sq).drop_first() =~= sq);
    assert((seq![level] + st).drop_first() =~= st);
}

/// `{prefix}/+/#` matches every path at least one level below `prefix`:
/// `{prefix}/{level}` and `{prefix}/{level}/{rest}`, whatever `level` is
/// and whatever `rest` holds.
pub proof fn law_single_then_multi_level(prefix: Seq<char>, level: Seq<char>, rest: Seq<char>)
    requires
        is_exact_pattern(prefix),
        forall|j: int| 0 <= j < level.len() ==> level[j] != '/',
    ensures
        topic_matches(
            prefix.push('/').push('+').push('/').push('#'),
            (prefix.push('/') + level).push('/') + rest,
        ),
        topic_matches(prefix.push('/').push('+').push('/').push('#'), prefix.push('/') + level),
{
    let pat = prefix.push('/').push('+').push('/').push('#');
    assert(pat =~= prefix.push('/').push('+').push('/') + multi_level());
    law_single_level_then_rest(prefix, level, multi_level(), rest);
    law_multi_level_matches_everything(rest);
    let ps = split_on(prefix, '/');
    assert forall|i: int| 0 <= i < ps.len() implies #[trigger] ps[i] != multi_level() by {}
    let tail = seq!['+', '/', '#'];
    assert(pat =~= prefix.push('/') + tail);
    assert(tail =~= seq!['+'].push('/') + multi_level());
    lemma_split_no_sep(seq!['+'], '/');
    lemma_split_no_sep(multi_level(), '/');
    lemma_split_concat(seq!['+'], multi_level(), '/');
    lemma_split_concat(prefix, tail, '/');
    let two = seq![single_level(), multi_level()];
    assert(split_on(tail, '/') =~= two);
    assert(split_on(pat, '/') == ps + two);
    lemma_split_no_sep(level, '/');
    lemma_split_concat(prefix, level, '/');
    assert(split_on(prefix.push('/') + level, '/') == ps + seq![level]);
    lemma_levels_common_prefix(ps, two, seq![level]);
    assert(single_level() != multi_level()) by {
        assert(single_level()[0] != multi_level()[0]);
    }
    assert(two.drop_first() =~= seq![multi_level()]);
    assert(seq![level].drop_first() =~= Seq::<Seq<char>>::empty());
    assert(levels_match(seq![multi_level()], Seq::<Seq<char>>::empty()));
    assert(levels_match(two, seq![level]));
}

proof fn lemma_levels_prefix_then_multi(ps: Seq<Seq<char>>, t: Seq<Seq<char>>)
    requires
        forall|i: int|
            0 <= i < ps.len() ==> #[trigger] ps[i] != multi_level() && ps[i] != single_level(),
        t.len() >= ps.len(),
        t.take(ps.len() as int) == ps,
    ensures
        levels_match(ps.push(multi_level()), t),
    decreases ps.len(),
{
    let p = ps.push(multi_level());
    if ps.len() > 0 {
        assert(t[0] == t.take(ps.len() as int)[0]);
        assert(p[0] == ps[0]);
        assert(p.drop_first() =~= ps.drop_first().push(multi_level()));
        assert forall|i: int| 0 <= i < ps.drop_first().len() implies #[trigger] ps.drop_first()[i]
            != multi_level() && ps.drop_first()[i] != single_level() by {
            assert(ps.drop_first()[i] == ps[i + 1]);
        }
        assert(t.drop_first().take(ps.drop_first().len() as int) =~= ps.drop_first()) by {
            assert forall|k: int| 0 <= k < ps.drop_first().len() implies t.drop_first().take(
                ps.drop_first().len() as int,
            )[k] == ps.drop_first()[k] by {
                assert(t.take(ps.len() as int)[k + 1] == t[k + 1]);
            }
        }
        lemma_levels_prefix_then_multi(ps.drop_first(), t.drop_first());
    } else {
        assert(p[0] == multi_level());
    }
}

/// Splitting `prefix/rest` begins with the pieces of `prefix`.
proof fn lemma_split_prefix(prefix: Seq<char>, rest: Seq<char>)
    ensures
        split_on(prefix.push('/') + rest, '/').len() > split_on(prefix, '/').len(),
        split_on(prefix.push('/') + rest, '/').take(split_on(prefix, '/').len() as int)
            == split_on(prefix, '/'),
    decreases rest.len(),
{
    lemma_split_nonempty(prefix, '/');
    let s = prefix.push('/') + rest;
    if rest.len() == 0 {
        assert(s =~= prefix.push('/'));
        assert(s.drop_last() =~= prefix);
        assert(split_on(s, '/').take(split_on(prefix, '/').len() as int) =~= split_on(prefix, '/'));
    } else {
        lemma_split_prefix(prefix, rest.drop_last());
        assert(s.drop_last() =~= prefix.push('/') + rest.drop_last());
        let r = split_on(s.drop_last(), '/');
        let n = split_on(prefix, '/').len();
        assert(split_on(s, '/').take(n as int) =~= split_on(prefix, '/')) by {
            assert forall|k: int| 0 <= k < n implies split_on(s, '/')[k] == r.take(n as int)[k] by {
                assert(r.take(n as int)[k] == r[k]);
            }
        }
    }
}

} // verus!
