//! Role-based access control: permission patterns, the role → granted
//! patterns table, and the roles applications declare.
use vstd::prelude::*;
use crate::auth::{
    bearer_token, bearer_token_of, is_denied, is_unauthorized, AllowAll, Authenticator,
    AuthorizationHeader, ServiceError,
};
use crate::jwt::{
    decode_hs256, hs256_signature_ok, jwt_error_text, token_role_entry, RoleField,
};
use crate::text::{
    chars_of, concat2, concat5, lemma_split_injective, lemma_split_no_sep, same_text, split_chars, split_on, views_of,
};

verus! {

/// The segment `*`, which a granted pattern uses to match any segment.
pub open spec fn any_segment() -> Seq<char> {
    seq!['*']
}

/// Whether the granted pattern `granted` covers the required permission
/// `required`: both split at `:` into the same number of segments, and each
/// granted segment is `*` or equals the required one.
pub open spec fn permission_covers(required: Seq<char>, granted: Seq<char>) -> bool {
    let r = split_on(required, ':');
    let g = split_on(granted, ':');
    &&& r.len() == g.len()
    &&& forall|i: int| 0 <= i < r.len() ==> #[trigger] g[i] == any_segment() || r[i] == g[i]
}

/// Checks whether the granted pattern `granted` matches the required
/// permission `required` (`module:resource:action`, `*` matching any one
/// segment of the granted pattern).
pub fn permission_matches(required: &str, granted: &str) -> (r: bool)
    ensures
        r == permission_covers(required@, granted@),
{
    let req = split_chars(&chars_of(required), ':');
    let grant = split_chars(&chars_of(granted), ':');
    if req.len() != grant.len() {
        return false;
    }
    let ghost rv = views_of(req@);
    let ghost gv = views_of(grant@);
    let mut i: usize = 0;
    while i < req.len()
        invariant
            req@.len() == grant@.len(),
            rv == views_of(req@),
            gv == views_of(grant@),
            rv == split_on(required@, ':'),
            gv == split_on(granted@, ':'),
            i <= req@.len(),
            forall|k: int| 0 <= k < i ==> #[trigger] gv[k] == any_segment() || rv[k] == gv[k],
        decreases req@.len() - i,
    {
        let g = &grant[i];
        let wild = g.len() == 1 && g[0] == '*';
        assert(wild == (gv[i as int] == any_segment())) by {
            if gv[i as int] == any_segment() {
                assert(g@[0] == '*');
            }
            if wild {
                assert(g@ =~= any_segment());
            }
        }
        assert(rv[i as int] == req@[i as int]@);
        if !wild && !same_text(&req[i], g) {
            assert(!(gv[i as int] == any_segment() || rv[i as int] == gv[i as int]));
            return false;
        }
        i = i + 1;
    }
    true
}

/// Every permission is covered by itself.
pub proof fn law_permission_covers_itself(p: Seq<char>)
    ensures
        permission_covers(p, p),
{
}

/// `*:*:*` covers every permission of three segments.
pub proof fn law_super_admin_covers_three_segments(p: Seq<char>)
    requires
        split_on(p, ':').len() == 3,
    ensures
        permission_covers(p, seq!['*', ':', '*', ':', '*']),
{
    let g = seq!['*', ':', '*', ':', '*'];
    assert(g.drop_last() =~= seq!['*', ':', '*', ':']);
    assert(g.drop_last().drop_last() =~= seq!['*', ':', '*']);
    assert(g.drop_last().drop_last().drop_last() =~= seq!['*', ':']);
    assert(g.drop_last().drop_last().drop_last().drop_last() =~= seq!['*']);
    lemma_split_no_sep(seq!['*'], ':');
    assert(split_on(seq!['*', ':'], ':') =~= seq![seq!['*'], Seq::<char>::empty()]);
    assert(split_on(seq!['*', ':', '*'], ':') =~= seq![seq!['*'], seq!['*']]);
    assert(split_on(seq!['*', ':', '*', ':'], ':') =~= seq![seq!['*'], seq!['*'], Seq::<char>::empty()]);
    assert(split_on(g, ':') =~= seq![seq!['*'], seq!['*'], seq!['*']]);
}

/// A pattern with a different number of segments never covers.
pub proof fn law_segment_count_mismatch(required: Seq<char>, granted: Seq<char>)
    requires
        split_on(required, ':').len() != split_on(granted, ':').len(),
    ensures
        !permission_covers(required, granted),
{
}

/// A granted pattern without a `*` segment covers exactly one permission:
/// itself.
pub proof fn law_pattern_without_wildcard_covers_only_itself(required: Seq<char>, granted: Seq<char>)
    requires
        forall|i: int|
            0 <= i < split_on(granted, ':').len() ==> #[trigger] split_on(granted, ':')[i]
                != any_segment(),
    ensures
        permission_covers(required, granted) <==> required == granted,
{
    if permission_covers(required, granted) {
        let r = split_on(required, ':');
        let g = split_on(granted, ':');
        assert forall|i: int| 0 <= i < r.len() implies r[i] == g[i] by {
            assert(g[i] != any_segment());
        }
        assert(r =~= g);
        lemma_split_injective(required, granted, ':');
    }
    if required == granted {
        law_permission_covers_itself(required);
    }
}

/// A role name and its granted patterns, as the specifications see them.
pub type RoleGrant = (Seq<char>, Seq<Seq<char>>);

/// The granted patterns of the last grant in `s` for role `k`.
pub open spec fn grant_lookup(s: Seq<RoleGrant>, k: Seq<char>) -> Seq<Seq<char>>
    decreases s.len(),
{
    if s.len() == 0 {
        Seq::empty()
    } else if s.last().0 == k {
        s.last().1
    } else {
        grant_lookup(s.drop_last(), k)
    }
}

/// The role table that a sequence of grants writes out.
pub open spec fn grants_map(s: Seq<RoleGrant>) -> Map<Seq<char>, Seq<Seq<char>>> {
    Map::new(
        |k: Seq<char>| exists|i: int| 0 <= i < s.len() && s[i].0 == k,
        |k: Seq<char>| grant_lookup(s, k),
    )
}

/// Whether role `role` in table `m` is granted some pattern covering
/// `permission`.
pub open spec fn role_allows(
    m: Map<Seq<char>, Seq<Seq<char>>>,
    role: Seq<char>,
    permission: Seq<char>,
) -> bool {
    &&& m.contains_key(role)
    &&& exists|i: int| 0 <= i < m[role].len() && permission_covers(permission, #[trigger] m[role][i])
}

/// The texts of a slice of string slices.
pub open spec fn str_views(v: Seq<&str>) -> Seq<Seq<char>> {
    v.map_values(|s: &str| s@)
}

/// The texts of a vector of strings.
pub open spec fn string_texts(v: Seq<String>) -> Seq<Seq<char>> {
    v.map_values(|s: String| s@)
}

/// Roles that grant permission patterns. Applications implement it for
/// their role enums.
pub trait RolePermissions {
    /// The role's name.
    spec fn spec_role_name(&self) -> Seq<char>;

    /// The patterns the role grants.
    spec fn spec_granted_permissions(&self) -> Seq<Seq<char>>;

    /// The role's name.
    fn role_name(&self) -> (r: &str)
        ensures
            r@ == self.spec_role_name(),
    ;

    /// The patterns the role grants.
    fn granted_permissions(&self) -> (r: &[&str])
        ensures
            str_views(r@) == self.spec_granted_permissions(),
    ;
}

struct Grant {
    role: String,
    role_chars: Vec<char>,
    patterns: Vec<String>,
}

spec fn grant_views(v: Seq<Grant>) -> Seq<RoleGrant> {
    v.map_values(|g: Grant| (g.role@, string_texts(g.patterns@)))
}

/// Role name → granted permission patterns.
pub struct PermissionMap {
    roles: Vec<Grant>,
}

impl View for PermissionMap {
    type V = Map<Seq<char>, Seq<Seq<char>>>;

    /// The granted patterns by role name.
    closed spec fn view(&self) -> Map<Seq<char>, Seq<Seq<char>>> {
        grants_map(grant_views(self.roles@))
    }
}

/// The grants of a sequence name distinct roles.
pub open spec fn distinct_roles(s: Seq<RoleGrant>) -> bool {
    forall|i: int, j: int| 0 <= i < s.len() && 0 <= j < s.len() && i != j ==> #[trigger] s[i].0 != #[trigger] s[j].0
}

proof fn lemma_grant_lookup(s: Seq<RoleGrant>, i: int)
    requires
        distinct_roles(s),
        0 <= i < s.len(),
    ensures
        grants_map(s).contains_key(s[i].0),
        grants_map(s)[s[i].0] == s[i].1,
    decreases s.len(),
{
    let k = s[i].0;
    assert(exists|j: int| 0 <= j < s.len() && s[j].0 == k);
    if i != s.len() - 1 {
        let t = s.drop_last();
        assert(s[i].0 != s[s.len() - 1].0);
        assert(t[i] == s[i]);
        assert(distinct_roles(t)) by {
            assert forall|a: int, b: int| 0 <= a < t.len() && 0 <= b < t.len() && a != b implies #[trigger] t[a].0
                != #[trigger] t[b].0 by {
                assert(t[a] == s[a] && t[b] == s[b]);
            }
        }
        lemma_grant_lookup(t, i);
    }
}

/// The table of roles that `from_roles` builds: each role in turn
/// registered over the previous ones.
pub open spec fn roles_table(names: Seq<Seq<char>>, grants: Seq<Seq<Seq<char>>>) -> Map<
    Seq<char>,
    Seq<Seq<char>>,
>
    decreases names.len(),
{
    if names.len() == 0 || names.len() != grants.len() {
        Map::empty()
    } else {
        roles_table(names.drop_last(), grants.drop_last()).insert(names.last(), grants.last())
    }
}

impl PermissionMap {
    /// Role names are distinct and kept alongside as characters.
    pub closed spec fn wf(&self) -> bool {
        &&& distinct_roles(grant_views(self.roles@))
        &&& forall|i: int|
            0 <= i < self.roles@.len() ==> (#[trigger] self.roles@[i]).role_chars@
                == self.roles@[i].role@
    }

    /// An empty table.
    pub fn new() -> (m: Self)
        ensures
            m.wf(),
            m@ == Map::<Seq<char>, Seq<Seq<char>>>::empty(),
    {
        let m = PermissionMap { roles: Vec::new() };
        assert(m@ =~= Map::<Seq<char>, Seq<Seq<char>>>::empty());
        m
    }

    fn find(&self, role: &Vec<char>) -> (r: Option<usize>)
        requires
            self.wf(),
        ensures
            r matches Some(i) ==> i < self.roles@.len() && self.roles@[i as int].role@ == role@,
            r is None ==> forall|i: int| 0 <= i < self.roles@.len() ==> #[trigger] self.roles@[i].role@ != role@,
    {
        let mut i: usize = 0;
        while i < self.roles.len()
            invariant
                self.wf(),
                i <= self.roles@.len(),
                forall|j: int| 0 <= j < i ==> #[trigger] self.roles@[j].role@ != role@,
            decreases self.roles@.len() - i,
        {
            assert(self.roles@[i as int].role_chars@ == self.roles@[i as int].role@);
            if same_text(&self.roles[i].role_chars, role) {
                return Some(i);
            }
            i = i + 1;
        }
        None
    }

    proof fn lemma_find_view(&self, role: Seq<char>, r: Option<usize>)
        requires
            self.wf(),
            r matches Some(i) ==> i < self.roles@.len() && self.roles@[i as int].role@ == role,
            r is None ==> forall|i: int| 0 <= i < self.roles@.len() ==> #[trigger] self.roles@[i].role@ != role,
        ensures
            self@.contains_key(role) == r is Some,
            r matches Some(i) ==> self@[role] == string_texts(self.roles@[i as int].patterns@),
    {
        let s = grant_views(self.roles@);
        match r {
            Some(i) => {
                lemma_grant_lookup(s, i as int);
            },
            None => {
                assert forall|i: int| 0 <= i < s.len() implies s[i].0 != role by {
                    assert(s[i].0 == self.roles@[i].role@);
                }
            },
        }
    }

    /// Registers `role_name` with the given granted patterns, replacing any
    /// patterns it had.
    pub fn add_role(&mut self, role_name: &str, permissions: &[&str])
        requires
            old(self).wf(),
        ensures
            final(self).wf(),
            final(self)@ == old(self)@.insert(role_name@, str_views(permissions@)),
    {
        let mut patterns: Vec<String> = Vec::new();
        let mut k: usize = 0;
        while k < permissions.len()
            invariant
                k <= permissions@.len(),
                string_texts(patterns@) == str_views(permissions@).take(k as int),
            decreases permissions@.len() - k,
        {
            let ghost before = patterns@;
            let p = permissions[k].to_owned();
            patterns.push(p);
            assert(string_texts(patterns@) =~= string_texts(before).push(p@));
            assert(str_views(permissions@).take(k as int + 1) =~= str_views(permissions@).take(k as int).push(permissions@[k as int]@));
            k = k + 1;
        }
        assert(str_views(permissions@).take(k as int) =~= str_views(permissions@));
        let role_chars = chars_of(role_name);
        let found = self.find(&role_chars);
        proof {
            self.lemma_find_view(role_name@, found);
        }
        let ghost s = grant_views(self.roles@);
        let ghost g = (role_name@, str_views(permissions@));
        let grant = Grant { role: role_name.to_owned(), role_chars, patterns };
        match found {
            Some(i) => {
                self.roles.set(i, grant);
                proof {
                    let t = grant_views(self.roles@);
                    assert(t =~= s.update(i as int, g));
                    assert(distinct_roles(t)) by {
                        assert forall|a: int, b: int| 0 <= a < t.len() && 0 <= b < t.len() && a != b implies #[trigger] t[a].0
                            != #[trigger] t[b].0 by {
                            assert(t[a].0 == s[a].0 && t[b].0 == s[b].0);
                        }
                    }
                    self.lemma_map_after_change(s, t, i as int, g);
                }
            },
            None => {
                self.roles.push(grant);
                proof {
                    let t = grant_views(self.roles@);
                    assert(t =~= s.push(g));
                    assert(distinct_roles(t)) by {
                        assert forall|a: int, b: int| 0 <= a < t.len() && 0 <= b < t.len() && a != b implies #[trigger] t[a].0
                            != #[trigger] t[b].0 by {
                            if a < s.len() && b < s.len() {
                                assert(t[a] == s[a] && t[b] == s[b]);
                            } else if a < s.len() {
                                assert(t[a] == s[a]);
                                assert(s[a].0 == old(self).roles@[a].role@);
                            } else {
                                assert(t[b] == s[b]);
                                assert(s[b].0 == old(self).roles@[b].role@);
                            }
                        }
                    }
                    self.lemma_map_after_change(s, t, s.len() as int, g);
                }
            },
        }
        assert forall|i: int| 0 <= i < self.roles@.len() implies (#[trigger] self.roles@[i]).role_chars@
            == self.roles@[i].role@ by {}
    }

    /// Changing or appending grant `i` of a distinct-role sequence to `g`
    /// writes `g` into the table.
    proof fn lemma_map_after_change(&self, s: Seq<RoleGrant>, t: Seq<RoleGrant>, i: int, g: RoleGrant)
        requires
            distinct_roles(s),
            distinct_roles(t),
            0 <= i <= s.len(),
            i == s.len() ==> t == s.push(g) && forall|a: int| 0 <= a < s.len() ==> #[trigger] s[a].0 != g.0,
            i < s.len() ==> t == s.update(i, g) && s[i].0 == g.0,
        ensures
            grants_map(t) == grants_map(s).insert(g.0, g.1),
    {
        assert forall|k: Seq<char>| #[trigger] grants_map(t).contains_key(k) == grants_map(s).insert(g.0, g.1).contains_key(k) by {
            if grants_map(t).contains_key(k) {
                let a = choose|a: int| 0 <= a < t.len() && t[a].0 == k;
                if a != i {
                    assert(s[a] == t[a]);
                }
            }
            if grants_map(s).contains_key(k) {
                let a = choose|a: int| 0 <= a < s.len() && s[a].0 == k;
                assert(t[a].0 == k);
            }
            if k == g.0 {
                assert(t[i].0 == k);
            }
        }
        assert forall|k: Seq<char>| #[trigger] grants_map(t).contains_key(k) implies grants_map(t)[k] == grants_map(s).insert(g.0, g.1)[k] by {
            let a = choose|a: int| 0 <= a < t.len() && t[a].0 == k;
            lemma_grant_lookup(t, a);
            if a != i {
                assert(s[a] == t[a]);
                lemma_grant_lookup(s, a);
            }
        }
        assert(grants_map(t) =~= grants_map(s).insert(g.0, g.1));
    }

    /// Builds the table from role values, registering each in turn.
    pub fn from_roles<R: RolePermissions>(roles: &[&R]) -> (m: Self)
        ensures
            m.wf(),
            m@ == roles_table(
                roles@.map_values(|r: &R| r.spec_role_name()),
                roles@.map_values(|r: &R| r.spec_granted_permissions()),
            ),
    {
        let mut m = PermissionMap::new();
        let ghost names = roles@.map_values(|r: &R| r.spec_role_name());
        let ghost grants = roles@.map_values(|r: &R| r.spec_granted_permissions());
        let mut i: usize = 0;
        assert(m@ =~= roles_table(names.take(0), grants.take(0)));
        while i < roles.len()
            invariant
                m.wf(),
                i <= roles@.len(),
                names == roles@.map_values(|r: &R| r.spec_role_name()),
                grants == roles@.map_values(|r: &R| r.spec_granted_permissions()),
                m@ == roles_table(names.take(i as int), grants.take(i as int)),
            decreases roles@.len() - i,
        {
            let role = roles[i];
            let name = role.role_name();
            let granted = role.granted_permissions();
            m.add_role(name, granted);
            assert(names.take(i as int + 1).drop_last() =~= names.take(i as int));
            assert(grants.take(i as int + 1).drop_last() =~= grants.take(i as int));
            assert(names.take(i as int + 1).last() == names[i as int]);
            assert(grants.take(i as int + 1).last() == grants[i as int]);
            i = i + 1;
        }
        assert(names.take(i as int) =~= names);
        assert(grants.take(i as int) =~= grants);
        m
    }

    /// Whether `role_name` is granted a pattern covering
    /// `required_permission`; an unknown role is granted nothing.
    pub fn is_allowed(&self, role_name: &str, required_permission: &str) -> (r: bool)
        requires
            self.wf(),
        ensures
            r == role_allows(self@, role_name@, required_permission@),
    {
        let role_chars = chars_of(role_name);
        let found = self.find(&role_chars);
        proof {
            self.lemma_find_view(role_name@, found);
        }
        match found {
            None => false,
            Some(i) => {
                let granted = &self.roles[i].patterns;
                let ghost gv = string_texts(granted@);
                let mut k: usize = 0;
                while k < granted.len()
                    invariant
                        k <= granted@.len(),
                        gv == string_texts(granted@),
                        self@.contains_key(role_name@),
                        self@[role_name@] == gv,
                        forall|j: int| 0 <= j < k ==> !permission_covers(required_permission@, #[trigger] gv[j]),
                    decreases granted@.len() - k,
                {
                    if permission_matches(required_permission, granted[k].as_str()) {
                        assert(permission_covers(required_permission@, gv[k as int]));
                        assert(self@[role_name@][k as int] == gv[k as int]);
                        return true;
                    }
                    k = k + 1;
                }
                false
            },
        }
    }

    /// The patterns granted to `role_name`, in the order registered; none
    /// for an unknown role.
    pub fn permissions_for(&self, role_name: &str) -> (r: Vec<String>)
        requires
            self.wf(),
        ensures
            self@.contains_key(role_name@) ==> string_texts(r@) == self@[role_name@],
            !self@.contains_key(role_name@) ==> r@.len() == 0,
    {
        let role_chars = chars_of(role_name);
        let found = self.find(&role_chars);
        proof {
            self.lemma_find_view(role_name@, found);
        }
        match found {
            None => Vec::new(),
            Some(i) => {
                let granted = &self.roles[i].patterns;
                let mut r: Vec<String> = Vec::new();
                let mut k: usize = 0;
                while k < granted.len()
                    invariant
                        k <= granted@.len(),
                        string_texts(r@) == string_texts(granted@).take(k as int),
                    decreases granted@.len() - k,
                {
                    let ghost before = r@;
                    let p = granted[k].clone();
                    r.push(p);
                    assert(string_texts(r@) =~= string_texts(before).push(p@));
                    assert(string_texts(r@) =~= string_texts(granted@).take(k as int + 1));
                    k = k + 1;
                }
                assert(string_texts(granted@).take(k as int) =~= string_texts(granted@));
                r
            },
        }
    }
}

impl Default for PermissionMap {
    /// An empty table.
    fn default() -> (m: Self)
        ensures
            m.wf(),
            m@ == Map::<Seq<char>, Seq<Seq<char>>>::empty(),
    {
        PermissionMap::new()
    }
}

/// The `role` claim of a verified token.
#[derive(Debug, Clone)]
pub enum ClaimedRole {
    /// No `role` claim, or a null one.
    Absent,
    /// A textual `role` claim.
    Named(String),
    /// A `role` claim that is neither text nor null.
    Malformed,
}

/// The role a claim stands for: its text, or `user` when absent.
pub open spec fn claimed_role_name(c: ClaimedRole) -> Seq<char> {
    match c {
        ClaimedRole::Named(s) => s@,
        _ => "user"@,
    }
}

/// The message refusing `role` the permission `permission`.
pub open spec fn denial_message(role: Seq<char>, permission: Seq<char>) -> Seq<char> {
    "role '"@ + role + "' lacks permission '"@ + permission + "'"@
}

/// The outcome of an RBAC check with role table `perms` once the token was
/// decoded to `decoded` (its error text if decoding failed).
pub open spec fn rbac_outcome(
    perms: Map<Seq<char>, Seq<Seq<char>>>,
    decoded: Result<ClaimedRole, String>,
    permission: Seq<char>,
    r: Result<(), ServiceError>,
) -> bool {
    match decoded {
        Err(e) => is_unauthorized(r, "invalid token: "@ + e@),
        Ok(ClaimedRole::Malformed) => is_unauthorized(r, "invalid token: role claim is not a string"@),
        Ok(c) => if role_allows(perms, claimed_role_name(c), permission) {
            r is Ok
        } else {
            is_denied(r, denial_message(claimed_role_name(c), permission))
        },
    }
}

/// The role claim that a `role` entry stands for: none when the entry is
/// missing or null, its text when it is a string, malformed otherwise.
pub open spec fn claimed_role_of(field: RoleField) -> ClaimedRole {
    match field {
        RoleField::Missing => ClaimedRole::Absent,
        RoleField::Null => ClaimedRole::Absent,
        RoleField::Text(s) => ClaimedRole::Named(s),
        RoleField::Other => ClaimedRole::Malformed,
    }
}

/// The role claim that the `role` entry `field` of a token stands for.
pub fn claimed_role(field: RoleField) -> (c: ClaimedRole)
    ensures
        c == claimed_role_of(field),
{
    match field {
        RoleField::Missing => ClaimedRole::Absent,
        RoleField::Null => ClaimedRole::Absent,
        RoleField::Text(s) => ClaimedRole::Named(s),
        RoleField::Other => ClaimedRole::Malformed,
    }
}

/// The outcome of an RBAC check of a request whose `Authorization` header is
/// `authorization`, with role table `perms` and secret `secret`: without a
/// `Bearer` token it is unauthorized; with token `t` it is the outcome of
/// some decoding of `t`, and a decoding that succeeded had a valid HS256
/// signature for `secret` and read the token's own `role` entry.
pub open spec fn rbac_check_outcome(
    perms: Map<Seq<char>, Seq<Seq<char>>>,
    secret: Seq<char>,
    authorization: AuthorizationHeader,
    permission: Seq<char>,
    r: Result<(), ServiceError>,
) -> bool {
    match bearer_token(authorization) {
        None => is_unauthorized(r, "missing or invalid authorization header"@),
        Some(t) => exists|d: Result<ClaimedRole, String>|
            rbac_outcome(perms, d, permission, r) && (d is Ok ==> hs256_signature_ok(t, secret)
                && d == Ok::<ClaimedRole, String>(claimed_role_of(token_role_entry(t)))),
    }
}

/// A request an RBAC check lets through carries a `Bearer` token with a
/// valid HS256 signature for `secret`, whose role is granted `permission`.
pub open spec fn rbac_passed(
    perms: Map<Seq<char>, Seq<Seq<char>>>,
    secret: Seq<char>,
    authorization: AuthorizationHeader,
    permission: Seq<char>,
) -> bool {
    bearer_token(authorization) matches Some(t) && hs256_signature_ok(t, secret) && role_allows(
        perms,
        claimed_role_name(claimed_role_of(token_role_entry(t))),
        permission,
    )
}

/// Verifies an HMAC-SHA256 JWT `Bearer` credential and checks that the
/// token's role (`user` when the token names none) is granted the
/// required permission.
pub struct RbacAuthenticator {
    secret: String,
    permissions: PermissionMap,
}

impl RbacAuthenticator {
    #[verifier::type_invariant]
    spec fn inv(&self) -> bool {
        self.permissions.wf()
    }

    /// The role table the authenticator checks against.
    pub closed spec fn permissions(&self) -> Map<Seq<char>, Seq<Seq<char>>> {
        self.permissions@
    }

    /// The secret that tokens must be signed with.
    pub closed spec fn secret(&self) -> Seq<char> {
        self.secret@
    }

    /// An authenticator for tokens signed with `secret`, checking roles
    /// against `permissions`.
    pub fn new(secret: &str, permissions: PermissionMap) -> (r: Self)
        requires
            permissions.wf(),
        ensures
            r.permissions() == permissions@,
            r.secret() == secret@,
    {
        RbacAuthenticator { secret: secret.to_owned(), permissions }
    }

    /// The outcome once the token was decoded to `decoded`.
    pub fn decide(&self, decoded: Result<ClaimedRole, String>, permission: &str) -> (r: Result<
        (),
        ServiceError,
    >)
        ensures
            rbac_outcome(self.permissions(), decoded, permission@, r),
    {
        proof {
            use_type_invariant(self);
        }
        match decoded {
            Err(e) => Err(ServiceError::Unauthorized(concat2("invalid token: ", e.as_str()))),
            Ok(ClaimedRole::Malformed) => Err(
                ServiceError::Unauthorized("invalid token: role claim is not a string".to_owned()),
            ),
            Ok(c) => {
                let role: &str = match &c {
                    ClaimedRole::Named(s) => s.as_str(),
                    _ => "user",
                };
                assert(role@ == claimed_role_name(c));
                if self.permissions.is_allowed(role, permission) {
                    Ok(())
                } else {
                    Err(
                        ServiceError::PermissionDenied(
                            concat5("role '", role, "' lacks permission '", permission, "'"),
                        ),
                    )
                }
            },
        }
    }
}

impl Authenticator for RbacAuthenticator {
    fn check(&self, authorization: &AuthorizationHeader, permission: &str) -> (r: Result<(), ServiceError>)
        ensures
            rbac_check_outcome(self.permissions(), self.secret(), *authorization, permission@, r),
            r is Ok ==> rbac_passed(self.permissions(), self.secret(), *authorization, permission@),
    {
        match bearer_token_of(authorization) {
            None => Err(
                ServiceError::Unauthorized("missing or invalid authorization header".to_owned()),
            ),
            Some(token) => {
                let decoded = match decode_hs256(token.as_str(), self.secret.as_str()) {
                    Ok(field) => Ok(claimed_role(field)),
                    Err(e) => Err(jwt_error_text(&e)),
                };
                let r = self.decide(decoded, permission);
                assert(rbac_outcome(self.permissions(), decoded, permission@, r));
                r
            },
        }
    }
}

/// Which authenticator protects the admin routes.
#[derive(Debug, Clone, Copy, PartialEq, Eq, Structural)]
pub enum AuthMode {
    /// Allow everything (development only).
    AllowAll,
    /// Verify tokens and check roles.
    Rbac,
}

/// The environment variable that selects the mode.
pub const AUTH_MODE_ENV: &'static str = "APPNUT_AUTH_MODE";

/// The mode a setting of `APPNUT_AUTH_MODE` selects: `allow_all` selects
/// allowing everything, anything else or no setting selects RBAC.
pub fn auth_mode(setting: Option<&str>) -> (m: AuthMode)
    ensures
        (m == AuthMode::AllowAll) == (setting matches Some(s) && s@ == "allow_all"@),
{
    match setting {
        None => AuthMode::Rbac,
        Some(s) => {
            if same_text(&chars_of(s), &chars_of("allow_all")) {
                AuthMode::AllowAll
            } else {
                AuthMode::Rbac
            }
        },
    }
}

/// The authenticator `resolve_auth_mode` picks.
pub enum ResolvedAuthenticator {
    AllowAll(AllowAll),
    Rbac(RbacAuthenticator),
}

impl Authenticator for ResolvedAuthenticator {
    fn check(&self, authorization: &AuthorizationHeader, permission: &str) -> (r: Result<(), ServiceError>)
        ensures
            *self is AllowAll ==> r is Ok,
            *self matches ResolvedAuthenticator::Rbac(a) ==> rbac_check_outcome(
                a.permissions(),
                a.secret(),
                *authorization,
                permission@,
                r,
            ),
            *self matches ResolvedAuthenticator::Rbac(a) ==> (r is Ok ==> rbac_passed(
                a.permissions(),
                a.secret(),
                *authorization,
                permission@,
            )),
    {
        match self {
            ResolvedAuthenticator::AllowAll(a) => a.check(authorization, permission),
            ResolvedAuthenticator::Rbac(a) => a.check(authorization, permission),
        }
    }
}

/// Picks the authenticator for a setting of `APPNUT_AUTH_MODE`: allow
/// everything for `allow_all`, otherwise the given RBAC authenticator.
pub fn resolve_auth_mode(rbac: RbacAuthenticator, setting: Option<&str>) -> (r: ResolvedAuthenticator)
    ensures
        (r is AllowAll) == (setting matches Some(s) && s@ == "allow_all"@),
        r matches ResolvedAuthenticator::Rbac(a) ==> a.permissions() == rbac.permissions()
            && a.secret() == rbac.secret(),
{
    match auth_mode(setting) {
        AuthMode::AllowAll => ResolvedAuthenticator::AllowAll(AllowAll),
        AuthMode::Rbac => ResolvedAuthenticator::Rbac(rbac),
    }
}

} // verus!
