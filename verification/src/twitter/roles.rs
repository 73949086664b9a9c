//! TwitterFlux roles: an administrator granted everything and a user
//! granted the everyday tweet, like, follow and message permissions.
use vstd::prelude::*;
use crate::rbac::{
    law_super_admin_covers_three_segments, role_allows, roles_table, PermissionMap, RolePermissions,
};
use crate::text::split_on;

verus! {

/// The roles of TwitterFlux.
pub enum TwitterRole {
    Admin,
    User,
}

/// The patterns granted to an administrator.
pub open spec fn admin_grants() -> Seq<Seq<char>> {
    seq!["*:*:*"@]
}

/// The patterns granted to a user.
pub open spec fn user_grants() -> Seq<Seq<char>> {
    seq![
        "twitter:tweet:create"@,
        "twitter:tweet:read"@,
        "twitter:tweet:list"@,
        "twitter:like:create"@,
        "twitter:like:delete"@,
        "twitter:follow:create"@,
        "twitter:follow:delete"@,
        "twitter:user:read"@,
        "twitter:message:read"@,
        "twitter:message:update"@,
    ]
}

impl RolePermissions for TwitterRole {
    open spec fn spec_role_name(&self) -> Seq<char> {
        match self {
            TwitterRole::Admin => "admin"@,
            TwitterRole::User => "user"@,
        }
    }

    open spec fn spec_granted_permissions(&self) -> Seq<Seq<char>> {
        match self {
            TwitterRole::Admin => admin_grants(),
            TwitterRole::User => user_grants(),
        }
    }

    fn role_name(&self) -> (r: &str) {
        match self {
            TwitterRole::Admin => "admin",
            TwitterRole::User => "user",
        }
    }

    fn granted_permissions(&self) -> (r: &[&str]) {
        match self {
            TwitterRole::Admin => {
                let r: &[&str] = &["*:*:*"];
                assert(crate::rbac::str_views(r@) =~= admin_grants());
                r
            },
            TwitterRole::User => {
                let r: &[&str] = &[
                    "twitter:tweet:create",
                    "twitter:tweet:read",
                    "twitter:tweet:list",
                    "twitter:like:create",
                    "twitter:like:delete",
                    "twitter:follow:create",
                    "twitter:follow:delete",
                    "twitter:user:read",
                    "twitter:message:read",
                    "twitter:message:update",
                ];
                assert(crate::rbac::str_views(r@) =~= user_grants());
                r
            },
        }
    }
}

/// The TwitterFlux role table, role name to granted patterns.
pub open spec fn twitter_roles() -> Map<Seq<char>, Seq<Seq<char>>> {
    Map::<Seq<char>, Seq<Seq<char>>>::empty().insert("admin"@, admin_grants()).insert(
        "user"@,
        user_grants(),
    )
}

/// The TwitterFlux role table: the administrator, then the user.
pub fn twitter_permission_map() -> (m: PermissionMap)
    ensures
        m.wf(),
        m@ == twitter_roles(),
{
    let roles: &[&TwitterRole] = &[&TwitterRole::Admin, &TwitterRole::User];
    assert(roles@.len() == 2);
    assert(roles@[0].spec_role_name() == "admin"@);
    let m = PermissionMap::from_roles(roles);
    proof {
        let names = roles@.map_values(|r: &TwitterRole| r.spec_role_name());
        let grants = roles@.map_values(|r: &TwitterRole| r.spec_granted_permissions());
        assert(names =~= seq!["admin"@, "user"@]);
        assert(grants =~= seq![admin_grants(), user_grants()]);
        assert(names.drop_last() =~= seq!["admin"@]);
        assert(grants.drop_last() =~= seq![admin_grants()]);
        assert(names.drop_last().drop_last() =~= Seq::<Seq<char>>::empty());
        assert(grants.drop_last().drop_last() =~= Seq::<Seq<Seq<char>>>::empty());
        reveal_with_fuel(roles_table, 3);
    }
    m
}

/// The administrator is allowed every permission of the form
/// `module:resource:action`.
pub proof fn law_admin_allowed_everything(permission: Seq<char>)
    requires
        split_on(permission, ':').len() == 3,
    ensures
        role_allows(twitter_roles(), "admin"@, permission),
{
    reveal_strlit("*:*:*");
    reveal_strlit("admin");
    reveal_strlit("user");
    law_super_admin_covers_three_segments(permission);
    assert("admin"@.len() != "user"@.len());
    assert("*:*:*"@ =~= seq!['*', ':', '*', ':', '*']);
    assert(twitter_roles()["admin"@] == admin_grants());
    assert(twitter_roles()["admin"@][0] == "*:*:*"@);
}

} // verus!
