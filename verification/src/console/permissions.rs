//! Who may do what in the console: permission keys, the superuser wildcard,
//! the cache of loaded permissions, and the user context that pages show.

use crate::console::addons::views;
use crate::text::{concat, str_eq};
use vstd::prelude::*;

verus! {

/// The permission key of an action on a resource: `resource:action`.
pub open spec fn permission_key_spec(resource: Seq<char>, action: Seq<char>) -> Seq<char> {
    resource + ":"@ + action
}

/// The permission key of an action on a resource: `resource:action`.
pub fn permission_key(resource: &str, action: &str) -> (r: String)
    ensures
        r@ == permission_key_spec(resource@, action@),
{
    let mut s = concat(resource, ":");
    s.append(action);
    s
}

/// The permission that grants everything; superusers hold it.
pub open spec fn wildcard() -> Seq<char> {
    "*"@
}

/// Whether no permission is listed twice.
pub open spec fn distinct_views(s: Seq<String>) -> bool {
    forall|i: int, j: int| 0 <= i < j < s.len() ==> s[i]@ != s[j]@
}

/// Whether a list of permissions holds `key`.
pub fn contains_permission(perms: &Vec<String>, key: &str) -> (r: bool)
    ensures
        r == views(perms@).contains(key@),
{
    let n = perms.len();
    let mut i: usize = 0;
    while i < n
        invariant
            i <= n == perms.len(),
            forall|j: int| 0 <= j < i ==> (#[trigger] perms@[j])@ != key@,
        decreases n - i,
    {
        if str_eq(perms[i].as_str(), key) {
            assert(views(perms@)[i as int] == key@);
            return true;
        }
        i = i + 1;
    }
    proof {
        if views(perms@).contains(key@) {
            let k = choose|k: int| 0 <= k < views(perms@).len() && views(perms@)[k] == key@;
            assert(perms@[k]@ == key@);
        }
    }
    false
}

/// The permissions of a superuser: the wildcard alone.
pub fn superuser_permissions() -> (r: Vec<String>)
    ensures
        views(r@) == seq![wildcard()],
{
    let mut s: Vec<String> = Vec::new();
    s.push("*".to_owned());
    assert(views(s@) =~= seq![wildcard()]);
    s
}

/// Whether a user may perform `action` on `resource`: superusers may do
/// anything; other users hold the permission key.
pub open spec fn granted(
    is_superuser: bool,
    perms: Seq<Seq<char>>,
    resource: Seq<char>,
    action: Seq<char>,
) -> bool {
    is_superuser || perms.contains(permission_key_spec(resource, action))
}

/// Whether a user may perform `action` on `resource`, given the permissions loaded for it.
pub fn has_permission(is_superuser: bool, perms: &Vec<String>, resource: &str, action: &str) -> (r:
    bool)
    ensures
        r == granted(is_superuser, views(perms@), resource@, action@),
{
    if is_superuser {
        return true;
    }
    let key = permission_key(resource, action);
    contains_permission(perms, key.as_str())
}

/// Seconds that loaded permissions stay in the cache.
pub const PERMISSION_CACHE_TTL_SECS: u64 = 300;

/// Where the permissions of a user come from.
#[derive(Debug)]
pub enum PermissionSource {
    /// The wildcard: the user is a superuser.
    Wildcard,
    /// The cache entry, which is fresh.
    Cache,
    /// The database; the result is then cached.
    Database,
}

/// Where the permissions of a user come from: superusers hold the wildcard;
/// otherwise a cache entry younger than the time to live is used, and the
/// database is read when there is none.
pub fn permission_source(is_superuser: bool, cached_age_secs: Option<u64>) -> (r: PermissionSource)
    ensures
        is_superuser ==> r is Wildcard,
        !is_superuser ==> (r is Cache <==> (cached_age_secs matches Some(a) && a
            < PERMISSION_CACHE_TTL_SECS)),
        !is_superuser ==> (r is Database <==> !(cached_age_secs matches Some(a) && a
            < PERMISSION_CACHE_TTL_SECS)),
{
    if is_superuser {
        return PermissionSource::Wildcard;
    }
    match cached_age_secs {
        Some(age) => {
            if age < PERMISSION_CACHE_TTL_SECS {
                PermissionSource::Cache
            } else {
                PermissionSource::Database
            }
        },
        None => PermissionSource::Database,
    }
}

/// The permission keys of the role grants `(resource, action)` of a user.
pub open spec fn grant_keys(grants: Seq<(String, String)>) -> Seq<Seq<char>> {
    grants.map_values(|g: (String, String)| permission_key_spec(g.0@, g.1@))
}

/// The set of permissions that a user's role grants give, each once.
pub fn permissions_from_grants(grants: &Vec<(String, String)>) -> (r: Vec<String>)
    ensures
        distinct_views(r@),
        forall|k: Seq<char>| views(r@).contains(k) <==> grant_keys(grants@).contains(k),
{
    let mut out: Vec<String> = Vec::new();
    let n = grants.len();
    let mut i: usize = 0;
    while i < n
        invariant
            i <= n == grants.len(),
            distinct_views(out@),
            forall|k: Seq<char>|
                views(out@).contains(k) <==> grant_keys(grants@).take(i as int).contains(k),
        decreases n - i,
    {
        let key = permission_key(grants[i].0.as_str(), grants[i].1.as_str());
        let ghost before = views(out@);
        let ghost gk = grant_keys(grants@);
        let ghost t0 = gk.take(i as int);
        let ghost t1 = gk.take(i + 1);
        assert(t1 =~= t0.push(key@));
        if !contains_permission(&out, key.as_str()) {
            out.push(key);
            assert(views(out@) =~= before.push(gk[i as int]));
            assert forall|a: int, b: int| 0 <= a < b < out@.len() implies out@[a]@ != out@[b]@ by {
                if b == before.len() {
                    assert(before[a] == out@[a]@);
                }
            }
            assert forall|k: Seq<char>| views(out@).contains(k) <==> t1.contains(k) by {
                if views(out@).contains(k) {
                    let j = choose|j: int| 0 <= j < views(out@).len() && views(out@)[j] == k;
                    if j < before.len() {
                        assert(before[j] == k);
                        assert(before.contains(k));
                        assert(t0.contains(k));
                        let m = choose|m: int| 0 <= m < t0.len() && t0[m] == k;
                        assert(t1[m] == k);
                    } else {
                        assert(t1[i as int] == k);
                    }
                }
                if t1.contains(k) {
                    let j = choose|j: int| 0 <= j < t1.len() && t1[j] == k;
                    if j < i {
                        assert(t0[j] == k);
                        assert(before.contains(k));
                        let m = choose|m: int| 0 <= m < before.len() && before[m] == k;
                        assert(views(out@)[m] == k);
                    } else {
                        assert(views(out@)[before.len() as int] == k);
                    }
                }
            }
        } else {
            assert forall|k: Seq<char>| views(out@).contains(k) <==> t1.contains(k) by {
                if t1.contains(k) {
                    let j = choose|j: int| 0 <= j < t1.len() && t1[j] == k;
                    if j < i {
                        assert(t0[j] == k);
                    }
                }
                if views(out@).contains(k) {
                    assert(t0.contains(k));
                    let j = choose|j: int| 0 <= j < t0.len() && t0[j]
                        == k;
                    assert(t1[j] == k);
                }
            }
        }
        i = i + 1;
    }
    assert(grant_keys(grants@).take(n as int) =~= grant_keys(grants@));
    out
}

/// The fields of a console user that pages show.
#[derive(Clone, Debug)]
pub struct UserSummary {
    pub id: i64,
    pub username: String,
    pub email: String,
    pub is_superuser: bool,
    pub is_staff: bool,
    pub is_active: bool,
}

/// The current user as page templates see it.
#[derive(Clone, Debug)]
pub struct CurrentUserCtx {
    pub id: i64,
    pub username: String,
    pub email: String,
    pub is_superuser: bool,
    pub is_staff: bool,
    pub is_active: bool,
    pub permissions: Vec<String>,
    pub can_manage_users: bool,
    pub can_write_system: bool,
}

/// The current user as page templates see it: its fields, its permissions
/// (the wildcard alone for a superuser), and whether it may manage users and
/// write system settings.
pub fn build_current_user_ctx(user: &UserSummary, perms: &Vec<String>) -> (r: CurrentUserCtx)
    ensures
        r.id == user.id,
        r.username@ == user.username@,
        r.email@ == user.email@,
        r.is_superuser == user.is_superuser,
        r.is_staff == user.is_staff,
        r.is_active == user.is_active,
        user.is_superuser ==> views(r.permissions@) == seq![wildcard()],
        !user.is_superuser ==> views(r.permissions@) == views(perms@),
        r.can_manage_users == (user.is_superuser || views(perms@).contains("users:manage"@)),
        r.can_write_system == (user.is_superuser || views(perms@).contains("system:write"@)),
{
    let perm_list = if user.is_superuser {
        superuser_permissions()
    } else {
        let mut l: Vec<String> = Vec::new();
        for i in 0..perms.len()
            invariant
                l@.len() == i,
                forall|j: int| 0 <= j < i ==> (#[trigger] l@[j])@ == perms@[j]@,
        {
            l.push(perms[i].clone());
        }
        assert(views(l@) =~= views(perms@));
        l
    };
    let can_manage_users = user.is_superuser || contains_permission(perms, "users:manage");
    let can_write_system = user.is_superuser || contains_permission(perms, "system:write");
    CurrentUserCtx {
        id: user.id,
        username: user.username.clone(),
        email: user.email.clone(),
        is_superuser: user.is_superuser,
        is_staff: user.is_staff,
        is_active: user.is_active,
        permissions: perm_list,
        can_manage_users,
        can_write_system,
    }
}

/// A superuser may perform every action on every resource.
pub proof fn lemma_superuser_granted(perms: Seq<Seq<char>>, resource: Seq<char>, action: Seq<char>)
    ensures
        granted(true, perms, resource, action),
{
}

/// A user without permissions may do nothing unless it is a superuser.
pub proof fn lemma_no_permissions_denied(resource: Seq<char>, action: Seq<char>)
    ensures
        !granted(false, Seq::empty(), resource, action),
{
}

} // verus!
