//! Permission resolution: effective permissions of a member in a guild or
//! channel, and the role-hierarchy rules for managing roles and moderating
//! members.

use vstd::prelude::*;

use super::guild::{
    describe_text, lemma_perms_with_bits, perms_with_bits, GuildPermissions, ALL_BITS,
    MANAGE_ROLES_BIT,
};
use crate::text::{decimal, push_decimal, push_str};
use super::models::{ChannelOverride, GuildRole};

verus! {

/// Bitwise OR of `f` over every element of `s` (0 for an empty sequence).
pub open spec fn or_fold<A>(s: Seq<A>, f: spec_fn(A) -> u64) -> u64
    decreases s.len(),
{
    if s.len() == 0 {
        0
    } else {
        or_fold(s.drop_last(), f) | f(s.last())
    }
}

/// The permission bits that a role grants.
pub open spec fn role_bits() -> spec_fn(GuildRole) -> u64 {
    |r: GuildRole| r.permissions@
}

/// The first override in `ovs` that names the role `role_id`.
pub open spec fn first_override(ovs: Seq<ChannelOverride>, role_id: u128) -> Option<ChannelOverride>
    decreases ovs.len(),
{
    if ovs.len() == 0 {
        None
    } else if ovs[0].role_id == role_id {
        Some(ovs[0])
    } else {
        first_override(ovs.subrange(1, ovs.len() as int), role_id)
    }
}

/// The bits that the first override of a role allows (0 when it has none).
pub open spec fn override_allow(ovs: Seq<ChannelOverride>) -> spec_fn(GuildRole) -> u64 {
    |r: GuildRole|
        match first_override(ovs, r.id) {
            Some(o) => o.allow_permissions@,
            None => 0,
        }
}

/// The bits that the first override of a role denies (0 when it has none).
pub open spec fn override_deny(ovs: Seq<ChannelOverride>) -> spec_fn(GuildRole) -> u64 {
    |r: GuildRole|
        match first_override(ovs, r.id) {
            Some(o) => o.deny_permissions@,
            None => 0,
        }
}

/// Effective permission bits of a user.
///
/// 1. The guild owner has every permission.
/// 2. Otherwise: the @everyone permissions, plus every assigned role's permissions.
/// 3. With a channel context, the allows of the roles' overrides are added and
///    then every bit denied by any of them is removed: deny wins.
pub open spec fn guild_permissions_bits(
    user_id: u128,
    guild_owner_id: u128,
    everyone: u64,
    roles: Seq<GuildRole>,
    overrides: Option<Seq<ChannelOverride>>,
) -> u64 {
    if guild_owner_id == user_id {
        ALL_BITS
    } else {
        let base = everyone | or_fold(roles, role_bits());
        match overrides {
            None => base,
            Some(ovs) => (base | or_fold(roles, override_allow(ovs))) & !or_fold(
                roles,
                override_deny(ovs),
            ),
        }
    }
}

/// The view of an optional slice of overrides.
pub open spec fn overrides_view(o: Option<&[ChannelOverride]>) -> Option<Seq<ChannelOverride>> {
    match o {
        Some(s) => Some(s@),
        None => None,
    }
}

/// Algebra of bitwise OR used by the folds.
pub proof fn lemma_or_algebra(a: u64, b: u64, c: u64)
    by (bit_vector)
    ensures
        (a | b) | c == a | (b | c),
        a | b == b | a,
        a | 0 == a,
        0 | a == a,
        a | a == a,
{
}

/// Subset facts of bitwise OR, AND and complement.
pub proof fn lemma_subset_algebra(a: u64, b: u64, x: u64)
    by (bit_vector)
    ensures
        (a | b) & a == a,
        (a | b) & b == b,
        a & (a | b) == a,
        b & (a | b) == b,
        a & b == a ==> (x & !b) & a == 0,
        a & b == a ==> a & (b | x) == a,
        (x & !b) & b == 0,
        a & !b == 0 ==> a & b == a,
{
}

/// Folding one more element onto a prefix.
proof fn lemma_or_fold_take<A>(s: Seq<A>, f: spec_fn(A) -> u64, i: int)
    requires
        0 <= i < s.len(),
    ensures
        or_fold(s.take(i + 1), f) == or_fold(s.take(i), f) | f(s[i]),
{
    assert(s.take(i + 1).drop_last() =~= s.take(i));
}

/// Taking one element out of the middle of a fold.
proof fn lemma_or_fold_remove<A>(s: Seq<A>, f: spec_fn(A) -> u64, i: int)
    requires
        0 <= i < s.len(),
    ensures
        or_fold(s, f) == or_fold(s.remove(i), f) | f(s[i]),
    decreases s.len(),
{
    if i == s.len() - 1 {
        assert(s.remove(i) =~= s.drop_last());
    } else {
        let d = s.drop_last();
        assert(s.remove(i).drop_last() =~= d.remove(i));
        assert(s.remove(i).last() == s.last());
        lemma_or_fold_remove(d, f, i);
        let x = or_fold(d.remove(i), f);
        lemma_or_algebra(x, f(s[i]), f(s.last()));
        lemma_or_algebra(x, f(s.last()), f(s[i]));
        lemma_or_algebra(f(s[i]), f(s.last()), 0);
    }
}

/// The fold does not depend on the order of the elements.
pub proof fn lemma_or_fold_permutation<A>(s: Seq<A>, t: Seq<A>, f: spec_fn(A) -> u64)
    requires
        s.to_multiset() == t.to_multiset(),
    ensures
        or_fold(s, f) == or_fold(t, f),
    decreases s.len(),
{
    broadcast use vstd::seq_lib::group_to_multiset_ensures;

    if s.len() == 0 {
        assert(s.to_multiset().len() == 0);
        assert(t.len() == 0);
        assert(t =~= Seq::<A>::empty());
        assert(s =~= Seq::<A>::empty());
    } else {
        let x = s.last();
        let d = s.drop_last();
        assert(d.push(x) =~= s);
        assert(s.to_multiset() =~= d.to_multiset().insert(x));
        assert(t.to_multiset().count(x) > 0);
        assert(t.contains(x));
        let i = choose|i: int| 0 <= i < t.len() && t[i] == x;
        assert(t.remove(i).to_multiset() =~= t.to_multiset().remove(x));
        assert(d.to_multiset() =~= s.to_multiset().remove(x));
        lemma_or_fold_permutation(d, t.remove(i), f);
        lemma_or_fold_remove(t, f, i);
    }
}

/// Every element's bits are part of the fold.
pub proof fn lemma_or_fold_contains<A>(s: Seq<A>, f: spec_fn(A) -> u64, j: int)
    requires
        0 <= j < s.len(),
    ensures
        f(s[j]) & or_fold(s, f) == f(s[j]),
    decreases s.len(),
{
    let d = s.drop_last();
    lemma_subset_algebra(or_fold(d, f), f(s.last()), 0);
    if j < s.len() - 1 {
        assert(d[j] == s[j]);
        lemma_or_fold_contains(d, f, j);
        lemma_subset_algebra(f(s[j]), or_fold(d, f), f(s.last()));
    }
}

/// Index of the first override naming `role_id`, if any.
fn find_override(overrides: &[ChannelOverride], role_id: u128) -> (r: Option<usize>)
    ensures
        match r {
            Some(k) => k < overrides@.len() && first_override(overrides@, role_id) == Some(
                overrides@[k as int],
            ),
            None => first_override(overrides@, role_id) is None,
        },
{
    let mut k: usize = 0;
    assert(overrides@.subrange(0, overrides@.len() as int) =~= overrides@);
    while k < overrides.len()
        invariant
            k <= overrides@.len(),
            first_override(overrides@, role_id) == first_override(
                overrides@.subrange(k as int, overrides@.len() as int),
                role_id,
            ),
        decreases overrides@.len() - k,
    {
        let ghost rest = overrides@.subrange(k as int, overrides@.len() as int);
        if overrides[k].role_id == role_id {
            assert(rest[0] == overrides@[k as int]);
            return Some(k);
        }
        assert(rest.subrange(1, rest.len() as int) =~= overrides@.subrange(
            k + 1,
            overrides@.len() as int,
        ));
        k += 1;
    }
    None
}

/// Compute guild permissions for a user.
///
/// Resolution order:
/// 1. Guild owner has all permissions
/// 2. Start with @everyone role permissions
/// 3. Add permissions from assigned roles
/// 4. Apply channel overrides if a channel context is provided: the allows of
///    every role's first matching override are added, then every denied bit is
///    removed, whatever order the roles come in.
pub fn compute_guild_permissions(
    user_id: u128,
    guild_owner_id: u128,
    everyone_permissions: GuildPermissions,
    user_roles: &[GuildRole],
    channel_overrides: Option<&[ChannelOverride]>,
) -> (r: GuildPermissions)
    ensures
        guild_owner_id == user_id ==> r@ == ALL_BITS,
        r@ == guild_permissions_bits(
            user_id,
            guild_owner_id,
            everyone_permissions@,
            user_roles@,
            overrides_view(channel_overrides),
        ),
{
    if guild_owner_id == user_id {
        return GuildPermissions::all();
    }
    let mut perms = everyone_permissions;
    let mut i: usize = 0;
    proof {
        assert(user_roles@.take(0) =~= Seq::<GuildRole>::empty());
        lemma_or_algebra(everyone_permissions@, 0, 0);
    }
    while i < user_roles.len()
        invariant
            i <= user_roles@.len(),
            perms@ == everyone_permissions@ | or_fold(user_roles@.take(i as int), role_bits()),
        decreases user_roles@.len() - i,
    {
        proof {
            lemma_or_fold_take(user_roles@, role_bits(), i as int);
            lemma_or_algebra(
                everyone_permissions@,
                or_fold(user_roles@.take(i as int), role_bits()),
                user_roles@[i as int].permissions@,
            );
        }
        perms = perms.union(user_roles[i].permissions);
        i += 1;
    }
    assert(user_roles@.take(user_roles@.len() as int) =~= user_roles@);
    if let Some(overrides) = channel_overrides {
        let mut role_allow = GuildPermissions::empty();
        let mut role_deny = GuildPermissions::empty();
        let mut j: usize = 0;
        assert(user_roles@.take(0) =~= Seq::<GuildRole>::empty());
        while j < user_roles.len()
            invariant
                j <= user_roles@.len(),
                role_allow@ == or_fold(user_roles@.take(j as int), override_allow(overrides@)),
                role_deny@ == or_fold(user_roles@.take(j as int), override_deny(overrides@)),
            decreases user_roles@.len() - j,
        {
            proof {
                lemma_or_fold_take(user_roles@, override_allow(overrides@), j as int);
                lemma_or_fold_take(user_roles@, override_deny(overrides@), j as int);
                lemma_or_algebra(role_allow@, 0, 0);
                lemma_or_algebra(role_deny@, 0, 0);
            }
            if let Some(k) = find_override(overrides, user_roles[j].id) {
                role_allow = role_allow.union(overrides[k].allow_permissions);
                role_deny = role_deny.union(overrides[k].deny_permissions);
            }
            j += 1;
        }
        perms = perms.union(role_allow);
        perms = perms.difference(role_deny);
    }
    perms
}

/// Permission check errors.
#[derive(Debug, Clone, PartialEq, Eq)]
pub enum PermissionError {
    /// User lacks required permission.
    MissingPermission(GuildPermissions),
    /// Role hierarchy violation.
    RoleHierarchy { actor_position: i32, target_position: i32 },
    /// Attempted to grant permissions not held.
    CannotEscalate(GuildPermissions),
    /// Attempted to moderate guild owner.
    CannotModerateOwner,
    /// User is not a member of the guild.
    NotGuildMember,
    /// Action requires elevated session.
    ElevationRequired,
    /// User is not a system admin.
    NotSystemAdmin,
    /// Database error occurred.
    DatabaseError(String),
    /// Channel not found.
    NotFound,
    /// Invalid channel (e.g., missing `guild_id` for guild channel).
    InvalidChannel,
    /// User lacks permission (generic forbidden).
    Forbidden,
}

/// The human-readable message of an error.
pub open spec fn permission_error_text(e: PermissionError) -> Seq<char> {
    match e {
        PermissionError::MissingPermission(p) => "Missing permission: "@ + describe_text(p@),
        PermissionError::RoleHierarchy { actor_position, target_position } =>
            "Cannot modify role at position "@ + decimal(target_position as int)
                + " (your position: "@ + decimal(actor_position as int) + ")"@,
        PermissionError::CannotEscalate(p) => "Cannot grant permissions you don't have: "@
            + describe_text(p@),
        PermissionError::CannotModerateOwner => "Cannot moderate guild owner"@,
        PermissionError::NotGuildMember => "User is not a member of this guild"@,
        PermissionError::ElevationRequired => "This action requires an elevated session"@,
        PermissionError::NotSystemAdmin => "User is not a system admin"@,
        PermissionError::DatabaseError(msg) => "Database error: "@ + msg@,
        PermissionError::NotFound => "Channel not found"@,
        PermissionError::InvalidChannel => "Invalid channel"@,
        PermissionError::Forbidden => "Access forbidden"@,
    }
}

impl PermissionError {
    /// The human-readable message of the error.
    pub fn message(&self) -> (r: String)
        ensures
            r@ == permission_error_text(*self),
    {
        match self {
            PermissionError::MissingPermission(p) => {
                let mut out = "Missing permission: ".to_owned();
                push_str(&mut out, p.describe().as_str());
                out
            },
            PermissionError::RoleHierarchy { actor_position, target_position } => {
                let mut out = "Cannot modify role at position ".to_owned();
                push_decimal(&mut out, *target_position as i64);
                push_str(&mut out, " (your position: ");
                push_decimal(&mut out, *actor_position as i64);
                push_str(&mut out, ")");
                out
            },
            PermissionError::CannotEscalate(p) => {
                let mut out = "Cannot grant permissions you don't have: ".to_owned();
                push_str(&mut out, p.describe().as_str());
                out
            },
            PermissionError::CannotModerateOwner => "Cannot moderate guild owner".to_owned(),
            PermissionError::NotGuildMember => "User is not a member of this guild".to_owned(),
            PermissionError::ElevationRequired => "This action requires an elevated session".to_owned(),
            PermissionError::NotSystemAdmin => "User is not a system admin".to_owned(),
            PermissionError::DatabaseError(msg) => {
                let mut out = "Database error: ".to_owned();
                push_str(&mut out, msg.as_str());
                out
            },
            PermissionError::NotFound => "Channel not found".to_owned(),
            PermissionError::InvalidChannel => "Invalid channel".to_owned(),
            PermissionError::Forbidden => "Access forbidden".to_owned(),
        }
    }
}

/// The outcome of a role-management check: the actor needs MANAGE_ROLES, the
/// target role must rank strictly below the actor's highest role, and any
/// permissions granted must already be held by the actor.
pub open spec fn manage_role_spec(
    actor: GuildPermissions,
    actor_highest: i32,
    target: i32,
    new_permissions: Option<GuildPermissions>,
) -> Result<(), PermissionError> {
    if actor@ & MANAGE_ROLES_BIT != MANAGE_ROLES_BIT {
        Err(PermissionError::MissingPermission(perms_with_bits(MANAGE_ROLES_BIT)))
    } else if target <= actor_highest {
        Err(PermissionError::RoleHierarchy { actor_position: actor_highest, target_position: target })
    } else {
        match new_permissions {
            Some(n) => if n@ & !actor@ != 0 {
                Err(PermissionError::CannotEscalate(perms_with_bits(n@ & !actor@)))
            } else {
                Ok(())
            },
            None => Ok(()),
        }
    }
}

/// Check if a user can manage a target role.
///
/// Rules, checked in this order:
/// 1. Must have `MANAGE_ROLES` permission
/// 2. Cannot edit roles at or above your position (lower number = higher rank)
/// 3. Cannot grant permissions you don't have
pub fn can_manage_role(
    actor_permissions: GuildPermissions,
    actor_highest_position: i32,
    target_role_position: i32,
    new_permissions: Option<GuildPermissions>,
) -> (r: Result<(), PermissionError>)
    ensures
        actor_permissions@ & MANAGE_ROLES_BIT != MANAGE_ROLES_BIT ==> (r matches Err(
            PermissionError::MissingPermission(p),
        ) && p@ == MANAGE_ROLES_BIT),
        actor_permissions@ & MANAGE_ROLES_BIT == MANAGE_ROLES_BIT && target_role_position
            <= actor_highest_position ==> r == Err::<(), PermissionError>(
            PermissionError::RoleHierarchy {
                actor_position: actor_highest_position,
                target_position: target_role_position,
            },
        ),
        actor_permissions@ & MANAGE_ROLES_BIT == MANAGE_ROLES_BIT && target_role_position
            > actor_highest_position ==> match new_permissions {
            Some(n) => if n@ & !actor_permissions@ != 0 {
                r matches Err(PermissionError::CannotEscalate(e)) && e@ == n@
                    & !actor_permissions@
            } else {
                r is Ok
            },
            None => r is Ok,
        },
        r is Ok ==> actor_permissions@ & MANAGE_ROLES_BIT == MANAGE_ROLES_BIT
            && target_role_position > actor_highest_position,
        r is Ok && new_permissions is Some ==> new_permissions->0@ & actor_permissions@
            == new_permissions->0@,
        r == manage_role_spec(
            actor_permissions,
            actor_highest_position,
            target_role_position,
            new_permissions,
        ),
{
    if !actor_permissions.has(GuildPermissions::MANAGE_ROLES()) {
        let p = GuildPermissions::MANAGE_ROLES();
        proof {
            lemma_perms_with_bits(p);
        }
        return Err(PermissionError::MissingPermission(p));
    }
    if target_role_position <= actor_highest_position {
        return Err(
            PermissionError::RoleHierarchy {
                actor_position: actor_highest_position,
                target_position: target_role_position,
            },
        );
    }
    if let Some(new_perms) = new_permissions {
        let escalation = new_perms.difference(actor_permissions);
        if !escalation.is_empty() {
            proof {
                lemma_perms_with_bits(escalation);
            }
            return Err(PermissionError::CannotEscalate(escalation));
        }
        proof {
            lemma_subset_algebra(new_perms@, actor_permissions@, 0);
        }
    }
    Ok(())
}

/// No escalation through roles: whenever a role change is allowed, the actor
/// holds MANAGE_ROLES, the role ranks strictly below the actor's highest role,
/// and every permission the change grants is one the actor already holds.
pub proof fn lemma_role_management_never_escalates(
    actor: GuildPermissions,
    actor_highest: i32,
    target: i32,
    new_permissions: Option<GuildPermissions>,
)
    requires
        manage_role_spec(actor, actor_highest, target, new_permissions) is Ok,
    ensures
        actor@ & MANAGE_ROLES_BIT == MANAGE_ROLES_BIT,
        target > actor_highest,
        new_permissions matches Some(n) ==> n@ & actor@ == n@,
{
    if let Some(n) = new_permissions {
        lemma_subset_algebra(n@, actor@, 0);
    }
}

/// Check if a user can moderate a target member.
///
/// Rules, checked in this order:
/// 1. Cannot moderate the guild owner
/// 2. Cannot moderate someone with a higher or equal role (lower number = higher rank)
pub fn can_moderate_member(
    actor_highest_position: i32,
    target_highest_position: i32,
    target_is_owner: bool,
) -> (r: Result<(), PermissionError>)
    ensures
        target_is_owner ==> r == Err::<(), PermissionError>(PermissionError::CannotModerateOwner),
        !target_is_owner && target_highest_position <= actor_highest_position ==> r == Err::<
            (),
            PermissionError,
        >(
            PermissionError::RoleHierarchy {
                actor_position: actor_highest_position,
                target_position: target_highest_position,
            },
        ),
        !target_is_owner && target_highest_position > actor_highest_position ==> r is Ok,
{
    if target_is_owner {
        return Err(PermissionError::CannotModerateOwner);
    }
    if target_highest_position <= actor_highest_position {
        return Err(
            PermissionError::RoleHierarchy {
                actor_position: actor_highest_position,
                target_position: target_highest_position,
            },
        );
    }
    Ok(())
}

/// The guild owner has every permission, whatever the roles and overrides.
pub proof fn lemma_owner_has_all(
    user_id: u128,
    everyone: u64,
    roles: Seq<GuildRole>,
    overrides: Option<Seq<ChannelOverride>>,
)
    ensures
        guild_permissions_bits(user_id, user_id, everyone, roles, overrides) == ALL_BITS,
{
}

/// Without a channel context, a member has every @everyone permission and
/// every permission of each assigned role.
pub proof fn lemma_roles_accumulate(
    user_id: u128,
    guild_owner_id: u128,
    everyone: u64,
    roles: Seq<GuildRole>,
    j: int,
)
    requires
        user_id != guild_owner_id,
        0 <= j < roles.len(),
    ensures
        everyone & guild_permissions_bits(user_id, guild_owner_id, everyone, roles, None)
            == everyone,
        roles[j].permissions@ & guild_permissions_bits(user_id, guild_owner_id, everyone, roles, None)
            == roles[j].permissions@,
{
    let u = or_fold(roles, role_bits());
    lemma_subset_algebra(everyone, u, 0);
    lemma_or_fold_contains(roles, role_bits(), j);
    lemma_subset_algebra(roles[j].permissions@, u, everyone);
    lemma_or_algebra(u, everyone, 0);
}

/// Deny wins: in a channel context, no bit denied by the override of any of
/// the member's roles survives, whatever the allows of other roles.
pub proof fn lemma_deny_wins(
    user_id: u128,
    guild_owner_id: u128,
    everyone: u64,
    roles: Seq<GuildRole>,
    ovs: Seq<ChannelOverride>,
    j: int,
)
    requires
        user_id != guild_owner_id,
        0 <= j < roles.len(),
    ensures
        guild_permissions_bits(user_id, guild_owner_id, everyone, roles, Some(ovs)) & (
        override_deny(ovs))(roles[j]) == 0,
{
    let d = override_deny(ovs);
    let big_d = or_fold(roles, d);
    let x = everyone | or_fold(roles, role_bits()) | or_fold(roles, override_allow(ovs));
    lemma_or_fold_contains(roles, d, j);
    lemma_subset_algebra(d(roles[j]), big_d, x);
    assert((x & !big_d) & d(roles[j]) == 0);
}

/// The order in which a member's roles are listed does not change the
/// resolved permissions.
pub proof fn lemma_role_order_irrelevant(
    user_id: u128,
    guild_owner_id: u128,
    everyone: u64,
    roles1: Seq<GuildRole>,
    roles2: Seq<GuildRole>,
    overrides: Option<Seq<ChannelOverride>>,
)
    requires
        roles1.to_multiset() == roles2.to_multiset(),
    ensures
        guild_permissions_bits(user_id, guild_owner_id, everyone, roles1, overrides)
            == guild_permissions_bits(user_id, guild_owner_id, everyone, roles2, overrides),
{
    lemma_or_fold_permutation(roles1, roles2, role_bits());
    if let Some(ovs) = overrides {
        lemma_or_fold_permutation(roles1, roles2, override_allow(ovs));
        lemma_or_fold_permutation(roles1, roles2, override_deny(ovs));
    }
}

/// Inserting an override that names another role, or that comes after an
/// override of the same role, leaves the first override of `id` unchanged.
proof fn lemma_first_override_insert(ovs: Seq<ChannelOverride>, i: int, o: ChannelOverride, id: u128)
    requires
        0 <= i <= ovs.len(),
        o.role_id != id || exists|j: int| 0 <= j < i && #[trigger] ovs[j].role_id == id,
    ensures
        first_override(ovs.insert(i, o), id) == first_override(ovs, id),
    decreases ovs.len(),
{
    let s = ovs.insert(i, o);
    if i == 0 {
        assert(s[0] == o);
        assert(s.subrange(1, s.len() as int) =~= ovs);
    } else {
        assert(s[0] == ovs[0]);
        if ovs[0].role_id != id {
            let rest = ovs.subrange(1, ovs.len() as int);
            assert(s.subrange(1, s.len() as int) =~= rest.insert(i - 1, o));
            if o.role_id == id {
                let j = choose|j: int| 0 <= j < i && #[trigger] ovs[j].role_id == id;
                assert(j != 0);
                assert(rest[j - 1] == ovs[j]);
            }
            lemma_first_override_insert(rest, i - 1, o, id);
        }
    }
}

/// The first override of `id`, when there is one, is an override of `ovs`
/// that names `id`.
proof fn lemma_first_override_names(ovs: Seq<ChannelOverride>, id: u128)
    requires
        first_override(ovs, id) is Some,
    ensures
        exists|j: int|
            0 <= j < ovs.len() && #[trigger] ovs[j] == first_override(ovs, id)->0 && ovs[j].role_id
                == id,
    decreases ovs.len(),
{
    if ovs[0].role_id != id {
        let rest = ovs.subrange(1, ovs.len() as int);
        lemma_first_override_names(rest, id);
        let j = choose|j: int|
            0 <= j < rest.len() && #[trigger] rest[j] == first_override(rest, id)->0 && rest[j].role_id
                == id;
        assert(ovs[j + 1] == rest[j]);
    } else {
        assert(ovs[0] == first_override(ovs, id)->0);
    }
}

/// Folds of functions that agree on every element are equal.
proof fn lemma_or_fold_congruent<A>(s: Seq<A>, f: spec_fn(A) -> u64, g: spec_fn(A) -> u64)
    requires
        forall|k: int| 0 <= k < s.len() ==> f(#[trigger] s[k]) == g(s[k]),
    ensures
        or_fold(s, f) == or_fold(s, g),
    decreases s.len(),
{
    if s.len() > 0 {
        let d = s.drop_last();
        assert forall|k: int| 0 <= k < d.len() implies f(#[trigger] d[k]) == g(d[k]) by {
            assert(d[k] == s[k]);
        }
        lemma_or_fold_congruent(d, f, g);
        assert(f(s[s.len() - 1]) == g(s[s.len() - 1]));
    }
}

/// When every element's `f` bits lie within its `g` bits, so does the fold.
proof fn lemma_or_fold_within<A>(s: Seq<A>, f: spec_fn(A) -> u64, g: spec_fn(A) -> u64)
    requires
        forall|k: int| 0 <= k < s.len() ==> f(#[trigger] s[k]) & g(s[k]) == f(s[k]),
    ensures
        or_fold(s, f) & or_fold(s, g) == or_fold(s, f),
    decreases s.len(),
{
    if s.len() == 0 {
        assert(0u64 & 0u64 == 0u64) by (bit_vector);
    } else {
        let d = s.drop_last();
        assert forall|k: int| 0 <= k < d.len() implies f(#[trigger] d[k]) & g(d[k]) == f(d[k]) by {
            assert(d[k] == s[k]);
        }
        lemma_or_fold_within(d, f, g);
        let (a, b, c, e) = (or_fold(d, f), f(s.last()), or_fold(d, g), g(s.last()));
        assert(b & e == b) by {
            assert(f(s[s.len() - 1]) & g(s[s.len() - 1]) == f(s[s.len() - 1]));
        }
        assert((a | b) & (c | e) == (a | b)) by (bit_vector)
            requires
                a & c == a,
                b & e == b,
        ;
    }
}

/// Every allow of every override that names the role `r`.
pub open spec fn allows_naming(ovs: Seq<ChannelOverride>) -> spec_fn(GuildRole) -> u64 {
    |r: GuildRole|
        or_fold(
            ovs,
            |o: ChannelOverride|
                if o.role_id == r.id {
                    o.allow_permissions@
                } else {
                    0
                },
        )
}

/// In a channel, a member other than the owner holds no bit that comes
/// neither from @everyone, nor from one of their roles, nor from the allow of
/// an override naming one of their roles: overrides of roles the member does
/// not hold grant nothing.
pub proof fn lemma_channel_bits_come_from_own_roles(
    user_id: u128,
    guild_owner_id: u128,
    everyone: u64,
    roles: Seq<GuildRole>,
    ovs: Seq<ChannelOverride>,
)
    requires
        user_id != guild_owner_id,
    ensures
        guild_permissions_bits(user_id, guild_owner_id, everyone, roles, Some(ovs)) & !(everyone
            | or_fold(roles, role_bits()) | or_fold(roles, allows_naming(ovs))) == 0,
{
    let fa = override_allow(ovs);
    let fb = allows_naming(ovs);
    assert forall|k: int| 0 <= k < roles.len() implies fa(#[trigger] roles[k]) & fb(roles[k]) == fa(
        roles[k],
    ) by {
        let r = roles[k];
        if first_override(ovs, r.id) is Some {
            lemma_first_override_names(ovs, r.id);
            let j = choose|j: int|
                0 <= j < ovs.len() && #[trigger] ovs[j] == first_override(ovs, r.id)->0
                    && ovs[j].role_id == r.id;
            let h = |o: ChannelOverride|
                if o.role_id == r.id {
                    o.allow_permissions@
                } else {
                    0
                };
            lemma_or_fold_contains(ovs, h, j);
            assert(h(ovs[j]) == fa(r));
            assert(fb(r) == or_fold(ovs, h)) by {
                assert(h =~= |o: ChannelOverride|
                    if o.role_id == r.id {
                        o.allow_permissions@
                    } else {
                        0
                    });
            }
        } else {
            assert(fa(r) == 0);
            let x = fb(r);
            assert(0u64 & x == 0u64) by (bit_vector);
        }
    }
    lemma_or_fold_within(roles, fa, fb);
    let base = everyone | or_fold(roles, role_bits());
    let a = or_fold(roles, fa);
    let b = or_fold(roles, fb);
    let d = or_fold(roles, override_deny(ovs));
    assert(((base | a) & !d) & !(base | b) == 0) by (bit_vector)
        requires
            a & b == a,
    ;
}

/// An override that names none of a member's roles, or that comes after an
/// override of the same role, changes nothing in what the member may do in
/// the channel: only the first override of each of the member's own roles
/// applies.
pub proof fn lemma_unused_override_irrelevant(
    user_id: u128,
    guild_owner_id: u128,
    everyone: u64,
    roles: Seq<GuildRole>,
    ovs: Seq<ChannelOverride>,
    i: int,
    o: ChannelOverride,
)
    requires
        0 <= i <= ovs.len(),
        (forall|k: int| 0 <= k < roles.len() ==> #[trigger] roles[k].id != o.role_id) || exists|j: int|
            0 <= j < i && #[trigger] ovs[j].role_id == o.role_id,
    ensures
        guild_permissions_bits(user_id, guild_owner_id, everyone, roles, Some(ovs.insert(i, o)))
            == guild_permissions_bits(user_id, guild_owner_id, everyone, roles, Some(ovs)),
{
    let ovs2 = ovs.insert(i, o);
    assert forall|k: int| 0 <= k < roles.len() implies first_override(ovs2, #[trigger] roles[k].id)
        == first_override(ovs, roles[k].id) by {
        let id = roles[k].id;
        if o.role_id == id {
            assert(!(forall|k2: int| 0 <= k2 < roles.len() ==> #[trigger] roles[k2].id != o.role_id));
            let j = choose|j: int| 0 <= j < i && #[trigger] ovs[j].role_id == o.role_id;
            assert(ovs[j].role_id == id);
        }
        lemma_first_override_insert(ovs, i, o, id);
    }
    assert forall|k: int| 0 <= k < roles.len() implies (override_allow(ovs2))(#[trigger] roles[k])
        == (override_allow(ovs))(roles[k]) by {
        assert(first_override(ovs2, roles[k].id) == first_override(ovs, roles[k].id));
    }
    assert forall|k: int| 0 <= k < roles.len() implies (override_deny(ovs2))(#[trigger] roles[k])
        == (override_deny(ovs))(roles[k]) by {
        assert(first_override(ovs2, roles[k].id) == first_override(ovs, roles[k].id));
    }
    lemma_or_fold_congruent(roles, override_allow(ovs2), override_allow(ovs));
    lemma_or_fold_congruent(roles, override_deny(ovs2), override_deny(ovs));
}

/// A fold of functions that give no bit on any element is empty.
proof fn lemma_or_fold_zero<A>(s: Seq<A>, f: spec_fn(A) -> u64)
    requires
        forall|k: int| 0 <= k < s.len() ==> f(#[trigger] s[k]) == 0,
    ensures
        or_fold(s, f) == 0,
    decreases s.len(),
{
    if s.len() > 0 {
        let d = s.drop_last();
        assert forall|k: int| 0 <= k < d.len() implies f(#[trigger] d[k]) == 0 by {
            assert(d[k] == s[k]);
        }
        lemma_or_fold_zero(d, f);
        assert(f(s[s.len() - 1]) == 0);
        assert(0u64 | 0u64 == 0u64) by (bit_vector);
    }
}

/// In a channel whose overrides name none of the member's roles, the member
/// may do exactly what they may do in the guild.
pub proof fn lemma_no_own_override_keeps_guild_permissions(
    user_id: u128,
    guild_owner_id: u128,
    everyone: u64,
    roles: Seq<GuildRole>,
    ovs: Seq<ChannelOverride>,
)
    requires
        forall|i: int, k: int|
            0 <= i < ovs.len() && 0 <= k < roles.len() ==> #[trigger] ovs[i].role_id
                != #[trigger] roles[k].id,
    ensures
        guild_permissions_bits(user_id, guild_owner_id, everyone, roles, Some(ovs))
            == guild_permissions_bits(user_id, guild_owner_id, everyone, roles, None),
{
    assert forall|k: int| 0 <= k < roles.len() implies first_override(ovs, #[trigger] roles[k].id) is None by {
        if first_override(ovs, roles[k].id) is Some {
            lemma_first_override_names(ovs, roles[k].id);
            let i = choose|i: int|
                0 <= i < ovs.len() && #[trigger] ovs[i] == first_override(ovs, roles[k].id)->0
                    && ovs[i].role_id == roles[k].id;
            assert(ovs[i].role_id != roles[k].id);
        }
    }
    assert forall|k: int| 0 <= k < roles.len() implies (override_allow(ovs))(#[trigger] roles[k]) == 0 by {
        assert(first_override(ovs, roles[k].id) is None);
    }
    assert forall|k: int| 0 <= k < roles.len() implies (override_deny(ovs))(#[trigger] roles[k]) == 0 by {
        assert(first_override(ovs, roles[k].id) is None);
    }
    lemma_or_fold_zero(roles, override_allow(ovs));
    lemma_or_fold_zero(roles, override_deny(ovs));
    let base = everyone | or_fold(roles, role_bits());
    assert((base | 0u64) & !0u64 == base) by (bit_vector);
}

} // verus!
