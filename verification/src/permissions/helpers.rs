//! Permission contexts for request handlers: what a member may do in a guild,
//! and the decisions of the guild- and channel-access checks.
//!
//! Loading the rows is the caller's part; the functions here decide on the
//! loaded values.

use vstd::prelude::*;

use super::guild::{GuildPermissions, ALL_BITS, VIEW_CHANNEL_BIT};
use super::models::{ChannelOverride, GuildRole};
use super::resolver::{
    compute_guild_permissions, guild_permissions_bits, overrides_view, PermissionError,
};

verus! {

/// Pre-computed permission context for a guild member.
#[derive(Debug, Clone)]
pub struct MemberPermissionContext {
    /// The guild owner's user ID.
    pub guild_owner_id: u128,
    /// Permissions from the @everyone role.
    pub everyone_permissions: GuildPermissions,
    /// All roles assigned to this member (excluding @everyone).
    pub member_roles: Vec<GuildRole>,
    /// Pre-computed permissions for this member.
    pub computed_permissions: GuildPermissions,
    /// The highest role position (lowest number = highest rank);
    /// `None` if the member has no assigned roles.
    pub highest_role_position: Option<i32>,
    /// Whether this member is the guild owner.
    pub is_owner: bool,
}

/// The smallest position among the roles, `None` when there is no role.
pub open spec fn min_position(roles: Seq<GuildRole>) -> Option<i32>
    decreases roles.len(),
{
    if roles.len() == 0 {
        None
    } else {
        let p = roles.last().position;
        match min_position(roles.drop_last()) {
            None => Some(p),
            Some(m) => Some(if p < m { p } else { m }),
        }
    }
}

impl MemberPermissionContext {
    /// Check if the member has the specified permission(s).
    pub fn has_permission(&self, permission: GuildPermissions) -> (r: bool)
        ensures
            r == (self.computed_permissions@ & permission@ == permission@),
    {
        self.computed_permissions.has(permission)
    }

    /// Require that the member has the specified permission(s).
    pub fn require_permission(&self, permission: GuildPermissions) -> (r: Result<
        (),
        PermissionError,
    >)
        ensures
            self.computed_permissions@ & permission@ == permission@ ==> r is Ok,
            self.computed_permissions@ & permission@ != permission@ ==> r == Err::<
                (),
                PermissionError,
            >(PermissionError::MissingPermission(permission)),
    {
        if self.has_permission(permission) {
            Ok(())
        } else {
            Err(PermissionError::MissingPermission(permission))
        }
    }
}

/// The highest-ranked (smallest) position among a member's roles.
pub fn highest_role_position(roles: &[GuildRole]) -> (r: Option<i32>)
    ensures
        r == min_position(roles@),
{
    let mut best: Option<i32> = None;
    let mut i: usize = 0;
    assert(roles@.take(0) =~= Seq::<GuildRole>::empty());
    while i < roles.len()
        invariant
            i <= roles@.len(),
            best == min_position(roles@.take(i as int)),
        decreases roles@.len() - i,
    {
        assert(roles@.take(i as int + 1).drop_last() =~= roles@.take(i as int));
        let p = roles[i].position;
        best = match best {
            None => Some(p),
            Some(m) => Some(if p < m { p } else { m }),
        };
        i += 1;
    }
    assert(roles@.take(roles@.len() as int) =~= roles@);
    best
}

/// The highest-ranked position of a member is the smallest of their roles'
/// positions: there is none exactly when the member has no role, and
/// otherwise it is at most every role's position and is the position of one
/// of the roles.
pub proof fn lemma_highest_role_is_least_position(roles: Seq<GuildRole>)
    ensures
        min_position(roles) is None <==> roles.len() == 0,
        roles.len() > 0 ==> forall|k: int|
            0 <= k < roles.len() ==> min_position(roles)->0 <= #[trigger] roles[k].position,
        roles.len() > 0 ==> exists|j: int|
            0 <= j < roles.len() && min_position(roles)->0 == #[trigger] roles[j].position,
    decreases roles.len(),
{
    if roles.len() > 0 {
        let d = roles.drop_last();
        lemma_highest_role_is_least_position(d);
        let p = roles.last().position;
        let m = min_position(roles)->0;
        assert forall|k: int| 0 <= k < roles.len() implies m <= #[trigger] roles[k].position by {
            if k < roles.len() - 1 {
                assert(roles[k] == d[k]);
            }
        }
        if d.len() == 0 {
            assert(m == roles[0].position);
        } else {
            let j = choose|j: int| 0 <= j < d.len() && min_position(d)->0 == #[trigger] d[j].position;
            assert(d[j] == roles[j]);
            if p < min_position(d)->0 {
                assert(m == roles[roles.len() - 1].position);
            } else {
                assert(m == roles[j].position);
            }
        }
    }
}

/// Builds the permission context of a guild member from the loaded rows:
/// the guild's owner, the @everyone role if the guild has one (no permission
/// otherwise) and the member's assigned roles.
pub fn build_member_context(
    user_id: u128,
    guild_owner_id: u128,
    everyone_role: Option<GuildPermissions>,
    member_roles: Vec<GuildRole>,
) -> (r: MemberPermissionContext)
    ensures
        r.guild_owner_id == guild_owner_id,
        r.everyone_permissions@ == match everyone_role {
            Some(p) => p@,
            None => 0,
        },
        r.member_roles@ == member_roles@,
        r.computed_permissions@ == guild_permissions_bits(
            user_id,
            guild_owner_id,
            r.everyone_permissions@,
            member_roles@,
            None,
        ),
        r.highest_role_position == min_position(member_roles@),
        r.is_owner == (guild_owner_id == user_id),
{
    let everyone_permissions = match everyone_role {
        Some(p) => p,
        None => GuildPermissions::empty(),
    };
    let highest = highest_role_position(member_roles.as_slice());
    let computed = compute_guild_permissions(
        user_id,
        guild_owner_id,
        everyone_permissions,
        member_roles.as_slice(),
        None,
    );
    MemberPermissionContext {
        guild_owner_id,
        everyone_permissions,
        member_roles,
        computed_permissions: computed,
        highest_role_position: highest,
        is_owner: guild_owner_id == user_id,
    }
}

/// The guild-permission check on a loaded context: a non-member is refused,
/// a member lacking the permission is refused, anyone else passes with the
/// context.
pub fn require_in_context(
    ctx: Option<MemberPermissionContext>,
    required_permission: GuildPermissions,
) -> (r: Result<MemberPermissionContext, PermissionError>)
    ensures
        ctx is None ==> r == Err::<MemberPermissionContext, PermissionError>(
            PermissionError::NotGuildMember,
        ),
        ctx matches Some(c) ==> (if c.computed_permissions@ & required_permission@
            == required_permission@ {
            r == Ok::<MemberPermissionContext, PermissionError>(c)
        } else {
            r == Err::<MemberPermissionContext, PermissionError>(
                PermissionError::MissingPermission(required_permission),
            )
        }),
{
    match ctx {
        None => Err(PermissionError::NotGuildMember),
        Some(c) => {
            match c.require_permission(required_permission) {
                Ok(()) => Ok(c),
                Err(e) => Err(e),
            }
        },
    }
}

/// Access to a DM channel: participants get a context with every permission
/// and no guild, anyone else is refused.
pub fn dm_channel_access(is_participant: bool) -> (r: Result<
    MemberPermissionContext,
    PermissionError,
>)
    ensures
        !is_participant ==> r == Err::<MemberPermissionContext, PermissionError>(
            PermissionError::Forbidden,
        ),
        is_participant ==> (r matches Ok(c) && c.guild_owner_id == 0 && c.everyone_permissions@
            == 0 && c.member_roles@.len() == 0 && c.computed_permissions@ == ALL_BITS
            && c.highest_role_position is None && !c.is_owner),
{
    if !is_participant {
        return Err(PermissionError::Forbidden);
    }
    Ok(
        MemberPermissionContext {
            guild_owner_id: 0,
            everyone_permissions: GuildPermissions::empty(),
            member_roles: Vec::new(),
            computed_permissions: GuildPermissions::all(),
            highest_role_position: None,
            is_owner: false,
        },
    )
}

/// Access to a guild channel for a member whose context is loaded.
///
/// The owner passes with the context unchanged. Anyone else needs
/// `VIEW_CHANNEL` after the channel's overrides are applied, and passes with
/// the context's permissions replaced by the channel-level ones.
pub fn guild_channel_access(
    user_id: u128,
    ctx: MemberPermissionContext,
    overrides: &[ChannelOverride],
) -> (r: Result<MemberPermissionContext, PermissionError>)
    ensures
        ctx.is_owner ==> r == Ok::<MemberPermissionContext, PermissionError>(ctx),
        !ctx.is_owner ==> ({
            let perms = guild_permissions_bits(
                user_id,
                ctx.guild_owner_id,
                ctx.everyone_permissions@,
                ctx.member_roles@,
                Some(overrides@),
            );
            if perms & VIEW_CHANNEL_BIT == VIEW_CHANNEL_BIT {
                r matches Ok(c) && c.computed_permissions@ == perms && c.guild_owner_id
                    == ctx.guild_owner_id && c.everyone_permissions == ctx.everyone_permissions
                    && c.member_roles@ == ctx.member_roles@ && c.highest_role_position
                    == ctx.highest_role_position && c.is_owner == ctx.is_owner
            } else {
                r matches Err(PermissionError::MissingPermission(p)) && p@ == VIEW_CHANNEL_BIT
            }
        }),
{
    if ctx.is_owner {
        return Ok(ctx);
    }
    let perms = compute_guild_permissions(
        user_id,
        ctx.guild_owner_id,
        ctx.everyone_permissions,
        ctx.member_roles.as_slice(),
        Some(overrides),
    );
    assert(overrides_view(Some(overrides)) == Some(overrides@));
    if !perms.has(GuildPermissions::VIEW_CHANNEL()) {
        return Err(PermissionError::MissingPermission(GuildPermissions::VIEW_CHANNEL()));
    }
    Ok(MemberPermissionContext { computed_permissions: perms, ..ctx })
}

} // verus!
