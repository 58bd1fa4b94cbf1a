//! The decisions of the guild role handlers: who may create, change, delete,
//! assign and remove roles, and how each refusal is answered.

use vstd::prelude::*;

use super::types::CreateRoleRequest;
use crate::permissions::guild::{lemma_perms_with_bits, perms_with_bits, GuildPermissions, ALL_BITS};
use crate::permissions::helpers::MemberPermissionContext;
use crate::permissions::resolver::{
    can_manage_role, manage_role_spec, permission_error_text, PermissionError,
};
use crate::text::push_str;
use crate::validation::{violations_text, FieldViolation};

verus! {

/// A refused role request.
#[derive(Debug, Clone)]
pub enum RoleError {
    NotFound,
    NotMember,
    Permission(PermissionError),
    Validation(String),
    Database(String),
}

/// The text of a role error.
pub open spec fn role_error_text(e: RoleError) -> Seq<char> {
    match e {
        RoleError::NotFound => "Role not found"@,
        RoleError::NotMember => "Not a member of this guild"@,
        RoleError::Permission(p) => permission_error_text(p),
        RoleError::Validation(m) => "Validation failed: "@ + m@,
        RoleError::Database(_) => "Database error"@,
    }
}

/// The HTTP status and error code that answer a role error.
pub open spec fn role_error_status(e: RoleError) -> (u16, Seq<char>) {
    match e {
        RoleError::NotFound => (404, "not_found"@),
        RoleError::NotMember => (403, "not_member"@),
        RoleError::Permission(p) => (403, match p {
            PermissionError::MissingPermission(_) => "missing_permission"@,
            PermissionError::RoleHierarchy { .. } => "role_hierarchy"@,
            PermissionError::CannotEscalate(_) => "cannot_escalate"@,
            PermissionError::NotGuildMember => "not_member"@,
            _ => "permission"@,
        }),
        RoleError::Validation(_) => (400, "validation"@),
        RoleError::Database(_) => (500, "database"@),
    }
}

impl RoleError {
    /// The error's text.
    pub fn message(&self) -> (r: String)
        ensures
            r@ == role_error_text(*self),
    {
        match self {
            RoleError::NotFound => "Role not found".to_owned(),
            RoleError::NotMember => "Not a member of this guild".to_owned(),
            RoleError::Permission(p) => p.message(),
            RoleError::Validation(m) => {
                let mut out = "Validation failed: ".to_owned();
                push_str(&mut out, m.as_str());
                out
            },
            RoleError::Database(_) => "Database error".to_owned(),
        }
    }

    /// The HTTP status and error code of the answer. The message of the
    /// answer is `Database error` for a database error and the error's text
    /// otherwise.
    pub fn status(&self) -> (r: (u16, &'static str))
        ensures
            (r.0, r.1@) == role_error_status(*self),
    {
        match self {
            RoleError::NotFound => (404, "not_found"),
            RoleError::NotMember => (403, "not_member"),
            RoleError::Permission(p) => (
                403,
                match p {
                    PermissionError::MissingPermission(_) => "missing_permission",
                    PermissionError::RoleHierarchy { .. } => "role_hierarchy",
                    PermissionError::CannotEscalate(_) => "cannot_escalate",
                    PermissionError::NotGuildMember => "not_member",
                    _ => "permission",
                },
            ),
            RoleError::Validation(_) => (400, "validation"),
            RoleError::Database(_) => (500, "database"),
        }
    }
}

/// A failed membership or permission lookup, as a role error: a non-member
/// is answered as such, any other failure as a permission error.
pub fn role_error_from_permission(e: PermissionError) -> (r: RoleError)
    ensures
        r == (if e is NotGuildMember {
            RoleError::NotMember
        } else {
            RoleError::Permission(e)
        }),
{
    match e {
        PermissionError::NotGuildMember => RoleError::NotMember,
        other => RoleError::Permission(other),
    }
}

/// The outcome of a role-management check, as a role error.
pub open spec fn manage_outcome(
    ctx: MemberPermissionContext,
    target: i32,
    new_permissions: Option<GuildPermissions>,
) -> Result<(), RoleError> {
    match manage_role_spec(
        ctx.computed_permissions,
        actor_rank(ctx),
        target,
        new_permissions,
    ) {
        Ok(()) => Ok(()),
        Err(e) => Err(RoleError::Permission(e)),
    }
}

/// The actor's highest role position; one without roles ranks lowest.
pub open spec fn actor_rank(ctx: MemberPermissionContext) -> i32 {
    match ctx.highest_role_position {
        Some(p) => p,
        None => i32::MAX,
    }
}

fn check_manage(
    ctx: &MemberPermissionContext,
    target: i32,
    new_permissions: Option<GuildPermissions>,
) -> (r: Result<(), RoleError>)
    ensures
        r == manage_outcome(*ctx, target, new_permissions),
{
    let rank = match ctx.highest_role_position {
        Some(p) => p,
        None => i32::MAX,
    };
    match can_manage_role(ctx.computed_permissions, rank, target, new_permissions) {
        Ok(()) => Ok(()),
        Err(e) => Err(RoleError::Permission(e)),
    }
}

/// Validates a role creation request and checks that the actor may create a
/// role with the requested permissions (unknown bits dropped, none when
/// absent); a new role has no position yet and ranks lowest. Returns the
/// permissions the new role gets.
pub fn check_create_role(ctx: &MemberPermissionContext, req: &CreateRoleRequest) -> (r: Result<
    GuildPermissions,
    RoleError,
>)
    ensures
        req.violations_spec().len() == 1 ==> (r matches Err(RoleError::Validation(m)) && m@
            == req.violations_spec()[0].0 + ": "@ + req.violations_spec()[0].1),
        req.violations_spec().len() > 1 ==> r matches Err(RoleError::Validation(_)),
        req.violations_spec().len() == 0 ==> ({
            let granted = perms_with_bits(
                match req.permissions {
                    Some(b) => b,
                    None => 0u64,
                } & ALL_BITS,
            );
            r == match manage_outcome(*ctx, i32::MAX, Some(granted)) {
                Ok(()) => Ok(granted),
                Err(e) => Err::<GuildPermissions, RoleError>(e),
            }
        }),
{
    let violations = req.validate();
    if violations.len() > 0 {
        return Err(RoleError::Validation(violations_text(&violations)));
    }
    let requested = match req.permissions {
        Some(b) => b,
        None => 0,
    };
    let new_perms = GuildPermissions::from_bits_truncate(requested);
    proof {
        lemma_perms_with_bits(new_perms);
    }
    match check_manage(ctx, i32::MAX, Some(new_perms)) {
        Ok(()) => Ok(new_perms),
        Err(e) => Err(e),
    }
}

/// The position of a new role: one below the lowest-ranked existing role
/// (`max_position` is the largest position in the guild, 0 when none).
pub fn next_role_position(max_position: i64) -> (r: i32)
    requires
        i32::MIN <= max_position < i32::MAX,
    ensures
        r == max_position + 1,
{
    (max_position as i32) + 1
}

/// A role looked up in a guild: its position and whether it is `@everyone`.
#[derive(Debug, Clone, Copy, PartialEq, Eq)]
pub struct RoleRecord {
    pub position: i32,
    pub is_default: bool,
}

/// Checks an update of a role: it must exist, `@everyone` cannot be renamed,
/// and the actor must be allowed to manage it and grant the new permissions
/// (unknown bits dropped).
pub fn check_update_role(
    ctx: &MemberPermissionContext,
    role: Option<RoleRecord>,
    renaming: bool,
    new_permissions: Option<u64>,
) -> (r: Result<(), RoleError>)
    ensures
        role is None ==> r matches Err(RoleError::NotFound),
        role is Some && role->0.is_default && renaming ==> (r matches Err(
            RoleError::Validation(m),
        ) && m@ == "Cannot rename @everyone role"@),
        role is Some && !(role->0.is_default && renaming) ==> match new_permissions {
            None => r == manage_outcome(*ctx, role->0.position, None),
            Some(b) => r == manage_outcome(*ctx, role->0.position, Some(perms_with_bits(b & ALL_BITS))),
        },
{
    let rr = match role {
        None => return Err(RoleError::NotFound),
        Some(rr) => rr,
    };
    if rr.is_default && renaming {
        return Err(RoleError::Validation("Cannot rename @everyone role".to_owned()));
    }
    match new_permissions {
        None => check_manage(ctx, rr.position, None),
        Some(b) => {
            let p = GuildPermissions::from_bits_truncate(b);
            proof {
                lemma_perms_with_bits(p);
            }
            check_manage(ctx, rr.position, Some(p))
        },
    }
}

/// Checks a deletion of a role: it must exist, `@everyone` cannot be deleted,
/// and the actor must be allowed to manage it.
pub fn check_delete_role(ctx: &MemberPermissionContext, role: Option<RoleRecord>) -> (r: Result<
    (),
    RoleError,
>)
    ensures
        role is None ==> r matches Err(RoleError::NotFound),
        role is Some && role->0.is_default ==> (r matches Err(RoleError::Validation(m)) && m@
            == "Cannot delete @everyone role"@),
        role is Some && !role->0.is_default ==> r == manage_outcome(*ctx, role->0.position, None),
{
    let rr = match role {
        None => return Err(RoleError::NotFound),
        Some(rr) => rr,
    };
    if rr.is_default {
        return Err(RoleError::Validation("Cannot delete @everyone role".to_owned()));
    }
    check_manage(ctx, rr.position, None)
}

/// Checks an assignment of a role to a user: the role must exist and not be
/// `@everyone`, the actor must be allowed to manage it, and the user must be
/// a member of the guild.
pub fn check_assign_role(
    ctx: &MemberPermissionContext,
    role: Option<RoleRecord>,
    target_is_member: bool,
) -> (r: Result<(), RoleError>)
    ensures
        role is None ==> r matches Err(RoleError::NotFound),
        role is Some && role->0.is_default ==> (r matches Err(RoleError::Validation(m)) && m@
            == "Cannot assign @everyone role"@),
        role is Some && !role->0.is_default && manage_outcome(*ctx, role->0.position, None) is Err
            ==> r == manage_outcome(*ctx, role->0.position, None),
        role is Some && !role->0.is_default && manage_outcome(*ctx, role->0.position, None) is Ok
            && target_is_member ==> r is Ok,
        role is Some && !role->0.is_default && manage_outcome(*ctx, role->0.position, None) is Ok
            && !target_is_member ==> (r matches Err(RoleError::Validation(m)) && m@
            == "User is not a member of this guild"@),
{
    let rr = match role {
        None => return Err(RoleError::NotFound),
        Some(rr) => rr,
    };
    if rr.is_default {
        return Err(RoleError::Validation("Cannot assign @everyone role".to_owned()));
    }
    let m = check_manage(ctx, rr.position, None);
    if m.is_err() {
        return m;
    }
    if !target_is_member {
        return Err(RoleError::Validation("User is not a member of this guild".to_owned()));
    }
    Ok(())
}

/// Checks a removal of a role from a user: the role must exist, the actor must
/// be allowed to manage it, and the user must have held it (`rows_affected`
/// is what the removal deleted).
pub fn check_remove_role(
    ctx: &MemberPermissionContext,
    role_position: Option<i32>,
) -> (r: Result<(), RoleError>)
    ensures
        role_position is None ==> r matches Err(RoleError::NotFound),
        role_position is Some ==> r == manage_outcome(*ctx, role_position->0, None),
{
    match role_position {
        None => Err(RoleError::NotFound),
        Some(p) => check_manage(ctx, p, None),
    }
}

/// A removal that deleted nothing: the user did not hold the role.
pub fn require_role_removed(rows_affected: u64) -> (r: Result<(), RoleError>)
    ensures
        rows_affected == 0 ==> r matches Err(RoleError::NotFound),
        rows_affected > 0 ==> r is Ok,
{
    if rows_affected == 0 {
        Err(RoleError::NotFound)
    } else {
        Ok(())
    }
}

} // verus!
