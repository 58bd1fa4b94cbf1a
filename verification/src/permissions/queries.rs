//! The rows that permission queries write on their own initiative: the
//! default roles every new guild starts with.

use vstd::prelude::*;

use super::guild::{
    GuildPermissions, EVERYONE_DEFAULT_BITS, EVERYONE_FORBIDDEN_BITS, MODERATOR_DEFAULT_BITS,
    OFFICER_DEFAULT_BITS, lemma_preset_hierarchy,
};

verus! {

/// A role created with every new guild.
#[derive(Debug, Clone)]
pub struct DefaultRole {
    pub name: String,
    pub color: Option<String>,
    pub permissions: GuildPermissions,
    /// Lower number = higher rank.
    pub position: i32,
    pub is_default: bool,
}

/// A default role as plain values: name, color, permission bits, position
/// and whether it is the @everyone role.
pub open spec fn default_role_view(r: DefaultRole) -> (Seq<char>, Option<Seq<char>>, u64, i32, bool) {
    (
        r.name@,
        match r.color {
            Some(c) => Some(c@),
            None => None,
        },
        r.permissions@,
        r.position,
        r.is_default,
    )
}

/// The default roles of a new guild, in the order they are created:
/// @everyone (position 1000, no color), Moderator (100, `#3498db`) and
/// Officer (50, `#e74c3c`), each with its preset permissions.
pub open spec fn default_role_rows() -> Seq<(Seq<char>, Option<Seq<char>>, u64, i32, bool)> {
    seq![
        ("@everyone"@, None, EVERYONE_DEFAULT_BITS, 1000i32, true),
        ("Moderator"@, Some("#3498db"@), MODERATOR_DEFAULT_BITS, 100i32, false),
        ("Officer"@, Some("#e74c3c"@), OFFICER_DEFAULT_BITS, 50i32, false),
    ]
}

/// The roles to insert when a guild is created.
pub fn default_roles() -> (r: Vec<DefaultRole>)
    ensures
        r@.len() == 3,
        forall|i: int| 0 <= i < 3 ==> default_role_view(#[trigger] r@[i]) == default_role_rows()[i],
{
    let everyone = DefaultRole {
        name: "@everyone".to_owned(),
        color: None,
        permissions: GuildPermissions::EVERYONE_DEFAULT(),
        position: 1000,
        is_default: true,
    };
    let moderator = DefaultRole {
        name: "Moderator".to_owned(),
        color: Some("#3498db".to_owned()),
        permissions: GuildPermissions::MODERATOR_DEFAULT(),
        position: 100,
        is_default: false,
    };
    let officer = DefaultRole {
        name: "Officer".to_owned(),
        color: Some("#e74c3c".to_owned()),
        permissions: GuildPermissions::OFFICER_DEFAULT(),
        position: 50,
        is_default: false,
    };
    let r = vec![everyone, moderator, officer];
    assert(default_role_view(r@[0]) == default_role_rows()[0]);
    assert(default_role_view(r@[1]) == default_role_rows()[1]);
    assert(default_role_view(r@[2]) == default_role_rows()[2]);
    r
}

/// Among the default roles, a role of higher rank (a lower position) holds
/// every permission of a role of lower rank; exactly one of them is the
/// @everyone role, and its permissions are allowed for @everyone.
pub proof fn lemma_default_roles_ranked()
    ensures
        forall|i: int, j: int|
            0 <= i < 3 && 0 <= j < 3 && (#[trigger] default_role_rows()[i]).3
                < (#[trigger] default_role_rows()[j]).3 ==> default_role_rows()[i].2
                & default_role_rows()[j].2 == default_role_rows()[j].2,
        forall|i: int| 0 <= i < 3 ==> ((#[trigger] default_role_rows()[i]).4 <==> i == 0),
        default_role_rows()[0].2 & EVERYONE_FORBIDDEN_BITS == 0,
{
    lemma_preset_hierarchy();
    let rows = default_role_rows();
    let (o, m, e) = (OFFICER_DEFAULT_BITS, MODERATOR_DEFAULT_BITS, EVERYONE_DEFAULT_BITS);
    assert(o & e == e) by (bit_vector)
        requires
            o & m == m,
            m & e == e,
    ;
    assert forall|i: int, j: int|
        0 <= i < 3 && 0 <= j < 3 && (#[trigger] rows[i]).3 < (#[trigger] rows[j]).3 implies rows[i].2
        & rows[j].2 == rows[j].2 by {
        assert(i == 0 || i == 1 || i == 2);
        assert(j == 0 || j == 1 || j == 2);
    }
}

} // verus!
