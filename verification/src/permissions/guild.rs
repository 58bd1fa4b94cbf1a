//! Guild-level permissions as a 64-bit bitfield.
//!
//! Permissions are organized into categories:
//! - Content (bits 0-4): message and media permissions
//! - Voice (bits 5-9): voice channel permissions
//! - Moderation (bits 10-13): member management permissions
//! - Guild management (bits 14-18): administrative permissions
//! - Invites (bits 19-20): invite-related permissions
//! - Pages (bit 21): information page management
//! - Screen sharing (bit 22), mentions (bit 23), channel visibility (bit 24)
//!
//! The value is stored as a BIGINT in PostgreSQL; unknown bits are dropped
//! whenever a value enters the type, so every value holds only defined flags.

use vstd::prelude::*;

verus! {

/// Bit of [`GuildPermissions::SEND_MESSAGES`].
pub const SEND_MESSAGES_BIT: u64 = 1 << 0;

/// Bit of [`GuildPermissions::EMBED_LINKS`].
pub const EMBED_LINKS_BIT: u64 = 1 << 1;

/// Bit of [`GuildPermissions::ATTACH_FILES`].
pub const ATTACH_FILES_BIT: u64 = 1 << 2;

/// Bit of [`GuildPermissions::USE_EMOJI`].
pub const USE_EMOJI_BIT: u64 = 1 << 3;

/// Bit of [`GuildPermissions::ADD_REACTIONS`].
pub const ADD_REACTIONS_BIT: u64 = 1 << 4;

/// Bit of [`GuildPermissions::VOICE_CONNECT`].
pub const VOICE_CONNECT_BIT: u64 = 1 << 5;

/// Bit of [`GuildPermissions::VOICE_SPEAK`].
pub const VOICE_SPEAK_BIT: u64 = 1 << 6;

/// Bit of [`GuildPermissions::VOICE_MUTE_OTHERS`].
pub const VOICE_MUTE_OTHERS_BIT: u64 = 1 << 7;

/// Bit of [`GuildPermissions::VOICE_DEAFEN_OTHERS`].
pub const VOICE_DEAFEN_OTHERS_BIT: u64 = 1 << 8;

/// Bit of [`GuildPermissions::VOICE_MOVE_MEMBERS`].
pub const VOICE_MOVE_MEMBERS_BIT: u64 = 1 << 9;

/// Bit of [`GuildPermissions::MANAGE_MESSAGES`].
pub const MANAGE_MESSAGES_BIT: u64 = 1 << 10;

/// Bit of [`GuildPermissions::TIMEOUT_MEMBERS`].
pub const TIMEOUT_MEMBERS_BIT: u64 = 1 << 11;

/// Bit of [`GuildPermissions::KICK_MEMBERS`].
pub const KICK_MEMBERS_BIT: u64 = 1 << 12;

/// Bit of [`GuildPermissions::BAN_MEMBERS`].
pub const BAN_MEMBERS_BIT: u64 = 1 << 13;

/// Bit of [`GuildPermissions::MANAGE_CHANNELS`].
pub const MANAGE_CHANNELS_BIT: u64 = 1 << 14;

/// Bit of [`GuildPermissions::MANAGE_ROLES`].
pub const MANAGE_ROLES_BIT: u64 = 1 << 15;

/// Bit of [`GuildPermissions::VIEW_AUDIT_LOG`].
pub const VIEW_AUDIT_LOG_BIT: u64 = 1 << 16;

/// Bit of [`GuildPermissions::MANAGE_GUILD`].
pub const MANAGE_GUILD_BIT: u64 = 1 << 17;

/// Bit of [`GuildPermissions::TRANSFER_OWNERSHIP`].
pub const TRANSFER_OWNERSHIP_BIT: u64 = 1 << 18;

/// Bit of [`GuildPermissions::CREATE_INVITE`].
pub const CREATE_INVITE_BIT: u64 = 1 << 19;

/// Bit of [`GuildPermissions::MANAGE_INVITES`].
pub const MANAGE_INVITES_BIT: u64 = 1 << 20;

/// Bit of [`GuildPermissions::MANAGE_PAGES`].
pub const MANAGE_PAGES_BIT: u64 = 1 << 21;

/// Bit of [`GuildPermissions::SCREEN_SHARE`].
pub const SCREEN_SHARE_BIT: u64 = 1 << 22;

/// Bit of [`GuildPermissions::MENTION_EVERYONE`].
pub const MENTION_EVERYONE_BIT: u64 = 1 << 23;

/// Bit of [`GuildPermissions::VIEW_CHANNEL`].
pub const VIEW_CHANNEL_BIT: u64 = 1 << 24;

/// The mask of every defined guild permission bit (bits 0 through 24).
pub const ALL_BITS: u64 = 0x1FF_FFFF;

/// Bits of the default @everyone role: basic content, basic voice and invites.
pub const EVERYONE_DEFAULT_BITS: u64 = SEND_MESSAGES_BIT | EMBED_LINKS_BIT | ATTACH_FILES_BIT
    | USE_EMOJI_BIT | ADD_REACTIONS_BIT | VOICE_CONNECT_BIT | VOICE_SPEAK_BIT | CREATE_INVITE_BIT;

/// Bits of the default moderator role: @everyone plus voice moderation and
/// member management.
pub const MODERATOR_DEFAULT_BITS: u64 = EVERYONE_DEFAULT_BITS | VOICE_MUTE_OTHERS_BIT
    | VOICE_DEAFEN_OTHERS_BIT | VOICE_MOVE_MEMBERS_BIT | MANAGE_MESSAGES_BIT | TIMEOUT_MEMBERS_BIT
    | KICK_MEMBERS_BIT | VIEW_AUDIT_LOG_BIT | MANAGE_INVITES_BIT | SCREEN_SHARE_BIT
    | MENTION_EVERYONE_BIT;

/// Bits of the default officer role: moderator plus ban, channel and page management.
pub const OFFICER_DEFAULT_BITS: u64 = MODERATOR_DEFAULT_BITS | BAN_MEMBERS_BIT | MANAGE_CHANNELS_BIT
    | MANAGE_PAGES_BIT;

/// Bits that the @everyone role may never hold.
pub const EVERYONE_FORBIDDEN_BITS: u64 = VOICE_MUTE_OTHERS_BIT | VOICE_DEAFEN_OTHERS_BIT
    | VOICE_MOVE_MEMBERS_BIT | MANAGE_MESSAGES_BIT | TIMEOUT_MEMBERS_BIT | KICK_MEMBERS_BIT
    | BAN_MEMBERS_BIT | MANAGE_CHANNELS_BIT | MANAGE_ROLES_BIT | VIEW_AUDIT_LOG_BIT
    | MANAGE_GUILD_BIT | TRANSFER_OWNERSHIP_BIT | MANAGE_INVITES_BIT | MANAGE_PAGES_BIT
    | SCREEN_SHARE_BIT | MENTION_EVERYONE_BIT;

/// Guild permissions represented as a 64-bit bitfield.
///
/// The view is the bit pattern; only the bits of [`ALL_BITS`] can ever be set.
#[derive(Debug, Clone, Copy, PartialEq, Eq, Hash, Structural)]
pub struct GuildPermissions {
    bits: u64,
}

impl View for GuildPermissions {
    type V = u64;

    closed spec fn view(&self) -> u64 {
        self.bits
    }
}

/// The bit patterns that a permission set can take: no bit outside [`ALL_BITS`].
pub open spec fn known_bits(b: u64) -> bool {
    b & !ALL_BITS == 0
}

/// A single flag bit below bit 25 is a defined bit.
proof fn lemma_flag_known(b: u64)
    by (bit_vector)
    requires
        b < 25,
    ensures
        (1u64 << b) & !0x1FF_FFFFu64 == 0,
{
}

/// Bit-level facts about the defined-bit mask.
proof fn lemma_mask_facts(a: u64, b: u64)
    by (bit_vector)
    ensures
        0u64 & !0x1FF_FFFFu64 == 0,
        0x1FF_FFFFu64 & !0x1FF_FFFFu64 == 0,
        (a & 0x1FF_FFFFu64) & !0x1FF_FFFFu64 == 0,
        a & !0x1FF_FFFFu64 == 0 ==> a <= 0x1FF_FFFFu64,
        a & !0x1FF_FFFFu64 == 0 ==> (a & b) & !0x1FF_FFFFu64 == 0,
        a & !0x1FF_FFFFu64 == 0 ==> (a & !b) & !0x1FF_FFFFu64 == 0,
        a & !0x1FF_FFFFu64 == 0 && b & !0x1FF_FFFFu64 == 0 ==> (a | b) & !0x1FF_FFFFu64 == 0,
{
}

/// The preset role bit patterns hold only defined bits.
proof fn lemma_presets()
    by (bit_vector)
    ensures
        EVERYONE_DEFAULT_BITS == 0x8007Fu64,
        MODERATOR_DEFAULT_BITS == 0xD91FFFu64,
        OFFICER_DEFAULT_BITS == 0xF97FFFu64,
        EVERYONE_FORBIDDEN_BITS == 0xF7FF80u64,
        EVERYONE_DEFAULT_BITS & !ALL_BITS == 0,
        MODERATOR_DEFAULT_BITS & !ALL_BITS == 0,
        OFFICER_DEFAULT_BITS & !ALL_BITS == 0,
        EVERYONE_FORBIDDEN_BITS & !ALL_BITS == 0,
{
}


/// The name of flag bit `i` (0 through 24).
pub open spec fn flag_name(i: u64) -> Seq<char> {
    match i {
        0 => "SEND_MESSAGES"@,
        1 => "EMBED_LINKS"@,
        2 => "ATTACH_FILES"@,
        3 => "USE_EMOJI"@,
        4 => "ADD_REACTIONS"@,
        5 => "VOICE_CONNECT"@,
        6 => "VOICE_SPEAK"@,
        7 => "VOICE_MUTE_OTHERS"@,
        8 => "VOICE_DEAFEN_OTHERS"@,
        9 => "VOICE_MOVE_MEMBERS"@,
        10 => "MANAGE_MESSAGES"@,
        11 => "TIMEOUT_MEMBERS"@,
        12 => "KICK_MEMBERS"@,
        13 => "BAN_MEMBERS"@,
        14 => "MANAGE_CHANNELS"@,
        15 => "MANAGE_ROLES"@,
        16 => "VIEW_AUDIT_LOG"@,
        17 => "MANAGE_GUILD"@,
        18 => "TRANSFER_OWNERSHIP"@,
        19 => "CREATE_INVITE"@,
        20 => "MANAGE_INVITES"@,
        21 => "MANAGE_PAGES"@,
        22 => "SCREEN_SHARE"@,
        23 => "MENTION_EVERYONE"@,
        _ => "VIEW_CHANNEL"@,
    }
}

/// Whether bit `i` is set in `bits`.
pub open spec fn bit_set(bits: u64, i: u64) -> bool {
    bits & (1u64 << i) != 0
}

/// Names of the set bits among bits 0 through `n - 1`, in ascending order.
pub open spec fn set_flag_names(bits: u64, n: nat) -> Seq<Seq<char>>
    decreases n,
{
    if n == 0 {
        Seq::empty()
    } else {
        let prev = set_flag_names(bits, (n - 1) as nat);
        if bit_set(bits, (n - 1) as u64) {
            prev.push(flag_name((n - 1) as u64))
        } else {
            prev
        }
    }
}

/// The parts joined with `sep` between consecutive parts.
pub open spec fn join(parts: Seq<Seq<char>>, sep: Seq<char>) -> Seq<char>
    decreases parts.len(),
{
    if parts.len() == 0 {
        Seq::empty()
    } else if parts.len() == 1 {
        parts[0]
    } else {
        join(parts.drop_last(), sep) + sep + parts.last()
    }
}

/// The text that describes a permission set: the names of its flags in bit
/// order separated by ` | `, or `0x0` when empty, inside `GuildPermissions(..)`.
pub open spec fn describe_text(bits: u64) -> Seq<char> {
    "GuildPermissions("@ + (if bits == 0 {
        "0x0"@
    } else {
        join(set_flag_names(bits, 25), " | "@)
    }) + ")"@
}

fn flag_name_str(i: u64) -> (r: &'static str)
    requires
        i < 25,
    ensures
        r@ == flag_name(i),
{
    match i {
        0 => "SEND_MESSAGES",
        1 => "EMBED_LINKS",
        2 => "ATTACH_FILES",
        3 => "USE_EMOJI",
        4 => "ADD_REACTIONS",
        5 => "VOICE_CONNECT",
        6 => "VOICE_SPEAK",
        7 => "VOICE_MUTE_OTHERS",
        8 => "VOICE_DEAFEN_OTHERS",
        9 => "VOICE_MOVE_MEMBERS",
        10 => "MANAGE_MESSAGES",
        11 => "TIMEOUT_MEMBERS",
        12 => "KICK_MEMBERS",
        13 => "BAN_MEMBERS",
        14 => "MANAGE_CHANNELS",
        15 => "MANAGE_ROLES",
        16 => "VIEW_AUDIT_LOG",
        17 => "MANAGE_GUILD",
        18 => "TRANSFER_OWNERSHIP",
        19 => "CREATE_INVITE",
        20 => "MANAGE_INVITES",
        21 => "MANAGE_PAGES",
        22 => "SCREEN_SHARE",
        23 => "MENTION_EVERYONE",
        _ => "VIEW_CHANNEL",
    }
}

impl GuildPermissions {
    #[verifier::type_invariant]
    spec fn only_known_bits(self) -> bool {
        known_bits(self.bits)
    }

    /// Builds a permission set from bits that are already known to be defined.
    fn from_known(bits: u64) -> (r: Self)
        requires known_bits(bits),
        ensures r@ == bits,
    {
        GuildPermissions { bits }
    }

    /// Permission to send text messages in channels.
    #[allow(non_snake_case)]
    pub fn SEND_MESSAGES() -> (r: Self)
        ensures r@ == SEND_MESSAGES_BIT,
    {
        proof { lemma_flag_known(0); }
        Self::from_known(SEND_MESSAGES_BIT)
    }

    /// Permission to embed links in messages (auto-preview).
    #[allow(non_snake_case)]
    pub fn EMBED_LINKS() -> (r: Self)
        ensures r@ == EMBED_LINKS_BIT,
    {
        proof { lemma_flag_known(1); }
        Self::from_known(EMBED_LINKS_BIT)
    }

    /// Permission to attach files to messages.
    #[allow(non_snake_case)]
    pub fn ATTACH_FILES() -> (r: Self)
        ensures r@ == ATTACH_FILES_BIT,
    {
        proof { lemma_flag_known(2); }
        Self::from_known(ATTACH_FILES_BIT)
    }

    /// Permission to use custom emoji.
    #[allow(non_snake_case)]
    pub fn USE_EMOJI() -> (r: Self)
        ensures r@ == USE_EMOJI_BIT,
    {
        proof { lemma_flag_known(3); }
        Self::from_known(USE_EMOJI_BIT)
    }

    /// Permission to add reactions to messages.
    #[allow(non_snake_case)]
    pub fn ADD_REACTIONS() -> (r: Self)
        ensures r@ == ADD_REACTIONS_BIT,
    {
        proof { lemma_flag_known(4); }
        Self::from_known(ADD_REACTIONS_BIT)
    }

    /// Permission to connect to voice channels.
    #[allow(non_snake_case)]
    pub fn VOICE_CONNECT() -> (r: Self)
        ensures r@ == VOICE_CONNECT_BIT,
    {
        proof { lemma_flag_known(5); }
        Self::from_known(VOICE_CONNECT_BIT)
    }

    /// Permission to speak in voice channels.
    #[allow(non_snake_case)]
    pub fn VOICE_SPEAK() -> (r: Self)
        ensures r@ == VOICE_SPEAK_BIT,
    {
        proof { lemma_flag_known(6); }
        Self::from_known(VOICE_SPEAK_BIT)
    }

    /// Permission to mute other members in voice channels.
    #[allow(non_snake_case)]
    pub fn VOICE_MUTE_OTHERS() -> (r: Self)
        ensures r@ == VOICE_MUTE_OTHERS_BIT,
    {
        proof { lemma_flag_known(7); }
        Self::from_known(VOICE_MUTE_OTHERS_BIT)
    }

    /// Permission to deafen other members in voice channels.
    #[allow(non_snake_case)]
    pub fn VOICE_DEAFEN_OTHERS() -> (r: Self)
        ensures r@ == VOICE_DEAFEN_OTHERS_BIT,
    {
        proof { lemma_flag_known(8); }
        Self::from_known(VOICE_DEAFEN_OTHERS_BIT)
    }

    /// Permission to move members between voice channels.
    #[allow(non_snake_case)]
    pub fn VOICE_MOVE_MEMBERS() -> (r: Self)
        ensures r@ == VOICE_MOVE_MEMBERS_BIT,
    {
        proof { lemma_flag_known(9); }
        Self::from_known(VOICE_MOVE_MEMBERS_BIT)
    }

    /// Permission to delete messages from other members.
    #[allow(non_snake_case)]
    pub fn MANAGE_MESSAGES() -> (r: Self)
        ensures r@ == MANAGE_MESSAGES_BIT,
    {
        proof { lemma_flag_known(10); }
        Self::from_known(MANAGE_MESSAGES_BIT)
    }

    /// Permission to timeout members (temporary mute).
    #[allow(non_snake_case)]
    pub fn TIMEOUT_MEMBERS() -> (r: Self)
        ensures r@ == TIMEOUT_MEMBERS_BIT,
    {
        proof { lemma_flag_known(11); }
        Self::from_known(TIMEOUT_MEMBERS_BIT)
    }

    /// Permission to kick members from the guild.
    #[allow(non_snake_case)]
    pub fn KICK_MEMBERS() -> (r: Self)
        ensures r@ == KICK_MEMBERS_BIT,
    {
        proof { lemma_flag_known(12); }
        Self::from_known(KICK_MEMBERS_BIT)
    }

    /// Permission to ban members from the guild.
    #[allow(non_snake_case)]
    pub fn BAN_MEMBERS() -> (r: Self)
        ensures r@ == BAN_MEMBERS_BIT,
    {
        proof { lemma_flag_known(13); }
        Self::from_known(BAN_MEMBERS_BIT)
    }

    /// Permission to create, edit, and delete channels.
    #[allow(non_snake_case)]
    pub fn MANAGE_CHANNELS() -> (r: Self)
        ensures r@ == MANAGE_CHANNELS_BIT,
    {
        proof { lemma_flag_known(14); }
        Self::from_known(MANAGE_CHANNELS_BIT)
    }

    /// Permission to create, edit, and delete roles.
    #[allow(non_snake_case)]
    pub fn MANAGE_ROLES() -> (r: Self)
        ensures r@ == MANAGE_ROLES_BIT,
    {
        proof { lemma_flag_known(15); }
        Self::from_known(MANAGE_ROLES_BIT)
    }

    /// Permission to view the guild audit log.
    #[allow(non_snake_case)]
    pub fn VIEW_AUDIT_LOG() -> (r: Self)
        ensures r@ == VIEW_AUDIT_LOG_BIT,
    {
        proof { lemma_flag_known(16); }
        Self::from_known(VIEW_AUDIT_LOG_BIT)
    }

    /// Permission to modify guild settings.
    #[allow(non_snake_case)]
    pub fn MANAGE_GUILD() -> (r: Self)
        ensures r@ == MANAGE_GUILD_BIT,
    {
        proof { lemma_flag_known(17); }
        Self::from_known(MANAGE_GUILD_BIT)
    }

    /// Permission to transfer guild ownership (owner only).
    #[allow(non_snake_case)]
    pub fn TRANSFER_OWNERSHIP() -> (r: Self)
        ensures r@ == TRANSFER_OWNERSHIP_BIT,
    {
        proof { lemma_flag_known(18); }
        Self::from_known(TRANSFER_OWNERSHIP_BIT)
    }

    /// Permission to create invite links.
    #[allow(non_snake_case)]
    pub fn CREATE_INVITE() -> (r: Self)
        ensures r@ == CREATE_INVITE_BIT,
    {
        proof { lemma_flag_known(19); }
        Self::from_known(CREATE_INVITE_BIT)
    }

    /// Permission to manage (revoke) invite links.
    #[allow(non_snake_case)]
    pub fn MANAGE_INVITES() -> (r: Self)
        ensures r@ == MANAGE_INVITES_BIT,
    {
        proof { lemma_flag_known(20); }
        Self::from_known(MANAGE_INVITES_BIT)
    }

    /// Permission to create, edit, delete, and reorder guild information pages.
    #[allow(non_snake_case)]
    pub fn MANAGE_PAGES() -> (r: Self)
        ensures r@ == MANAGE_PAGES_BIT,
    {
        proof { lemma_flag_known(21); }
        Self::from_known(MANAGE_PAGES_BIT)
    }

    /// Permission to start screen sharing in voice channels.
    #[allow(non_snake_case)]
    pub fn SCREEN_SHARE() -> (r: Self)
        ensures r@ == SCREEN_SHARE_BIT,
    {
        proof { lemma_flag_known(22); }
        Self::from_known(SCREEN_SHARE_BIT)
    }

    /// Permission to mention @everyone and @here.
    #[allow(non_snake_case)]
    pub fn MENTION_EVERYONE() -> (r: Self)
        ensures r@ == MENTION_EVERYONE_BIT,
    {
        proof { lemma_flag_known(23); }
        Self::from_known(MENTION_EVERYONE_BIT)
    }

    /// Permission to view a channel and read its message history.
    #[allow(non_snake_case)]
    pub fn VIEW_CHANNEL() -> (r: Self)
        ensures r@ == VIEW_CHANNEL_BIT,
    {
        proof { lemma_flag_known(24); }
        Self::from_known(VIEW_CHANNEL_BIT)
    }

    /// The empty permission set.
    pub fn empty() -> (r: Self)
        ensures r@ == 0,
    {
        proof { lemma_mask_facts(0, 0); }
        Self::from_known(0)
    }

    /// The set of every defined permission.
    pub fn all() -> (r: Self)
        ensures r@ == ALL_BITS,
    {
        proof { lemma_mask_facts(0, 0); }
        Self::from_known(ALL_BITS)
    }

    /// Keeps the defined bits of `bits` and drops every other bit.
    pub fn from_bits_truncate(bits: u64) -> (r: Self)
        ensures r@ == bits & ALL_BITS,
    {
        proof { lemma_mask_facts(bits, 0); }
        Self::from_known(bits & ALL_BITS)
    }

    /// Builds a permission set when `bits` holds only defined bits.
    pub fn from_bits(bits: u64) -> (r: Option<Self>)
        ensures
            r is Some <==> known_bits(bits),
            r matches Some(p) ==> p@ == bits,
    {
        if bits & !ALL_BITS == 0 {
            Some(Self::from_known(bits))
        } else {
            None
        }
    }

    /// The raw bit pattern.
    pub fn bits(&self) -> (r: u64)
        ensures
            r == self@,
            known_bits(self@),
    {
        proof { use_type_invariant(self); }
        self.bits
    }

    /// Create permissions from a database BIGINT value.
    ///
    /// The i64 bit pattern is reinterpreted as u64 (PostgreSQL has no unsigned
    /// BIGINT), and bits that name no permission are dropped so that values
    /// written by newer versions still load.
    pub fn from_db(value: i64) -> (r: Self)
        ensures r@ == (value as u64) & ALL_BITS,
    {
        Self::from_bits_truncate(value as u64)
    }

    /// Convert permissions to a database BIGINT value.
    ///
    /// Only bits 0 through 24 can be set, so the value is never negative.
    pub fn to_db(self) -> (r: i64)
        ensures
            r as int == self@ as int,
            0 <= r <= ALL_BITS,
            known_bits(self@),
    {
        proof {
            use_type_invariant(&self);
            lemma_mask_facts(self.bits, 0);
        }
        self.bits as i64
    }

    /// True when every bit of `other` is set in `self`.
    pub fn contains(self, other: Self) -> (r: bool)
        ensures r == (self@ & other@ == other@),
    {
        self.bits & other.bits == other.bits
    }

    /// Check if this permission set includes the specified permission(s).
    ///
    /// All bits of `permission` must be present.
    pub fn has(self, permission: Self) -> (r: bool)
        ensures r == (self@ & permission@ == permission@),
    {
        self.contains(permission)
    }

    /// True when `self` and `other` share at least one bit.
    pub fn intersects(self, other: Self) -> (r: bool)
        ensures r == (self@ & other@ != 0),
    {
        self.bits & other.bits != 0
    }

    /// True when no permission is set.
    pub fn is_empty(self) -> (r: bool)
        ensures r == (self@ == 0),
    {
        self.bits == 0
    }

    /// True when every defined permission is set.
    pub fn is_all(self) -> (r: bool)
        ensures r == (self@ == ALL_BITS),
    {
        self.bits == ALL_BITS
    }

    /// The permissions set in either operand.
    pub fn union(self, other: Self) -> (r: Self)
        ensures r@ == self@ | other@,
    {
        proof {
            use_type_invariant(&self);
            use_type_invariant(&other);
            lemma_mask_facts(self.bits, other.bits);
        }
        Self::from_known(self.bits | other.bits)
    }

    /// The permissions set in both operands.
    pub fn intersection(self, other: Self) -> (r: Self)
        ensures r@ == self@ & other@,
    {
        proof {
            use_type_invariant(&self);
            lemma_mask_facts(self.bits, other.bits);
        }
        Self::from_known(self.bits & other.bits)
    }

    /// The permissions of `self` that `other` does not hold.
    pub fn difference(self, other: Self) -> (r: Self)
        ensures r@ == self@ & !other@,
    {
        proof {
            use_type_invariant(&self);
            lemma_mask_facts(self.bits, other.bits);
        }
        Self::from_known(self.bits & !other.bits)
    }

    /// The defined permissions that `self` does not hold.
    pub fn complement(self) -> (r: Self)
        ensures r@ == !self@ & ALL_BITS,
    {
        Self::from_bits_truncate(!self.bits)
    }

    /// Default permissions for the @everyone role.
    ///
    /// Basic content and voice permissions that all members should have.
    #[allow(non_snake_case)]
    pub fn EVERYONE_DEFAULT() -> (r: Self)
        ensures r@ == EVERYONE_DEFAULT_BITS,
    {
        proof { lemma_presets(); }
        Self::from_known(EVERYONE_DEFAULT_BITS)
    }

    /// Default permissions for moderators.
    ///
    /// Content permissions, voice moderation, and member management.
    #[allow(non_snake_case)]
    pub fn MODERATOR_DEFAULT() -> (r: Self)
        ensures r@ == MODERATOR_DEFAULT_BITS,
    {
        proof { lemma_presets(); }
        Self::from_known(MODERATOR_DEFAULT_BITS)
    }

    /// Default permissions for officers (senior moderators).
    ///
    /// Moderator permissions plus ban, channel, and page management.
    #[allow(non_snake_case)]
    pub fn OFFICER_DEFAULT() -> (r: Self)
        ensures r@ == OFFICER_DEFAULT_BITS,
    {
        proof { lemma_presets(); }
        Self::from_known(OFFICER_DEFAULT_BITS)
    }

    /// Permissions that @everyone can never have.
    ///
    /// Sensitive permissions that should only be granted to trusted roles.
    #[allow(non_snake_case)]
    pub fn EVERYONE_FORBIDDEN() -> (r: Self)
        ensures r@ == EVERYONE_FORBIDDEN_BITS,
    {
        proof { lemma_presets(); }
        Self::from_known(EVERYONE_FORBIDDEN_BITS)
    }

    /// Human-readable text of the permission set, such as
    /// `GuildPermissions(SEND_MESSAGES | VOICE_CONNECT)`.
    pub fn describe(&self) -> (r: String)
        ensures
            r@ == describe_text(self@),
    {
        let mut out = "GuildPermissions(".to_owned();
        if self.bits == 0 {
            crate::text::push_str(&mut out, "0x0");
        } else {
            let ghost start = out@;
            let mut any = false;
            let mut i: u64 = 0;
            while i < 25
                invariant
                    i <= 25,
                    out@ == start + join(set_flag_names(self@, i as nat), " | "@),
                    any == (set_flag_names(self@, i as nat).len() > 0),
                decreases 25 - i,
            {
                let ghost prev = set_flag_names(self@, i as nat);
                if self.bits & (1u64 << i) != 0 {
                    if any {
                        crate::text::push_str(&mut out, " | ");
                    }
                    crate::text::push_str(&mut out, flag_name_str(i));
                    any = true;
                    proof {
                        let next = prev.push(flag_name(i));
                        assert(next.drop_last() =~= prev);
                        assert(set_flag_names(self@, (i + 1) as nat) == next);
                        if any {
                            assert(out@ =~= start + join(next, " | "@));
                        } else {
                            assert(out@ =~= start + join(next, " | "@));
                        }
                    }
                }
                i += 1;
            }
        }
        crate::text::push_str(&mut out, ")");
        proof {
            assert(out@ =~= describe_text(self@));
        }
        out
    }

    /// Validate that these permissions are safe for the @everyone role:
    /// true exactly when none of the forbidden permissions is present.
    pub fn validate_for_everyone(self) -> (r: bool)
        ensures r == (self@ & EVERYONE_FORBIDDEN_BITS == 0),
    {
        !self.intersects(Self::EVERYONE_FORBIDDEN())
    }
}

impl Default for GuildPermissions {
    fn default() -> (r: Self)
        ensures r@ == 0,
    {
        Self::empty()
    }
}

impl vstd::std_specs::ops::BitOrSpecImpl for GuildPermissions {
    open spec fn obeys_bitor_spec() -> bool {
        true
    }

    open spec fn bitor_req(self, rhs: Self) -> bool {
        true
    }

    closed spec fn bitor_spec(self, rhs: Self) -> Self {
        GuildPermissions { bits: self.bits | rhs.bits }
    }
}

impl core::ops::BitOr for GuildPermissions {
    type Output = Self;

    /// Union.
    fn bitor(self, rhs: Self) -> (r: Self)
        ensures r@ == self@ | rhs@,
    {
        self.union(rhs)
    }
}

impl vstd::std_specs::ops::BitAndSpecImpl for GuildPermissions {
    open spec fn obeys_bitand_spec() -> bool {
        true
    }

    open spec fn bitand_req(self, rhs: Self) -> bool {
        true
    }

    closed spec fn bitand_spec(self, rhs: Self) -> Self {
        GuildPermissions { bits: self.bits & rhs.bits }
    }
}

impl core::ops::BitAnd for GuildPermissions {
    type Output = Self;

    /// Intersection.
    fn bitand(self, rhs: Self) -> (r: Self)
        ensures r@ == self@ & rhs@,
    {
        self.intersection(rhs)
    }
}

impl vstd::std_specs::ops::SubSpecImpl for GuildPermissions {
    open spec fn obeys_sub_spec() -> bool {
        true
    }

    open spec fn sub_req(self, rhs: Self) -> bool {
        true
    }

    closed spec fn sub_spec(self, rhs: Self) -> Self {
        GuildPermissions { bits: self.bits & !rhs.bits }
    }
}

impl core::ops::Sub for GuildPermissions {
    type Output = Self;

    /// Difference.
    fn sub(self, rhs: Self) -> (r: Self)
        ensures r@ == self@ & !rhs@,
    {
        self.difference(rhs)
    }
}

impl vstd::std_specs::ops::NotSpecImpl for GuildPermissions {
    open spec fn obeys_not_spec() -> bool {
        true
    }

    open spec fn not_req(self) -> bool {
        true
    }

    closed spec fn not_spec(self) -> Self {
        GuildPermissions { bits: !self.bits & ALL_BITS }
    }
}

impl core::ops::Not for GuildPermissions {
    type Output = Self;

    /// Complement within the defined permissions.
    fn not(self) -> (r: Self)
        ensures r@ == !self@ & ALL_BITS,
    {
        self.complement()
    }
}

/// A permission set is determined by its bits.
pub proof fn lemma_bits_determine(a: GuildPermissions, b: GuildPermissions)
    requires
        a@ == b@,
    ensures
        a == b,
{
}

/// The permission set with the given bits (any one, when no set has them).
pub open spec fn perms_with_bits(bits: u64) -> GuildPermissions {
    choose|p: GuildPermissions| p@ == bits
}

/// A permission set is the set with its own bits.
pub proof fn lemma_perms_with_bits(p: GuildPermissions)
    ensures
        perms_with_bits(p@) == p,
{
    let q = perms_with_bits(p@);
    assert(q@ == p@);
    lemma_bits_determine(q, p);
}

/// Storing a permission set in the database and loading it back gives the
/// same set.
pub proof fn lemma_db_roundtrip(bits: u64)
    requires
        known_bits(bits),
    ensures
        ((bits as i64) as u64) & ALL_BITS == bits,
{
    assert(bits & !0x1FF_FFFFu64 == 0 ==> ((bits as i64) as u64) & 0x1FF_FFFFu64 == bits)
        by (bit_vector);
}

/// No two permissions share a bit, and together the 25 permissions are
/// exactly the defined bits.
pub proof fn lemma_flags_distinct()
    ensures
        forall|i: u64, j: u64| i < j < 25 ==> #[trigger] (1u64 << i) & #[trigger] (1u64 << j) == 0,
        SEND_MESSAGES_BIT | EMBED_LINKS_BIT | ATTACH_FILES_BIT | USE_EMOJI_BIT | ADD_REACTIONS_BIT
            | VOICE_CONNECT_BIT | VOICE_SPEAK_BIT | VOICE_MUTE_OTHERS_BIT | VOICE_DEAFEN_OTHERS_BIT
            | VOICE_MOVE_MEMBERS_BIT | MANAGE_MESSAGES_BIT | TIMEOUT_MEMBERS_BIT | KICK_MEMBERS_BIT
            | BAN_MEMBERS_BIT | MANAGE_CHANNELS_BIT | MANAGE_ROLES_BIT | VIEW_AUDIT_LOG_BIT
            | MANAGE_GUILD_BIT | TRANSFER_OWNERSHIP_BIT | CREATE_INVITE_BIT | MANAGE_INVITES_BIT
            | MANAGE_PAGES_BIT | SCREEN_SHARE_BIT | MENTION_EVERYONE_BIT | VIEW_CHANNEL_BIT
            == ALL_BITS,
{
    assert forall|i: u64, j: u64| i < j < 25 implies #[trigger] (1u64 << i) & #[trigger] (1u64
        << j) == 0 by {
        assert((1u64 << i) & (1u64 << j) == 0) by (bit_vector)
            requires
                i < j < 25,
        ;
    }
    assert(SEND_MESSAGES_BIT | EMBED_LINKS_BIT | ATTACH_FILES_BIT | USE_EMOJI_BIT
        | ADD_REACTIONS_BIT | VOICE_CONNECT_BIT | VOICE_SPEAK_BIT | VOICE_MUTE_OTHERS_BIT
        | VOICE_DEAFEN_OTHERS_BIT | VOICE_MOVE_MEMBERS_BIT | MANAGE_MESSAGES_BIT
        | TIMEOUT_MEMBERS_BIT | KICK_MEMBERS_BIT | BAN_MEMBERS_BIT | MANAGE_CHANNELS_BIT
        | MANAGE_ROLES_BIT | VIEW_AUDIT_LOG_BIT | MANAGE_GUILD_BIT | TRANSFER_OWNERSHIP_BIT
        | CREATE_INVITE_BIT | MANAGE_INVITES_BIT | MANAGE_PAGES_BIT | SCREEN_SHARE_BIT
        | MENTION_EVERYONE_BIT | VIEW_CHANNEL_BIT == ALL_BITS) by (bit_vector);
}

/// Each preset role extends the one below it, and the @everyone default is
/// itself safe for @everyone.
pub proof fn lemma_preset_hierarchy()
    ensures
        MODERATOR_DEFAULT_BITS & EVERYONE_DEFAULT_BITS == EVERYONE_DEFAULT_BITS,
        OFFICER_DEFAULT_BITS & MODERATOR_DEFAULT_BITS == MODERATOR_DEFAULT_BITS,
        EVERYONE_DEFAULT_BITS & EVERYONE_FORBIDDEN_BITS == 0,
        OFFICER_DEFAULT_BITS & TRANSFER_OWNERSHIP_BIT == 0,
        ALL_BITS & !EVERYONE_FORBIDDEN_BITS & EVERYONE_FORBIDDEN_BITS == 0,
{
    lemma_presets();
    assert(0xD91FFFu64 & 0x8007Fu64 == 0x8007Fu64 && 0xF97FFFu64 & 0xD91FFFu64 == 0xD91FFFu64
        && 0x8007Fu64 & 0xF7FF80u64 == 0 && 0xF97FFFu64 & (1u64 << 18u64) == 0
        && 0x1FF_FFFFu64 & !0xF7FF80u64 & 0xF7FF80u64 == 0) by (bit_vector);
}

} // verus!
