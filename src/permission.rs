use vstd::prelude::*;
use vstd::string::*;

verus! {

/// How many permission flags the platform defines.
pub const FLAG_COUNT: u64 = 41;

/// Every bit that belongs to a named permission flag.
pub const ALL_BITS: u64 = 0x1ff_ffff_ffff;

/// One named permission, in the platform's declaration order: the flag's
/// position in this enumeration is its bit in a permission mask.
#[derive(Clone, Copy, Debug, PartialEq, Eq, Structural)]
pub enum Permissions {
    CreateInstantInvite,
    KickMembers,
    BanMembers,
    Administrator,
    ManageChannels,
    ManageGuild,
    AddReactions,
    ViewAuditLog,
    PrioritySpeaker,
    Stream,
    ViewChannel,
    SendMessages,
    SendTtsMessages,
    ManageMessages,
    EmbedLinks,
    AttachFiles,
    ReadMessageHistory,
    MentionEveryone,
    UseExternalEmojis,
    ViewGuildInsights,
    Connect,
    Speak,
    MuteMembers,
    DeafenMembers,
    MoveMembers,
    UseVad,
    ChangeNickname,
    ManageNicknames,
    ManageRoles,
    ManageWebhooks,
    ManageEmojisAndStickers,
    UseApplicationCommands,
    RequestToSpeak,
    ManageEvents,
    ManageThreads,
    CreatePublicThreads,
    CreatePrivateThreads,
    UseExternalStickers,
    SendMessagesInThreads,
    UseEmbeddedActivities,
    ModerateMembers,
}

impl Permissions {
    /// The bit position of the flag.
    pub open spec fn index(self) -> nat {
        match self {
            Permissions::CreateInstantInvite => 0,
            Permissions::KickMembers => 1,
            Permissions::BanMembers => 2,
            Permissions::Administrator => 3,
            Permissions::ManageChannels => 4,
            Permissions::ManageGuild => 5,
            Permissions::AddReactions => 6,
            Permissions::ViewAuditLog => 7,
            Permissions::PrioritySpeaker => 8,
            Permissions::Stream => 9,
            Permissions::ViewChannel => 10,
            Permissions::SendMessages => 11,
            Permissions::SendTtsMessages => 12,
            Permissions::ManageMessages => 13,
            Permissions::EmbedLinks => 14,
            Permissions::AttachFiles => 15,
            Permissions::ReadMessageHistory => 16,
            Permissions::MentionEveryone => 17,
            Permissions::UseExternalEmojis => 18,
            Permissions::ViewGuildInsights => 19,
            Permissions::Connect => 20,
            Permissions::Speak => 21,
            Permissions::MuteMembers => 22,
            Permissions::DeafenMembers => 23,
            Permissions::MoveMembers => 24,
            Permissions::UseVad => 25,
            Permissions::ChangeNickname => 26,
            Permissions::ManageNicknames => 27,
            Permissions::ManageRoles => 28,
            Permissions::ManageWebhooks => 29,
            Permissions::ManageEmojisAndStickers => 30,
            Permissions::UseApplicationCommands => 31,
            Permissions::RequestToSpeak => 32,
            Permissions::ManageEvents => 33,
            Permissions::ManageThreads => 34,
            Permissions::CreatePublicThreads => 35,
            Permissions::CreatePrivateThreads => 36,
            Permissions::UseExternalStickers => 37,
            Permissions::SendMessagesInThreads => 38,
            Permissions::UseEmbeddedActivities => 39,
            Permissions::ModerateMembers => 40,
        }
    }

    /// The flag's human-readable name.
    pub open spec fn label(self) -> Seq<char> {
        match self {
            Permissions::CreateInstantInvite => "Create Invite"@,
            Permissions::KickMembers => "Kick Members"@,
            Permissions::BanMembers => "Ban Members"@,
            Permissions::Administrator => "Administrator"@,
            Permissions::ManageChannels => "Manage Channels"@,
            Permissions::ManageGuild => "Manage Server"@,
            Permissions::AddReactions => "Add Reactions"@,
            Permissions::ViewAuditLog => "View Audit Log"@,
            Permissions::PrioritySpeaker => "Priority Speaker"@,
            Permissions::Stream => "Video"@,
            Permissions::ViewChannel => "View Channels"@,
            Permissions::SendMessages => "Send Messages"@,
            Permissions::SendTtsMessages => "Send Text-to-Speech Messages"@,
            Permissions::ManageMessages => "Manage Messages"@,
            Permissions::EmbedLinks => "Embed Links"@,
            Permissions::AttachFiles => "Attach Files"@,
            Permissions::ReadMessageHistory => "Read Message History"@,
            Permissions::MentionEveryone => "Mention @everyone, @here, and All Roles"@,
            Permissions::UseExternalEmojis => "Use External Emoji"@,
            Permissions::ViewGuildInsights => "View Server Insights"@,
            Permissions::Connect => "Connect"@,
            Permissions::Speak => "Speak"@,
            Permissions::MuteMembers => "Mute Members"@,
            Permissions::DeafenMembers => "Deafen Members"@,
            Permissions::MoveMembers => "Move Members"@,
            Permissions::UseVad => "Use Voice Activity"@,
            Permissions::ChangeNickname => "Change Nickname"@,
            Permissions::ManageNicknames => "Manage Nicknames"@,
            Permissions::ManageRoles => "Manage Roles"@,
            Permissions::ManageWebhooks => "Manage Webhooks"@,
            Permissions::ManageEmojisAndStickers => "Manage Emoji and Stickers"@,
            Permissions::UseApplicationCommands => "Use Application Commands"@,
            Permissions::RequestToSpeak => "Request to Speak"@,
            Permissions::ManageEvents => "Manage Events"@,
            Permissions::ManageThreads => "Manage Threads"@,
            Permissions::CreatePublicThreads => "Create Public Threads"@,
            Permissions::CreatePrivateThreads => "Create Private Threads"@,
            Permissions::UseExternalStickers => "Use External Stickers"@,
            Permissions::SendMessagesInThreads => "Send Messages in Threads"@,
            Permissions::UseEmbeddedActivities => "Use Activities"@,
            Permissions::ModerateMembers => "Timeout Members"@,
        }
    }

    /// The bit position of the flag.
    pub fn position(self) -> (r: u64)
        ensures
            r as nat == self.index(),
    {
        match self {
            Permissions::CreateInstantInvite => 0,
            Permissions::KickMembers => 1,
            Permissions::BanMembers => 2,
            Permissions::Administrator => 3,
            Permissions::ManageChannels => 4,
            Permissions::ManageGuild => 5,
            Permissions::AddReactions => 6,
            Permissions::ViewAuditLog => 7,
            Permissions::PrioritySpeaker => 8,
            Permissions::Stream => 9,
            Permissions::ViewChannel => 10,
            Permissions::SendMessages => 11,
            Permissions::SendTtsMessages => 12,
            Permissions::ManageMessages => 13,
            Permissions::EmbedLinks => 14,
            Permissions::AttachFiles => 15,
            Permissions::ReadMessageHistory => 16,
            Permissions::MentionEveryone => 17,
            Permissions::UseExternalEmojis => 18,
            Permissions::ViewGuildInsights => 19,
            Permissions::Connect => 20,
            Permissions::Speak => 21,
            Permissions::MuteMembers => 22,
            Permissions::DeafenMembers => 23,
            Permissions::MoveMembers => 24,
            Permissions::UseVad => 25,
            Permissions::ChangeNickname => 26,
            Permissions::ManageNicknames => 27,
            Permissions::ManageRoles => 28,
            Permissions::ManageWebhooks => 29,
            Permissions::ManageEmojisAndStickers => 30,
            Permissions::UseApplicationCommands => 31,
            Permissions::RequestToSpeak => 32,
            Permissions::ManageEvents => 33,
            Permissions::ManageThreads => 34,
            Permissions::CreatePublicThreads => 35,
            Permissions::CreatePrivateThreads => 36,
            Permissions::UseExternalStickers => 37,
            Permissions::SendMessagesInThreads => 38,
            Permissions::UseEmbeddedActivities => 39,
            Permissions::ModerateMembers => 40,
        }
    }

    /// The mask holding this flag alone.
    pub fn bit(self) -> (r: u64)
        ensures
            r == 1u64 << (self.index() as u64),
    {
        1u64 << self.position()
    }

    /// The flag's human-readable name.
    pub fn name(self) -> (r: &'static str)
        ensures
            r@ == self.label(),
    {
        match self {
            Permissions::CreateInstantInvite => "Create Invite",
            Permissions::KickMembers => "Kick Members",
            Permissions::BanMembers => "Ban Members",
            Permissions::Administrator => "Administrator",
            Permissions::ManageChannels => "Manage Channels",
            Permissions::ManageGuild => "Manage Server",
            Permissions::AddReactions => "Add Reactions",
            Permissions::ViewAuditLog => "View Audit Log",
            Permissions::PrioritySpeaker => "Priority Speaker",
            Permissions::Stream => "Video",
            Permissions::ViewChannel => "View Channels",
            Permissions::SendMessages => "Send Messages",
            Permissions::SendTtsMessages => "Send Text-to-Speech Messages",
            Permissions::ManageMessages => "Manage Messages",
            Permissions::EmbedLinks => "Embed Links",
            Permissions::AttachFiles => "Attach Files",
            Permissions::ReadMessageHistory => "Read Message History",
            Permissions::MentionEveryone => "Mention @everyone, @here, and All Roles",
            Permissions::UseExternalEmojis => "Use External Emoji",
            Permissions::ViewGuildInsights => "View Server Insights",
            Permissions::Connect => "Connect",
            Permissions::Speak => "Speak",
            Permissions::MuteMembers => "Mute Members",
            Permissions::DeafenMembers => "Deafen Members",
            Permissions::MoveMembers => "Move Members",
            Permissions::UseVad => "Use Voice Activity",
            Permissions::ChangeNickname => "Change Nickname",
            Permissions::ManageNicknames => "Manage Nicknames",
            Permissions::ManageRoles => "Manage Roles",
            Permissions::ManageWebhooks => "Manage Webhooks",
            Permissions::ManageEmojisAndStickers => "Manage Emoji and Stickers",
            Permissions::UseApplicationCommands => "Use Application Commands",
            Permissions::RequestToSpeak => "Request to Speak",
            Permissions::ManageEvents => "Manage Events",
            Permissions::ManageThreads => "Manage Threads",
            Permissions::CreatePublicThreads => "Create Public Threads",
            Permissions::CreatePrivateThreads => "Create Private Threads",
            Permissions::UseExternalStickers => "Use External Stickers",
            Permissions::SendMessagesInThreads => "Send Messages in Threads",
            Permissions::UseEmbeddedActivities => "Use Activities",
            Permissions::ModerateMembers => "Timeout Members",
        }
    }

    /// The flag at the given bit position.
    pub fn from_index(i: u64) -> (r: Permissions)
        requires
            i < FLAG_COUNT,
        ensures
            r == flag_at(i as nat),
    {
        if i == 0 {
            Permissions::CreateInstantInvite
        } else if i == 1 {
            Permissions::KickMembers
        } else if i == 2 {
            Permissions::BanMembers
        } else if i == 3 {
            Permissions::Administrator
        } else if i == 4 {
            Permissions::ManageChannels
        } else if i == 5 {
            Permissions::ManageGuild
        } else if i == 6 {
            Permissions::AddReactions
        } else if i == 7 {
            Permissions::ViewAuditLog
        } else if i == 8 {
            Permissions::PrioritySpeaker
        } else if i == 9 {
            Permissions::Stream
        } else if i == 10 {
            Permissions::ViewChannel
        } else if i == 11 {
            Permissions::SendMessages
        } else if i == 12 {
            Permissions::SendTtsMessages
        } else if i == 13 {
            Permissions::ManageMessages
        } else if i == 14 {
            Permissions::EmbedLinks
        } else if i == 15 {
            Permissions::AttachFiles
        } else if i == 16 {
            Permissions::ReadMessageHistory
        } else if i == 17 {
            Permissions::MentionEveryone
        } else if i == 18 {
            Permissions::UseExternalEmojis
        } else if i == 19 {
            Permissions::ViewGuildInsights
        } else if i == 20 {
            Permissions::Connect
        } else if i == 21 {
            Permissions::Speak
        } else if i == 22 {
            Permissions::MuteMembers
        } else if i == 23 {
            Permissions::DeafenMembers
        } else if i == 24 {
            Permissions::MoveMembers
        } else if i == 25 {
            Permissions::UseVad
        } else if i == 26 {
            Permissions::ChangeNickname
        } else if i == 27 {
            Permissions::ManageNicknames
        } else if i == 28 {
            Permissions::ManageRoles
        } else if i == 29 {
            Permissions::ManageWebhooks
        } else if i == 30 {
            Permissions::ManageEmojisAndStickers
        } else if i == 31 {
            Permissions::UseApplicationCommands
        } else if i == 32 {
            Permissions::RequestToSpeak
        } else if i == 33 {
            Permissions::ManageEvents
        } else if i == 34 {
            Permissions::ManageThreads
        } else if i == 35 {
            Permissions::CreatePublicThreads
        } else if i == 36 {
            Permissions::CreatePrivateThreads
        } else if i == 37 {
            Permissions::UseExternalStickers
        } else if i == 38 {
            Permissions::SendMessagesInThreads
        } else if i == 39 {
            Permissions::UseEmbeddedActivities
        } else {
            Permissions::ModerateMembers
        }
    }
}

/// The flag at bit position `i` (for `i < FLAG_COUNT`).
pub open spec fn flag_at(i: nat) -> Permissions {
    if i == 0 {
        Permissions::CreateInstantInvite
    } else if i == 1 {
        Permissions::KickMembers
    } else if i == 2 {
        Permissions::BanMembers
    } else if i == 3 {
        Permissions::Administrator
    } else if i == 4 {
        Permissions::ManageChannels
    } else if i == 5 {
        Permissions::ManageGuild
    } else if i == 6 {
        Permissions::AddReactions
    } else if i == 7 {
        Permissions::ViewAuditLog
    } else if i == 8 {
        Permissions::PrioritySpeaker
    } else if i == 9 {
        Permissions::Stream
    } else if i == 10 {
        Permissions::ViewChannel
    } else if i == 11 {
        Permissions::SendMessages
    } else if i == 12 {
        Permissions::SendTtsMessages
    } else if i == 13 {
        Permissions::ManageMessages
    } else if i == 14 {
        Permissions::EmbedLinks
    } else if i == 15 {
        Permissions::AttachFiles
    } else if i == 16 {
        Permissions::ReadMessageHistory
    } else if i == 17 {
        Permissions::MentionEveryone
    } else if i == 18 {
        Permissions::UseExternalEmojis
    } else if i == 19 {
        Permissions::ViewGuildInsights
    } else if i == 20 {
        Permissions::Connect
    } else if i == 21 {
        Permissions::Speak
    } else if i == 22 {
        Permissions::MuteMembers
    } else if i == 23 {
        Permissions::DeafenMembers
    } else if i == 24 {
        Permissions::MoveMembers
    } else if i == 25 {
        Permissions::UseVad
    } else if i == 26 {
        Permissions::ChangeNickname
    } else if i == 27 {
        Permissions::ManageNicknames
    } else if i == 28 {
        Permissions::ManageRoles
    } else if i == 29 {
        Permissions::ManageWebhooks
    } else if i == 30 {
        Permissions::ManageEmojisAndStickers
    } else if i == 31 {
        Permissions::UseApplicationCommands
    } else if i == 32 {
        Permissions::RequestToSpeak
    } else if i == 33 {
        Permissions::ManageEvents
    } else if i == 34 {
        Permissions::ManageThreads
    } else if i == 35 {
        Permissions::CreatePublicThreads
    } else if i == 36 {
        Permissions::CreatePrivateThreads
    } else if i == 37 {
        Permissions::UseExternalStickers
    } else if i == 38 {
        Permissions::SendMessagesInThreads
    } else if i == 39 {
        Permissions::UseEmbeddedActivities
    } else {
        Permissions::ModerateMembers
    }
}

/// Whether bit `i` of `bits` is set.
pub open spec fn bit_set(bits: u64, i: u64) -> bool {
    (bits >> i) & 1u64 == 1u64
}

/// Each position below `FLAG_COUNT` names the flag declared there.
pub proof fn lemma_flag_at_index(i: nat)
    requires
        i < FLAG_COUNT,
    ensures
        flag_at(i).index() == i,
{
}

/// A flag's position leads back to the flag.
pub proof fn lemma_index_flag_at(p: Permissions)
    ensures
        p.index() < FLAG_COUNT,
        flag_at(p.index()) == p,
{
}

proof fn lemma_bit_or(a: u64, b: u64, i: u64)
    by (bit_vector)
    ensures
        bit_set(a | b, i) == (bit_set(a, i) || bit_set(b, i)),
{
}

proof fn lemma_bit_and(a: u64, b: u64, i: u64)
    by (bit_vector)
    ensures
        bit_set(a & b, i) == (bit_set(a, i) && bit_set(b, i)),
{
}

proof fn lemma_bit_and_not(a: u64, b: u64, i: u64)
    by (bit_vector)
    ensures
        bit_set(a & !b, i) == (bit_set(a, i) && !bit_set(b, i)),
{
}

proof fn lemma_bit_single(k: u64, i: u64)
    by (bit_vector)
    requires
        k < 64,
    ensures
        bit_set(1u64 << k, i) == (i == k),
{
}

proof fn lemma_bit_all(i: u64)
    by (bit_vector)
    requires
        i < 41,
    ensures
        bit_set(0x1ff_ffff_ffffu64, i),
{
}

proof fn lemma_bit_zero(i: u64)
    by (bit_vector)
    ensures
        !bit_set(0u64, i),
{
}

proof fn lemma_masks_bounded(a: u64, b: u64, k: u64)
    by (bit_vector)
    requires
        a <= 0x1ff_ffff_ffffu64,
        b <= 0x1ff_ffff_ffffu64,
        k < 41,
    ensures
        a | b <= 0x1ff_ffff_ffffu64,
        a & b <= 0x1ff_ffff_ffffu64,
        a & !b <= 0x1ff_ffff_ffffu64,
        b & !a <= 0x1ff_ffff_ffffu64,
        1u64 << k <= 0x1ff_ffff_ffffu64,
{
}

proof fn lemma_high_bits_clear(x: u64, i: u64)
    by (bit_vector)
    requires
        x <= 0x1ff_ffff_ffffu64,
        bit_set(x, i),
    ensures
        i < 41,
{
}

/// A non-zero mask has a set bit.
proof fn lemma_nonzero_has_bit(x: u64)
    requires
        x != 0,
    ensures
        exists|i: u64| i < 64 && #[trigger] bit_set(x, i),
    decreases x,
{
    if x & 1u64 == 1u64 {
        assert(bit_set(x, 0u64)) by (bit_vector)
            requires
                x & 1u64 == 1u64,
        ;
    } else {
        let y = x >> 1u64;
        assert(y != 0 && y < x) by (bit_vector)
            requires
                x != 0,
                x & 1u64 != 1u64,
                y == x >> 1u64,
        ;
        lemma_nonzero_has_bit(y);
        let i = choose|i: u64| i < 64 && #[trigger] bit_set(y, i);
        assert(i < 63 && bit_set(x, (i + 1) as u64)) by (bit_vector)
            requires
                i < 64,
                bit_set(y, i),
                y == x >> 1u64,
        ;
    }
}

/// A set of permissions, held as a mask with one bit per flag; bits that
/// belong to no flag are never set.
#[derive(Clone, Copy, Debug, PartialEq, Eq, Structural)]
pub struct PermissionSet {
    bits: u64,
}

impl View for PermissionSet {
    type V = Set<Permissions>;

    closed spec fn view(&self) -> Set<Permissions> {
        Set::new(|p: Permissions| bit_set(self.bits, p.index() as u64))
    }
}

impl PermissionSet {
    /// Only bits of named flags are set.
    pub closed spec fn wf(self) -> bool {
        self.bits <= ALL_BITS
    }

    /// The mask that represents the set.
    pub closed spec fn mask(self) -> u64 {
        self.bits
    }

    /// The set of the flags in either set.
    pub closed spec fn spec_union(self, other: PermissionSet) -> PermissionSet {
        PermissionSet { bits: self.bits | other.bits }
    }

    /// The set of the flags in both sets.
    pub closed spec fn spec_intersect(self, other: PermissionSet) -> PermissionSet {
        PermissionSet { bits: self.bits & other.bits }
    }

    /// The set of the flags of `required` that this set lacks.
    pub closed spec fn spec_missing(self, required: PermissionSet) -> PermissionSet {
        PermissionSet { bits: required.bits & !self.bits }
    }

    proof fn lemma_view_has(self, p: Permissions)
        ensures
            self@.contains(p) == bit_set(self.bits, p.index() as u64),
    {
    }

    /// Two sets with the same flags are the same value.
    pub proof fn lemma_view_injective(a: PermissionSet, b: PermissionSet)
        requires
            a.wf(),
            b.wf(),
            a@ == b@,
        ensures
            a == b,
    {
        let (ab, bb) = (a.bits, b.bits);
        if ab != bb {
            let x = ab ^ bb;
            assert(x != 0) by (bit_vector)
                requires
                    ab != bb,
                    x == ab ^ bb,
            ;
            lemma_nonzero_has_bit(x);
            let i = choose|i: u64| i < 64 && #[trigger] bit_set(x, i);
            assert(bit_set(ab, i) != bit_set(bb, i) && (bit_set(ab, i) || bit_set(bb, i)))
                by (bit_vector)
                requires
                    bit_set(x, i),
                    x == ab ^ bb,
            ;
            if bit_set(ab, i) {
                lemma_high_bits_clear(ab, i);
            } else {
                lemma_high_bits_clear(bb, i);
            }
            lemma_flag_at_index(i as nat);
            let p = flag_at(i as nat);
            assert(p.index() as u64 == i);
            a.lemma_view_has(p);
            b.lemma_view_has(p);
            assert(a@.contains(p) != b@.contains(p));
        }
    }

    /// The set with no flag.
    pub fn empty() -> (r: PermissionSet)
        ensures
            r.wf(),
            r@ == Set::<Permissions>::empty(),
    {
        let r = PermissionSet { bits: 0 };
        assert forall|p: Permissions| !r@.contains(p) by {
            lemma_bit_zero(p.index() as u64);
        }
        assert(r@ =~= Set::<Permissions>::empty());
        r
    }

    /// The set of every flag.
    pub fn all() -> (r: PermissionSet)
        ensures
            r.wf(),
            r@ == Set::<Permissions>::full(),
    {
        let r = PermissionSet { bits: ALL_BITS };
        assert forall|p: Permissions| r@.contains(p) by {
            lemma_index_flag_at(p);
            lemma_bit_all(p.index() as u64);
        }
        assert(r@ =~= Set::<Permissions>::full());
        r
    }

    /// The set holding one flag.
    pub fn from_flag(flag: Permissions) -> (r: PermissionSet)
        ensures
            r.wf(),
            r@ == set![flag],
    {
        let k = flag.position();
        proof {
            lemma_index_flag_at(flag);
            lemma_masks_bounded(0, 0, k);
        }
        let r = PermissionSet { bits: flag.bit() };
        assert forall|p: Permissions| r@.contains(p) == (p == flag) by {
            lemma_index_flag_at(p);
            lemma_bit_single(k, p.index() as u64);
        }
        assert(r@ =~= set![flag]);
        r
    }

    /// Whether the set holds the flag.
    pub fn has(self, flag: Permissions) -> (r: bool)
        ensures
            r == self@.contains(flag),
    {
        (self.bits >> flag.position()) & 1 == 1
    }

    /// The flags in either set.
    pub fn union(self, other: PermissionSet) -> (r: PermissionSet)
        requires
            self.wf(),
            other.wf(),
        ensures
            r.wf(),
            r == self.spec_union(other),
            r@ == self@.union(other@),
    {
        proof {
            lemma_masks_bounded(self.bits, other.bits, 0);
        }
        let r = PermissionSet { bits: self.bits | other.bits };
        assert forall|p: Permissions| r@.contains(p) == self@.union(other@).contains(p) by {
            lemma_bit_or(self.bits, other.bits, p.index() as u64);
        }
        assert(r@ =~= self@.union(other@));
        r
    }

    /// The flags in both sets.
    pub fn intersect(self, other: PermissionSet) -> (r: PermissionSet)
        requires
            self.wf(),
            other.wf(),
        ensures
            r.wf(),
            r == self.spec_intersect(other),
            r@ == self@.intersect(other@),
    {
        proof {
            lemma_masks_bounded(self.bits, other.bits, 0);
        }
        let r = PermissionSet { bits: self.bits & other.bits };
        assert forall|p: Permissions| r@.contains(p) == self@.intersect(other@).contains(p) by {
            lemma_bit_and(self.bits, other.bits, p.index() as u64);
        }
        assert(r@ =~= self@.intersect(other@));
        r
    }

    /// The flags of `required` that this set lacks.
    pub fn missing(self, required: PermissionSet) -> (r: PermissionSet)
        requires
            self.wf(),
            required.wf(),
        ensures
            r.wf(),
            r == self.spec_missing(required),
            r@ == required@.difference(self@),
    {
        proof {
            lemma_masks_bounded(self.bits, required.bits, 0);
        }
        let r = PermissionSet { bits: required.bits & !self.bits };
        assert forall|p: Permissions|
            r@.contains(p) == required@.difference(self@).contains(p) by {
            lemma_bit_and_not(required.bits, self.bits, p.index() as u64);
        }
        assert(r@ =~= required@.difference(self@));
        r
    }

    /// Whether the set holds no flag.
    pub fn is_empty(self) -> (r: bool)
        requires
            self.wf(),
        ensures
            r == (self@ == Set::<Permissions>::empty()),
    {
        proof {
            if self.bits != 0 {
                lemma_nonzero_has_bit(self.bits);
                let i = choose|i: u64| i < 64 && #[trigger] bit_set(self.bits, i);
                lemma_high_bits_clear(self.bits, i);
                lemma_flag_at_index(i as nat);
                assert(self@.contains(flag_at(i as nat)));
            } else {
                assert forall|p: Permissions| !self@.contains(p) by {
                    lemma_bit_zero(p.index() as u64);
                }
                assert(self@ =~= Set::<Permissions>::empty());
            }
        }
        self.bits == 0
    }

    /// Whether every flag of `required` is in this set.
    pub fn contains(self, required: PermissionSet) -> (r: bool)
        requires
            self.wf(),
            required.wf(),
        ensures
            r == required@.subset_of(self@),
    {
        let lacking = self.missing(required);
        let r = lacking.is_empty();
        proof {
            if r {
                assert forall|p: Permissions| required@.contains(p) implies self@.contains(p) by {
                    assert(!lacking@.contains(p));
                }
            } else {
                assert(!(lacking@ =~= Set::<Permissions>::empty()));
                assert(exists|p: Permissions| lacking@.contains(p));
                let p = choose|p: Permissions| lacking@.contains(p);
                assert(required@.contains(p) && !self@.contains(p));
            }
        }
        r
    }

    /// The mask of the set, one bit per flag at the flag's position.
    pub fn bits(self) -> (r: u64)
        ensures
            r == self.mask(),
    {
        self.bits
    }

    /// The set whose mask is `bits`, or `None` where `bits` sets a bit that
    /// belongs to no flag.
    pub fn from_bits(bits: u64) -> (r: Option<PermissionSet>)
        ensures
            bits <= ALL_BITS ==> (r matches Some(s) && s.wf() && s.mask() == bits),
            bits > ALL_BITS ==> r is None,
    {
        if bits <= ALL_BITS {
            Some(PermissionSet { bits })
        } else {
            None
        }
    }

    /// One display line per flag of the set, in declaration order.
    pub fn render(self) -> (r: Vec<String>)
        requires
            self.wf(),
        ensures
            r@.map_values(|l: String| l@) == rendered(self@),
    {
        let mut lines: Vec<String> = Vec::new();
        let mut i: u64 = 0;
        while i < FLAG_COUNT
            invariant
                i <= FLAG_COUNT,
                lines@.map_values(|l: String| l@) == lines_upto(self@, i as nat),
            decreases FLAG_COUNT - i,
        {
            let flag = Permissions::from_index(i);
            if self.has(flag) {
                let mut line = String::from_str("- ");
                line.append(flag.name());
                lines.push(line);
                assert(lines@.map_values(|l: String| l@) =~= lines_upto(self@, i as nat).push(
                    line_for(flag),
                ));
            }
            i = i + 1;
        }
        lines
    }
}

/// The display line of one flag.
pub open spec fn line_for(p: Permissions) -> Seq<char> {
    "- "@ + p.label()
}

/// The display lines of the flags of `s` among the first `n` positions, in
/// declaration order.
pub open spec fn lines_upto(s: Set<Permissions>, n: nat) -> Seq<Seq<char>>
    decreases n,
{
    if n == 0 {
        seq![]
    } else {
        let prev = lines_upto(s, (n - 1) as nat);
        let flag = flag_at((n - 1) as nat);
        if s.contains(flag) {
            prev.push(line_for(flag))
        } else {
            prev
        }
    }
}

/// The display lines of the flags of `s`, in declaration order.
pub open spec fn rendered(s: Set<Permissions>) -> Seq<Seq<char>> {
    lines_upto(s, FLAG_COUNT as nat)
}

/// The lines joined by line breaks.
pub open spec fn joined(lines: Seq<Seq<char>>) -> Seq<char>
    decreases lines.len(),
{
    if lines.len() == 0 {
        seq![]
    } else if lines.len() == 1 {
        lines[0]
    } else {
        joined(lines.drop_last()) + "\n"@ + lines.last()
    }
}

/// The flags of the set, one display line each, in declaration order.
pub fn to_pretty_string(permissions: PermissionSet) -> (r: String)
    requires
        permissions.wf(),
    ensures
        r@ == joined(rendered(permissions@)),
{
    let lines = permissions.render();
    let ghost views = lines@.map_values(|l: String| l@);
    let mut text = String::new();
    let mut i: usize = 0;
    while i < lines.len()
        invariant
            i <= lines.len(),
            views == lines@.map_values(|l: String| l@),
            text@ == joined(views.take(i as int)),
        decreases lines.len() - i,
    {
        if i > 0 {
            text.append("\n");
        }
        text.append(lines[i].as_str());
        assert(views.take(i as int + 1).drop_last() =~= views.take(i as int));
        i = i + 1;
    }
    assert(views.take(lines.len() as int) =~= views);
    text
}

/// Uniting two sets gives a set that contains each of them.
pub proof fn lemma_union_contains_operands(a: PermissionSet, b: PermissionSet)
    requires
        a.wf(),
        b.wf(),
    ensures
        a@.subset_of(a.spec_union(b)@),
        b@.subset_of(a.spec_union(b)@),
{
    assert forall|p: Permissions| a.spec_union(b)@.contains(p) == (a@.contains(p) || b@.contains(p)) by {
        lemma_bit_or(a.bits, b.bits, p.index() as u64);
    }
}

/// Uniting or intersecting a set with itself gives the set back.
pub proof fn lemma_idempotent(a: PermissionSet)
    ensures
        a.spec_union(a) == a,
        a.spec_intersect(a) == a,
{
    let x = a.bits;
    assert(x | x == x && x & x == x) by (bit_vector);
}

/// Union and intersection do not depend on the order of their operands.
pub proof fn lemma_commutative(a: PermissionSet, b: PermissionSet)
    ensures
        a.spec_union(b) == b.spec_union(a),
        a.spec_intersect(b) == b.spec_intersect(a),
{
    let (x, y) = (a.bits, b.bits);
    assert(x | y == y | x && x & y == y & x) by (bit_vector);
}

/// Union and intersection do not depend on how their operands are grouped.
pub proof fn lemma_associative(a: PermissionSet, b: PermissionSet, c: PermissionSet)
    ensures
        a.spec_union(b).spec_union(c) == a.spec_union(b.spec_union(c)),
        a.spec_intersect(b).spec_intersect(c) == a.spec_intersect(b.spec_intersect(c)),
{
    let (x, y, z) = (a.bits, b.bits, c.bits);
    assert((x | y) | z == x | (y | z) && (x & y) & z == x & (y & z)) by (bit_vector);
}

} // verus!
