//! Messages and what they carry.

use vstd::prelude::*;

use crate::model::Id;
use crate::model::channel::ChannelType;

verus! {

/// The kind of a message.
#[derive(Clone, Copy, Debug, PartialEq, Eq, Structural)]
pub enum MessageType {
    Default,
    RecipientAdd,
    RecipientRemove,
    Call,
    ChannelNameChange,
    ChannelIconChange,
    ChannelPinnedMessage,
    UserJoin,
    GuildBoost,
    GuildBoostTier1,
    GuildBoostTier2,
    GuildBoostTier3,
    ChannelFollowAdd,
    GuildDiscoveryDisqualified,
    GuildDiscoveryRequalified,
    GuildDiscoveryGracePeriodInitialWarning,
    GuildDiscoveryGracePeriodFinalWarning,
    ThreadCreated,
    Reply,
    ChatInputCommand,
    ThreadStarterMessage,
    GuildInviteReminder,
    ContextMenuCommand,
    AutoModerationAction,
}

impl MessageType {
    /// The value that stands for the variant on the wire.
    pub open spec fn spec_code(self) -> u8 {
        match self {
            MessageType::Default => 0,
            MessageType::RecipientAdd => 1,
            MessageType::RecipientRemove => 2,
            MessageType::Call => 3,
            MessageType::ChannelNameChange => 4,
            MessageType::ChannelIconChange => 5,
            MessageType::ChannelPinnedMessage => 6,
            MessageType::UserJoin => 7,
            MessageType::GuildBoost => 8,
            MessageType::GuildBoostTier1 => 9,
            MessageType::GuildBoostTier2 => 10,
            MessageType::GuildBoostTier3 => 11,
            MessageType::ChannelFollowAdd => 12,
            MessageType::GuildDiscoveryDisqualified => 14,
            MessageType::GuildDiscoveryRequalified => 15,
            MessageType::GuildDiscoveryGracePeriodInitialWarning => 16,
            MessageType::GuildDiscoveryGracePeriodFinalWarning => 17,
            MessageType::ThreadCreated => 18,
            MessageType::Reply => 19,
            MessageType::ChatInputCommand => 20,
            MessageType::ThreadStarterMessage => 21,
            MessageType::GuildInviteReminder => 22,
            MessageType::ContextMenuCommand => 23,
            MessageType::AutoModerationAction => 24,
        }
    }

    /// The value that stands for the variant on the wire.
    pub fn code(self) -> (r: u8)
        ensures
            r == self.spec_code(),
    {
        match self {
            MessageType::Default => 0,
            MessageType::RecipientAdd => 1,
            MessageType::RecipientRemove => 2,
            MessageType::Call => 3,
            MessageType::ChannelNameChange => 4,
            MessageType::ChannelIconChange => 5,
            MessageType::ChannelPinnedMessage => 6,
            MessageType::UserJoin => 7,
            MessageType::GuildBoost => 8,
            MessageType::GuildBoostTier1 => 9,
            MessageType::GuildBoostTier2 => 10,
            MessageType::GuildBoostTier3 => 11,
            MessageType::ChannelFollowAdd => 12,
            MessageType::GuildDiscoveryDisqualified => 14,
            MessageType::GuildDiscoveryRequalified => 15,
            MessageType::GuildDiscoveryGracePeriodInitialWarning => 16,
            MessageType::GuildDiscoveryGracePeriodFinalWarning => 17,
            MessageType::ThreadCreated => 18,
            MessageType::Reply => 19,
            MessageType::ChatInputCommand => 20,
            MessageType::ThreadStarterMessage => 21,
            MessageType::GuildInviteReminder => 22,
            MessageType::ContextMenuCommand => 23,
            MessageType::AutoModerationAction => 24,
        }
    }
}

/// The rich presence activity a message refers to.
#[derive(Clone, Debug)]
pub struct MessageActivity {
    pub message_activity_type: MessageActivityType,
    pub party_id: Option<String>,
}

/// The kind of a message activity.
#[derive(Clone, Copy, Debug, PartialEq, Eq, Structural)]
pub enum MessageActivityType {
    Join,
    Spectate,
    Listen,
    JoinRequest,
}

impl MessageActivityType {
    /// The value that stands for the variant on the wire.
    pub open spec fn spec_code(self) -> u8 {
        match self {
            MessageActivityType::Join => 1,
            MessageActivityType::Spectate => 2,
            MessageActivityType::Listen => 3,
            MessageActivityType::JoinRequest => 5,
        }
    }

    /// The value that stands for the variant on the wire.
    pub fn code(self) -> (r: u8)
        ensures
            r == self.spec_code(),
    {
        match self {
            MessageActivityType::Join => 1,
            MessageActivityType::Spectate => 2,
            MessageActivityType::Listen => 3,
            MessageActivityType::JoinRequest => 5,
        }
    }
}

/// A flag of a message.
#[derive(Clone, Copy, Debug, PartialEq, Eq, Structural)]
pub enum MessageFlags {
    Crossposted,
    IsCrosspost,
    SuppressEmbeds,
    SourceMessageDeleted,
    Urgent,
    HasThread,
    Ephemeral,
    Loading,
    FailedToMentionSomeRolesInThread,
}

impl MessageFlags {
    /// The bit of the flag in its wire mask.
    pub open spec fn spec_bit(self) -> u16 {
        match self {
            MessageFlags::Crossposted => 1,
            MessageFlags::IsCrosspost => 2,
            MessageFlags::SuppressEmbeds => 4,
            MessageFlags::SourceMessageDeleted => 8,
            MessageFlags::Urgent => 16,
            MessageFlags::HasThread => 32,
            MessageFlags::Ephemeral => 64,
            MessageFlags::Loading => 128,
            MessageFlags::FailedToMentionSomeRolesInThread => 256,
        }
    }

    /// The bit of the flag in its wire mask.
    pub fn bit(self) -> (r: u16)
        ensures
            r == self.spec_bit(),
    {
        match self {
            MessageFlags::Crossposted => 1,
            MessageFlags::IsCrosspost => 2,
            MessageFlags::SuppressEmbeds => 4,
            MessageFlags::SourceMessageDeleted => 8,
            MessageFlags::Urgent => 16,
            MessageFlags::HasThread => 32,
            MessageFlags::Ephemeral => 64,
            MessageFlags::Loading => 128,
            MessageFlags::FailedToMentionSomeRolesInThread => 256,
        }
    }
}

/// The message that a message replies to or quotes.
#[derive(Clone, Copy, Debug)]
pub struct MessageReference {
    pub message_id: Option<Id>,
    pub channel_id: Option<Id>,
    pub guild_id: Option<Id>,
    pub fail_if_not_exists: Option<bool>,
}

/// A channel mentioned in a message.
#[derive(Clone, Debug)]
pub struct ChannelMention {
    pub id: Id,
    pub guild_id: Id,
    pub kind: ChannelType,
    pub name: String,
}

/// Which mentions in a message may notify.
#[derive(Clone, Debug)]
pub struct AllowedMentions {
    pub parse: Vec<String>,
    pub roles: Vec<Id>,
    pub users: Vec<Id>,
    pub replied_user: bool,
}

/// A file attached to a message.
#[derive(Clone, Debug)]
pub struct Attachment {
    pub id: Id,
    pub filename: String,
    pub description: Option<String>,
    pub content_type: Option<String>,
    pub size: u32,
    pub url: String,
    pub proxy_url: String,
    pub height: Option<u16>,
    pub width: Option<u16>,
    pub ephemeral: Option<bool>,
}

/// A report that reactions were removed from a message.
#[derive(Clone, Copy, Debug)]
pub struct PrunedReactions {
    pub channel_id: Id,
    pub message_id: Id,
    pub guild_id: Option<Id>,
}

/// A report that a channel's webhooks changed.
#[derive(Clone, Copy, Debug)]
pub struct UpdatedWebhook {
    pub guild_id: Id,
    pub channel_id: Id,
}

} // verus!
