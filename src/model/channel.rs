//! Channels and their permission overwrites.

use vstd::prelude::*;

use crate::model::Id;

verus! {

/// The kind of a channel.
#[derive(Clone, Copy, Debug, PartialEq, Eq, Structural)]
pub enum ChannelType {
    GuildText,
    DM,
    GuildVoice,
    GroupDM,
    GuildCategory,
    GuildNews,
    GuildNewsThread,
    GuildPublicThread,
    GuildPrivateThread,
    GuildStageVoice,
    GuildDirectory,
    GuildForum,
}

impl ChannelType {
    /// The value that stands for the variant on the wire.
    pub open spec fn spec_code(self) -> u8 {
        match self {
            ChannelType::GuildText => 0,
            ChannelType::DM => 1,
            ChannelType::GuildVoice => 2,
            ChannelType::GroupDM => 3,
            ChannelType::GuildCategory => 4,
            ChannelType::GuildNews => 5,
            ChannelType::GuildNewsThread => 10,
            ChannelType::GuildPublicThread => 11,
            ChannelType::GuildPrivateThread => 12,
            ChannelType::GuildStageVoice => 13,
            ChannelType::GuildDirectory => 14,
            ChannelType::GuildForum => 15,
        }
    }

    /// The value that stands for the variant on the wire.
    pub fn code(self) -> (r: u8)
        ensures
            r == self.spec_code(),
    {
        match self {
            ChannelType::GuildText => 0,
            ChannelType::DM => 1,
            ChannelType::GuildVoice => 2,
            ChannelType::GroupDM => 3,
            ChannelType::GuildCategory => 4,
            ChannelType::GuildNews => 5,
            ChannelType::GuildNewsThread => 10,
            ChannelType::GuildPublicThread => 11,
            ChannelType::GuildPrivateThread => 12,
            ChannelType::GuildStageVoice => 13,
            ChannelType::GuildDirectory => 14,
            ChannelType::GuildForum => 15,
        }
    }
}

/// A flag of a channel.
#[derive(Clone, Copy, Debug, PartialEq, Eq, Structural)]
pub enum ChannelFlags {
    Pinned,
}

impl ChannelFlags {
    /// The bit of the flag in its wire mask.
    pub open spec fn spec_bit(self) -> u8 {
        match self {
            ChannelFlags::Pinned => 2,
        }
    }

    /// The bit of the flag in its wire mask.
    pub fn bit(self) -> (r: u8)
        ensures
            r == self.spec_bit(),
    {
        match self {
            ChannelFlags::Pinned => 2,
        }
    }
}

/// The camera video quality of a voice channel.
#[derive(Clone, Copy, Debug, PartialEq, Eq, Structural)]
pub enum VideoQualityMode {
    Auto,
    Full,
}

impl VideoQualityMode {
    /// The value that stands for the variant on the wire.
    pub open spec fn spec_code(self) -> u8 {
        match self {
            VideoQualityMode::Auto => 1,
            VideoQualityMode::Full => 2,
        }
    }

    /// The value that stands for the variant on the wire.
    pub fn code(self) -> (r: u8)
        ensures
            r == self.spec_code(),
    {
        match self {
            VideoQualityMode::Auto => 1,
            VideoQualityMode::Full => 2,
        }
    }
}

/// Permissions allowed or denied to a role or member in one channel.
#[derive(Clone, Debug)]
pub struct PermissionOverwrite {
    pub id: Id,
    pub kind: PermissionOverwriteKind,
    pub allow: String,
    pub deny: String,
}

/// Whether an overwrite is for a role or for a member.
#[derive(Clone, Copy, Debug, PartialEq, Eq, Structural)]
pub enum PermissionOverwriteKind {
    Role,
    Member,
}

impl PermissionOverwriteKind {
    /// The value that stands for the variant on the wire.
    pub open spec fn spec_code(self) -> u8 {
        match self {
            PermissionOverwriteKind::Role => 0,
            PermissionOverwriteKind::Member => 1,
        }
    }

    /// The value that stands for the variant on the wire.
    pub fn code(self) -> (r: u8)
        ensures
            r == self.spec_code(),
    {
        match self {
            PermissionOverwriteKind::Role => 0,
            PermissionOverwriteKind::Member => 1,
        }
    }
}

} // verus!
