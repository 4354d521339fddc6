//! Presences and activities.

use vstd::prelude::*;

use crate::model::{Id, Timestamp};

verus! {

/// A user's status on each kind of client.
#[derive(Clone, Debug)]
pub struct ClientStatus {
    pub desktop: Option<String>,
    pub mobile: Option<String>,
    pub web: Option<String>,
}

/// The kind of an activity.
#[derive(Clone, Copy, Debug, PartialEq, Eq, Structural)]
pub enum ActivityType {
    Game,
    Streaming,
    Listening,
    Watching,
    Custom,
    Competing,
}

impl ActivityType {
    /// The value that stands for the variant on the wire.
    pub open spec fn spec_code(self) -> u8 {
        match self {
            ActivityType::Game => 0,
            ActivityType::Streaming => 1,
            ActivityType::Listening => 2,
            ActivityType::Watching => 3,
            ActivityType::Custom => 4,
            ActivityType::Competing => 5,
        }
    }

    /// The value that stands for the variant on the wire.
    pub fn code(self) -> (r: u8)
        ensures
            r == self.spec_code(),
    {
        match self {
            ActivityType::Game => 0,
            ActivityType::Streaming => 1,
            ActivityType::Listening => 2,
            ActivityType::Watching => 3,
            ActivityType::Custom => 4,
            ActivityType::Competing => 5,
        }
    }
}

/// When an activity started and ends.
#[derive(Clone, Copy, Debug)]
pub struct ActivityTimestamps {
    pub start: Option<Timestamp>,
    pub end: Option<Timestamp>,
}

/// The emoji of a custom status.
#[derive(Clone, Debug)]
pub struct ActivityEmoji {
    pub name: String,
    pub id: Option<Id>,
    pub animated: Option<bool>,
}

/// The party of an activity.
#[derive(Clone, Debug)]
pub struct ActivityParty {
    pub id: Option<String>,
    pub size: Option<(u8, u8)>,
}

/// The images and their texts shown for an activity.
#[derive(Clone, Debug)]
pub struct ActivityAssets {
    pub large_image: Option<String>,
    pub large_text: Option<String>,
    pub small_image: Option<String>,
    pub small_text: Option<String>,
}

/// The secrets for joining and watching an activity.
#[derive(Clone, Debug)]
pub struct ActivitySecrets {
    pub join: Option<String>,
    pub spectate: Option<String>,
    pub game: Option<String>,
}

/// A flag of an activity.
#[derive(Clone, Copy, Debug, PartialEq, Eq, Structural)]
pub enum ActivityFlags {
    Instance,
    Join,
    Spectate,
    JoinRequest,
    Sync,
    Play,
    PartyPrivacyFriends,
    PartyPrivacyVoiceChannel,
    Embedded,
}

impl ActivityFlags {
    /// The bit of the flag in its wire mask.
    pub open spec fn spec_bit(self) -> u16 {
        match self {
            ActivityFlags::Instance => 1,
            ActivityFlags::Join => 2,
            ActivityFlags::Spectate => 4,
            ActivityFlags::JoinRequest => 8,
            ActivityFlags::Sync => 16,
            ActivityFlags::Play => 32,
            ActivityFlags::PartyPrivacyFriends => 64,
            ActivityFlags::PartyPrivacyVoiceChannel => 128,
            ActivityFlags::Embedded => 256,
        }
    }

    /// The bit of the flag in its wire mask.
    pub fn bit(self) -> (r: u16)
        ensures
            r == self.spec_bit(),
    {
        match self {
            ActivityFlags::Instance => 1,
            ActivityFlags::Join => 2,
            ActivityFlags::Spectate => 4,
            ActivityFlags::JoinRequest => 8,
            ActivityFlags::Sync => 16,
            ActivityFlags::Play => 32,
            ActivityFlags::PartyPrivacyFriends => 64,
            ActivityFlags::PartyPrivacyVoiceChannel => 128,
            ActivityFlags::Embedded => 256,
        }
    }
}

/// A button shown with an activity.
#[derive(Clone, Debug)]
pub struct ActivityButton {
    pub label: String,
    pub url: String,
}

} // verus!
