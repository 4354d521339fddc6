//! Users and the events about their messages.

use vstd::prelude::*;

use crate::model::Id;

verus! {

/// A flag of a user.
#[derive(Clone, Copy, Debug, PartialEq, Eq, Structural)]
pub enum UserFlags {
    Staff,
    Partner,
    Hypesquad,
    BugHunterLevel1,
    HypesquadOnlineHouse1,
    HypesquadOnlineHouse2,
    HypesquadOnlineHouse3,
    PremiumEarlySupporter,
    TeamPseudoUser,
    BugHunterLevel2,
    VerifiedBot,
    VerifiedDeveloper,
    CertifiedModerator,
    BotHttpInteractions,
}

impl UserFlags {
    /// The bit of the flag in its wire mask.
    pub open spec fn spec_bit(self) -> u32 {
        match self {
            UserFlags::Staff => 1,
            UserFlags::Partner => 2,
            UserFlags::Hypesquad => 4,
            UserFlags::BugHunterLevel1 => 8,
            UserFlags::HypesquadOnlineHouse1 => 64,
            UserFlags::HypesquadOnlineHouse2 => 128,
            UserFlags::HypesquadOnlineHouse3 => 256,
            UserFlags::PremiumEarlySupporter => 512,
            UserFlags::TeamPseudoUser => 1024,
            UserFlags::BugHunterLevel2 => 16384,
            UserFlags::VerifiedBot => 65536,
            UserFlags::VerifiedDeveloper => 131072,
            UserFlags::CertifiedModerator => 262144,
            UserFlags::BotHttpInteractions => 524288,
        }
    }

    /// The bit of the flag in its wire mask.
    pub fn bit(self) -> (r: u32)
        ensures
            r == self.spec_bit(),
    {
        match self {
            UserFlags::Staff => 1,
            UserFlags::Partner => 2,
            UserFlags::Hypesquad => 4,
            UserFlags::BugHunterLevel1 => 8,
            UserFlags::HypesquadOnlineHouse1 => 64,
            UserFlags::HypesquadOnlineHouse2 => 128,
            UserFlags::HypesquadOnlineHouse3 => 256,
            UserFlags::PremiumEarlySupporter => 512,
            UserFlags::TeamPseudoUser => 1024,
            UserFlags::BugHunterLevel2 => 16384,
            UserFlags::VerifiedBot => 65536,
            UserFlags::VerifiedDeveloper => 131072,
            UserFlags::CertifiedModerator => 262144,
            UserFlags::BotHttpInteractions => 524288,
        }
    }
}

/// The premium subscription of a user.
#[derive(Clone, Copy, Debug, PartialEq, Eq, Structural)]
pub enum PremiumType {
    NoSubscription,
    NitroClassic,
    Nitro,
}

impl PremiumType {
    /// The value that stands for the variant on the wire.
    pub open spec fn spec_code(self) -> u8 {
        match self {
            PremiumType::NoSubscription => 0,
            PremiumType::NitroClassic => 1,
            PremiumType::Nitro => 2,
        }
    }

    /// The value that stands for the variant on the wire.
    pub fn code(self) -> (r: u8)
        ensures
            r == self.spec_code(),
    {
        match self {
            PremiumType::NoSubscription => 0,
            PremiumType::NitroClassic => 1,
            PremiumType::Nitro => 2,
        }
    }
}

/// A report that a message was deleted.
#[derive(Clone, Copy, Debug)]
pub struct DeletedMessage {
    pub id: Id,
    pub channel_id: Id,
    pub guild_id: Option<Id>,
}

/// A report that several messages were deleted.
#[derive(Clone, Debug)]
pub struct DeletedMessages {
    pub id: Vec<Id>,
    pub channel_id: Id,
    pub guild_id: Option<Id>,
}

} // verus!
