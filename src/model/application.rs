//! Applications and their install parameters.

use vstd::prelude::*;

use crate::permission::PermissionSet;

verus! {

/// A capability flag of an application.
#[derive(Clone, Copy, Debug, PartialEq, Eq, Structural)]
pub enum ApplicationFlags {
    GatewayPresence,
    GatewayPresenceLimited,
    GatewayGuildMembers,
    GatewayGuildMembersLimited,
    VerificationPendingGuildLimit,
    Embedded,
    GatewayMessageContent,
    GatewayMessageContentLimited,
}

impl ApplicationFlags {
    /// The bit of the flag in its wire mask.
    pub open spec fn spec_bit(self) -> u32 {
        match self {
            ApplicationFlags::GatewayPresence => 4096,
            ApplicationFlags::GatewayPresenceLimited => 8192,
            ApplicationFlags::GatewayGuildMembers => 16384,
            ApplicationFlags::GatewayGuildMembersLimited => 32768,
            ApplicationFlags::VerificationPendingGuildLimit => 65536,
            ApplicationFlags::Embedded => 131072,
            ApplicationFlags::GatewayMessageContent => 262144,
            ApplicationFlags::GatewayMessageContentLimited => 524288,
        }
    }

    /// The bit of the flag in its wire mask.
    pub fn bit(self) -> (r: u32)
        ensures
            r == self.spec_bit(),
    {
        match self {
            ApplicationFlags::GatewayPresence => 4096,
            ApplicationFlags::GatewayPresenceLimited => 8192,
            ApplicationFlags::GatewayGuildMembers => 16384,
            ApplicationFlags::GatewayGuildMembersLimited => 32768,
            ApplicationFlags::VerificationPendingGuildLimit => 65536,
            ApplicationFlags::Embedded => 131072,
            ApplicationFlags::GatewayMessageContent => 262144,
            ApplicationFlags::GatewayMessageContentLimited => 524288,
        }
    }
}

/// The scopes and permissions an application asks for when added to a guild.
#[derive(Clone, Debug)]
pub struct InstallParams {
    pub scopes: Vec<String>,
    pub permissions: PermissionSet,
}

/// Whether a team member has accepted the invitation.
#[derive(Clone, Copy, Debug, PartialEq, Eq, Structural)]
pub enum TeamMemberState {
    Invited,
    Accepted,
}

impl TeamMemberState {
    /// The value that stands for the variant on the wire.
    pub open spec fn spec_code(self) -> u8 {
        match self {
            TeamMemberState::Invited => 1,
            TeamMemberState::Accepted => 2,
        }
    }

    /// The value that stands for the variant on the wire.
    pub fn code(self) -> (r: u8)
        ensures
            r == self.spec_code(),
    {
        match self {
            TeamMemberState::Invited => 1,
            TeamMemberState::Accepted => 2,
        }
    }
}

} // verus!
