//! Application command permissions and interaction kinds.

use vstd::prelude::*;

use crate::model::Id;

verus! {

/// The permissions of one application command in a guild.
#[derive(Clone, Debug)]
pub struct CommandPermissions {
    pub id: Id,
    pub application_id: Id,
    pub guild_id: Id,
    pub permissions: Vec<CommandPermission>,
}

/// Whether a role, user or channel may use a command.
#[derive(Clone, Copy, Debug)]
pub struct CommandPermission {
    pub id: Id,
    pub kind: CommandPermissionType,
    pub permission: bool,
}

/// What a command permission applies to.
#[derive(Clone, Copy, Debug, PartialEq, Eq, Structural)]
pub enum CommandPermissionType {
    Role,
    User,
    Channel,
}

impl CommandPermissionType {
    /// The value that stands for the variant on the wire.
    pub open spec fn spec_code(self) -> u8 {
        match self {
            CommandPermissionType::Role => 1,
            CommandPermissionType::User => 2,
            CommandPermissionType::Channel => 3,
        }
    }

    /// The value that stands for the variant on the wire.
    pub fn code(self) -> (r: u8)
        ensures
            r == self.spec_code(),
    {
        match self {
            CommandPermissionType::Role => 1,
            CommandPermissionType::User => 2,
            CommandPermissionType::Channel => 3,
        }
    }
}

/// The kind of an interaction.
#[derive(Clone, Copy, Debug, PartialEq, Eq, Structural)]
pub enum InteractionType {
    Ping,
    ApplicationCommand,
    MessageComponent,
    ApplicationCommandAutocomplete,
    ModalSubmit,
}

impl InteractionType {
    /// The value that stands for the variant on the wire.
    pub open spec fn spec_code(self) -> u8 {
        match self {
            InteractionType::Ping => 1,
            InteractionType::ApplicationCommand => 2,
            InteractionType::MessageComponent => 3,
            InteractionType::ApplicationCommandAutocomplete => 4,
            InteractionType::ModalSubmit => 5,
        }
    }

    /// The value that stands for the variant on the wire.
    pub fn code(self) -> (r: u8)
        ensures
            r == self.spec_code(),
    {
        match self {
            InteractionType::Ping => 1,
            InteractionType::ApplicationCommand => 2,
            InteractionType::MessageComponent => 3,
            InteractionType::ApplicationCommandAutocomplete => 4,
            InteractionType::ModalSubmit => 5,
        }
    }
}

} // verus!
