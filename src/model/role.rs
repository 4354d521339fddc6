//! Guild roles.

use vstd::prelude::*;

use crate::model::Id;
use crate::permission::PermissionSet;

verus! {

/// A guild role.
#[derive(Clone, Debug)]
pub struct Role {
    pub id: Id,
    pub name: String,
    pub color: u32,
    pub hoist: bool,
    pub icon: Option<String>,
    pub unicode_emoji: Option<String>,
    pub position: u8,
    pub permissions: PermissionSet,
    pub managed: bool,
    pub mentionable: bool,
    pub tags: Option<RoleTags>,
}

/// The tags of a role.
#[derive(Clone, Copy, Debug)]
pub struct RoleTags {
    pub bot_id: Option<Id>,
    pub integration_id: Option<Id>,
    pub premium_subscriber: Option<bool>,
}

/// A report that a role was created or changed.
#[derive(Clone, Debug)]
pub struct NewRole {
    pub guild_id: Id,
    pub role: Role,
}

/// A report that a role was deleted.
#[derive(Clone, Copy, Debug)]
pub struct DeletedRole {
    pub guild_id: Id,
    pub role_id: Id,
}

} // verus!
