//! Guild integrations.

use vstd::prelude::*;

use crate::model::Id;

verus! {

/// What happens when an integration's subscription expires.
#[derive(Clone, Copy, Debug, PartialEq, Eq, Structural)]
pub enum IntegrationExpire {
    RemoveRole,
    Kick,
}

impl IntegrationExpire {
    /// The value that stands for the variant on the wire.
    pub open spec fn spec_code(self) -> u8 {
        match self {
            IntegrationExpire::RemoveRole => 0,
            IntegrationExpire::Kick => 1,
        }
    }

    /// The value that stands for the variant on the wire.
    pub fn code(self) -> (r: u8)
        ensures
            r == self.spec_code(),
    {
        match self {
            IntegrationExpire::RemoveRole => 0,
            IntegrationExpire::Kick => 1,
        }
    }
}

/// The account behind an integration.
#[derive(Clone, Debug)]
pub struct IntegrationAccount {
    pub id: String,
    pub name: String,
}

/// A report that a guild's integrations changed.
#[derive(Clone, Copy, Debug)]
pub struct Integrations {
    pub guild_id: Id,
}

} // verus!
