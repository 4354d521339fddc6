//! Invites.

use vstd::prelude::*;

use crate::model::Id;

verus! {

/// What an invite to a voice channel targets.
#[derive(Clone, Copy, Debug, PartialEq, Eq, Structural)]
pub enum InviteTarget {
    Stream,
    EmbeddedApplication,
}

impl InviteTarget {
    /// The value that stands for the variant on the wire.
    pub open spec fn spec_code(self) -> u8 {
        match self {
            InviteTarget::Stream => 1,
            InviteTarget::EmbeddedApplication => 2,
        }
    }

    /// The value that stands for the variant on the wire.
    pub fn code(self) -> (r: u8)
        ensures
            r == self.spec_code(),
    {
        match self {
            InviteTarget::Stream => 1,
            InviteTarget::EmbeddedApplication => 2,
        }
    }
}

/// A report that an invite was deleted.
#[derive(Clone, Debug)]
pub struct DeletedInvite {
    pub channel_id: Id,
    pub guild_id: Option<Id>,
    pub code: String,
}

} // verus!
