//! Scheduled guild events.

use vstd::prelude::*;

use crate::model::Id;

verus! {

/// Who may see a scheduled event.
#[derive(Clone, Copy, Debug, PartialEq, Eq, Structural)]
pub enum ScheduledEventPrivacy {
    GuildOnly,
}

impl ScheduledEventPrivacy {
    /// The value that stands for the variant on the wire.
    pub open spec fn spec_code(self) -> u8 {
        match self {
            ScheduledEventPrivacy::GuildOnly => 2,
        }
    }

    /// The value that stands for the variant on the wire.
    pub fn code(self) -> (r: u8)
        ensures
            r == self.spec_code(),
    {
        match self {
            ScheduledEventPrivacy::GuildOnly => 2,
        }
    }
}

/// The state of a scheduled event.
#[derive(Clone, Copy, Debug, PartialEq, Eq, Structural)]
pub enum ScheduledEventStatus {
    Scheduled,
    Active,
    Completed,
    Canceled,
}

impl ScheduledEventStatus {
    /// The value that stands for the variant on the wire.
    pub open spec fn spec_code(self) -> u8 {
        match self {
            ScheduledEventStatus::Scheduled => 1,
            ScheduledEventStatus::Active => 2,
            ScheduledEventStatus::Completed => 3,
            ScheduledEventStatus::Canceled => 4,
        }
    }

    /// The value that stands for the variant on the wire.
    pub fn code(self) -> (r: u8)
        ensures
            r == self.spec_code(),
    {
        match self {
            ScheduledEventStatus::Scheduled => 1,
            ScheduledEventStatus::Active => 2,
            ScheduledEventStatus::Completed => 3,
            ScheduledEventStatus::Canceled => 4,
        }
    }
}

/// Where a scheduled event takes place.
#[derive(Clone, Debug)]
pub struct ScheduledEventEntity {
    pub location: Option<String>,
}

/// The kind of place of a scheduled event.
#[derive(Clone, Copy, Debug, PartialEq, Eq, Structural)]
pub enum ScheduledEventEntityType {
    StageInstance,
    Voice,
    External,
}

impl ScheduledEventEntityType {
    /// The value that stands for the variant on the wire.
    pub open spec fn spec_code(self) -> u8 {
        match self {
            ScheduledEventEntityType::StageInstance => 1,
            ScheduledEventEntityType::Voice => 2,
            ScheduledEventEntityType::External => 3,
        }
    }

    /// The value that stands for the variant on the wire.
    pub fn code(self) -> (r: u8)
        ensures
            r == self.spec_code(),
    {
        match self {
            ScheduledEventEntityType::StageInstance => 1,
            ScheduledEventEntityType::Voice => 2,
            ScheduledEventEntityType::External => 3,
        }
    }
}

/// A report that a user joined or left a scheduled event.
#[derive(Clone, Copy, Debug)]
pub struct ScheduledEventUser {
    pub guild_scheduled_event_id: Id,
    pub user_id: Id,
    pub guild_id: Id,
}

} // verus!
