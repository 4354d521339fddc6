//! Auto moderation rules, their triggers and actions.

use vstd::prelude::*;

use crate::model::Id;

verus! {

/// A guild rule that auto moderation enforces.
#[derive(Clone, Debug)]
pub struct AutoModerationRule {
    pub id: Id,
    pub guild_id: Id,
    pub name: String,
    pub creator_id: Id,
    pub event_type: AutoModerationEvent,
    pub trigger_type: AutoModerationTriggerType,
    pub trigger_metadata: AutoModerationTrigger,
    pub actions: Vec<AutoModerationAction>,
    pub enabled: bool,
    pub exempt_roles: Vec<Id>,
    pub exempt_channels: Vec<Id>,
}

/// The event that makes a rule be checked.
#[derive(Clone, Copy, Debug, PartialEq, Eq, Structural)]
pub enum AutoModerationEvent {
    MessageSend,
}

impl AutoModerationEvent {
    /// The value that stands for the variant on the wire.
    pub open spec fn spec_code(self) -> u8 {
        match self {
            AutoModerationEvent::MessageSend => 1,
        }
    }

    /// The value that stands for the variant on the wire.
    pub fn code(self) -> (r: u8)
        ensures
            r == self.spec_code(),
    {
        match self {
            AutoModerationEvent::MessageSend => 1,
        }
    }
}

/// What makes a rule fire.
#[derive(Clone, Copy, Debug, PartialEq, Eq, Structural)]
pub enum AutoModerationTriggerType {
    Keyword,
    HarmfulLink,
    Spam,
    KeywordPreset,
    MentionSpam,
}

impl AutoModerationTriggerType {
    /// The value that stands for the variant on the wire.
    pub open spec fn spec_code(self) -> u8 {
        match self {
            AutoModerationTriggerType::Keyword => 1,
            AutoModerationTriggerType::HarmfulLink => 2,
            AutoModerationTriggerType::Spam => 3,
            AutoModerationTriggerType::KeywordPreset => 4,
            AutoModerationTriggerType::MentionSpam => 5,
        }
    }

    /// The value that stands for the variant on the wire.
    pub fn code(self) -> (r: u8)
        ensures
            r == self.spec_code(),
    {
        match self {
            AutoModerationTriggerType::Keyword => 1,
            AutoModerationTriggerType::HarmfulLink => 2,
            AutoModerationTriggerType::Spam => 3,
            AutoModerationTriggerType::KeywordPreset => 4,
            AutoModerationTriggerType::MentionSpam => 5,
        }
    }
}

/// The details that a rule's trigger uses.
#[derive(Clone, Debug)]
pub struct AutoModerationTrigger {
    pub keyword_filter: Option<Vec<String>>,
    pub presets: Option<Vec<KeywordPresetType>>,
    pub allow_list: Option<Vec<String>>,
    pub mention_total_limit: Option<u8>,
}

/// A predefined word list.
#[derive(Clone, Copy, Debug, PartialEq, Eq, Structural)]
pub enum KeywordPresetType {
    Profanity,
    SexualContent,
    Slurs,
}

impl KeywordPresetType {
    /// The value that stands for the variant on the wire.
    pub open spec fn spec_code(self) -> u8 {
        match self {
            KeywordPresetType::Profanity => 1,
            KeywordPresetType::SexualContent => 2,
            KeywordPresetType::Slurs => 3,
        }
    }

    /// The value that stands for the variant on the wire.
    pub fn code(self) -> (r: u8)
        ensures
            r == self.spec_code(),
    {
        match self {
            KeywordPresetType::Profanity => 1,
            KeywordPresetType::SexualContent => 2,
            KeywordPresetType::Slurs => 3,
        }
    }
}

/// What happens when a rule fires.
#[derive(Clone, Copy, Debug)]
pub struct AutoModerationAction {
    pub kind: AutoModerationActionType,
    pub metadata: Option<AutoModerationActionData>,
}

/// The kind of an auto moderation action.
#[derive(Clone, Copy, Debug, PartialEq, Eq, Structural)]
pub enum AutoModerationActionType {
    BlockMessage,
    SendAlertMessage,
    Timeout,
}

impl AutoModerationActionType {
    /// The value that stands for the variant on the wire.
    pub open spec fn spec_code(self) -> u8 {
        match self {
            AutoModerationActionType::BlockMessage => 1,
            AutoModerationActionType::SendAlertMessage => 2,
            AutoModerationActionType::Timeout => 3,
        }
    }

    /// The value that stands for the variant on the wire.
    pub fn code(self) -> (r: u8)
        ensures
            r == self.spec_code(),
    {
        match self {
            AutoModerationActionType::BlockMessage => 1,
            AutoModerationActionType::SendAlertMessage => 2,
            AutoModerationActionType::Timeout => 3,
        }
    }
}

/// The details of an auto moderation action.
#[derive(Clone, Copy, Debug)]
pub struct AutoModerationActionData {
    pub channel_id: Option<Id>,
    pub duration_seconds: Option<u32>,
}

/// A report that a rule fired and an action was taken.
#[derive(Clone, Debug)]
pub struct AutoModerationExecution {
    pub guild_id: Id,
    pub action: AutoModerationAction,
    pub rule_id: Id,
    pub rule_trigger_type: AutoModerationTriggerType,
    pub user_id: Id,
    pub channel_id: Option<Id>,
    pub message_id: Option<Id>,
    pub alert_system_message_id: Option<Id>,
    pub content: String,
    pub matched_keyword: Option<String>,
    pub matched_content: Option<String>,
}

} // verus!
