//! Gateway payloads and connection details.

use vstd::prelude::*;

use crate::model::Id;

verus! {

/// A group of gateway events that a connection subscribes to.
#[derive(Clone, Copy, Debug, PartialEq, Eq, Structural)]
pub enum Intents {
    Guilds,
    GuildMembers,
    GuildBans,
    GuildEmojisAndStickers,
    GuildIntegrations,
    GuildWebhooks,
    GuildInvites,
    GuildVoiceStates,
    GuildPresences,
    GuildMessages,
    GuildMessageReactions,
    GuildMessageTyping,
    DirectMessages,
    DirectMessageReactions,
    DirectMessageTyping,
    MessageContent,
    GuildScheduledEvents,
    AutoModerationConfiguration,
    AutoModerationExecution,
}

impl Intents {
    /// The bit of the flag in its wire mask.
    pub open spec fn spec_bit(self) -> u32 {
        match self {
            Intents::Guilds => 1,
            Intents::GuildMembers => 2,
            Intents::GuildBans => 4,
            Intents::GuildEmojisAndStickers => 8,
            Intents::GuildIntegrations => 16,
            Intents::GuildWebhooks => 32,
            Intents::GuildInvites => 64,
            Intents::GuildVoiceStates => 128,
            Intents::GuildPresences => 256,
            Intents::GuildMessages => 512,
            Intents::GuildMessageReactions => 1024,
            Intents::GuildMessageTyping => 2048,
            Intents::DirectMessages => 4096,
            Intents::DirectMessageReactions => 8192,
            Intents::DirectMessageTyping => 16384,
            Intents::MessageContent => 32768,
            Intents::GuildScheduledEvents => 65536,
            Intents::AutoModerationConfiguration => 1048576,
            Intents::AutoModerationExecution => 2097152,
        }
    }

    /// The bit of the flag in its wire mask.
    pub fn bit(self) -> (r: u32)
        ensures
            r == self.spec_bit(),
    {
        match self {
            Intents::Guilds => 1,
            Intents::GuildMembers => 2,
            Intents::GuildBans => 4,
            Intents::GuildEmojisAndStickers => 8,
            Intents::GuildIntegrations => 16,
            Intents::GuildWebhooks => 32,
            Intents::GuildInvites => 64,
            Intents::GuildVoiceStates => 128,
            Intents::GuildPresences => 256,
            Intents::GuildMessages => 512,
            Intents::GuildMessageReactions => 1024,
            Intents::GuildMessageTyping => 2048,
            Intents::DirectMessages => 4096,
            Intents::DirectMessageReactions => 8192,
            Intents::DirectMessageTyping => 16384,
            Intents::MessageContent => 32768,
            Intents::GuildScheduledEvents => 65536,
            Intents::AutoModerationConfiguration => 1048576,
            Intents::AutoModerationExecution => 2097152,
        }
    }
}

/// A message sent over the gateway.
#[derive(Clone, Debug)]
pub struct Payload {
    pub op: GatewayOpcode,
    pub d: Option<String>,
    pub s: Option<u32>,
    pub t: Option<String>,
}

/// The operation of a gateway payload.
#[derive(Clone, Copy, Debug, PartialEq, Eq, Structural)]
pub enum GatewayOpcode {
    Dispatch,
    Heartbeat,
    Identify,
    PresenceUpdate,
    VoiceStateUpdate,
    Resume,
    Reconnect,
    RequestGuildMembers,
    InvalidSession,
    Hello,
    HeartbeatACK,
}

impl GatewayOpcode {
    /// The value that stands for the variant on the wire.
    pub open spec fn spec_code(self) -> u8 {
        match self {
            GatewayOpcode::Dispatch => 0,
            GatewayOpcode::Heartbeat => 1,
            GatewayOpcode::Identify => 2,
            GatewayOpcode::PresenceUpdate => 3,
            GatewayOpcode::VoiceStateUpdate => 4,
            GatewayOpcode::Resume => 6,
            GatewayOpcode::Reconnect => 7,
            GatewayOpcode::RequestGuildMembers => 8,
            GatewayOpcode::InvalidSession => 9,
            GatewayOpcode::Hello => 10,
            GatewayOpcode::HeartbeatACK => 11,
        }
    }

    /// The value that stands for the variant on the wire.
    pub fn code(self) -> (r: u8)
        ensures
            r == self.spec_code(),
    {
        match self {
            GatewayOpcode::Dispatch => 0,
            GatewayOpcode::Heartbeat => 1,
            GatewayOpcode::Identify => 2,
            GatewayOpcode::PresenceUpdate => 3,
            GatewayOpcode::VoiceStateUpdate => 4,
            GatewayOpcode::Resume => 6,
            GatewayOpcode::Reconnect => 7,
            GatewayOpcode::RequestGuildMembers => 8,
            GatewayOpcode::InvalidSession => 9,
            GatewayOpcode::Hello => 10,
            GatewayOpcode::HeartbeatACK => 11,
        }
    }
}

/// The properties of the connection that identifies itself.
#[derive(Clone, Debug)]
pub struct IdentifyConnection {
    pub os: String,
    pub browser: String,
    pub device: String,
}

/// A request to resume a dropped gateway session.
#[derive(Clone, Debug)]
pub struct Resume {
    pub token: String,
    pub session_id: String,
    pub seq: u32,
}

/// A request for the members of a guild.
#[derive(Clone, Debug)]
pub struct RequestGuildMembers {
    pub guild_id: Id,
    pub query: Option<String>,
    pub limit: Option<u16>,
    pub presences: Option<bool>,
    pub user_ids: Option<Vec<Id>>,
    pub nonce: Option<String>,
}

/// The gateway address with the bot's sharding details.
#[derive(Clone, Debug)]
pub struct BotGateway {
    pub url: Option<String>,
    pub shards: u16,
    pub session_start_limit: SessionStartLimit,
}

/// How many sessions the bot may still start.
#[derive(Clone, Copy, Debug)]
pub struct SessionStartLimit {
    pub total: u32,
    pub remaining: u32,
    pub reset_after: u32,
    pub max_concurrency: u32,
}

/// The first payload the gateway sends.
#[derive(Clone, Copy, Debug)]
pub struct Hello {
    pub heartbeat_interval: u32,
}

} // verus!
