//! Voice connections.

use vstd::prelude::*;

use crate::model::Id;

verus! {

/// The voice server a guild's voice connections use.
#[derive(Clone, Debug)]
pub struct VoiceServer {
    pub token: String,
    pub guild_id: Id,
    pub endpoint: Option<String>,
}

/// A change to the bot's own voice state.
#[derive(Clone, Copy, Debug)]
pub struct UpdatedVoiceState {
    pub guild_id: Id,
    pub channel_id: Option<Id>,
    pub self_mute: bool,
    pub self_deaf: bool,
}

/// The operation of a voice gateway payload.
#[derive(Clone, Copy, Debug, PartialEq, Eq, Structural)]
pub enum VoiceOpcode {
    Identify,
    SelectProtocol,
    Ready,
    Heartbeat,
    SessionDescription,
    Speaking,
    HeartbeatACK,
    Resume,
    Hello,
    Resumed,
    ClientDisconnect,
}

impl VoiceOpcode {
    /// The value that stands for the variant on the wire.
    pub open spec fn spec_code(self) -> u8 {
        match self {
            VoiceOpcode::Identify => 0,
            VoiceOpcode::SelectProtocol => 1,
            VoiceOpcode::Ready => 2,
            VoiceOpcode::Heartbeat => 3,
            VoiceOpcode::SessionDescription => 4,
            VoiceOpcode::Speaking => 5,
            VoiceOpcode::HeartbeatACK => 6,
            VoiceOpcode::Resume => 7,
            VoiceOpcode::Hello => 8,
            VoiceOpcode::Resumed => 9,
            VoiceOpcode::ClientDisconnect => 13,
        }
    }

    /// The value that stands for the variant on the wire.
    pub fn code(self) -> (r: u8)
        ensures
            r == self.spec_code(),
    {
        match self {
            VoiceOpcode::Identify => 0,
            VoiceOpcode::SelectProtocol => 1,
            VoiceOpcode::Ready => 2,
            VoiceOpcode::Heartbeat => 3,
            VoiceOpcode::SessionDescription => 4,
            VoiceOpcode::Speaking => 5,
            VoiceOpcode::HeartbeatACK => 6,
            VoiceOpcode::Resume => 7,
            VoiceOpcode::Hello => 8,
            VoiceOpcode::Resumed => 9,
            VoiceOpcode::ClientDisconnect => 13,
        }
    }
}

} // verus!
