use vstd::prelude::*;
use vstd::string::*;

use crate::model::channel::{ChannelType, PermissionOverwrite, VideoQualityMode};
use crate::model::Id;

verus! {

/// A change to a channel, built up one setting at a time; settings left unset
/// are not changed.
#[derive(Debug)]
pub struct ChannelEdit {
    pub name: Option<String>,
    pub channel_type: Option<ChannelType>,
    pub position: Option<u16>,
    pub topic: Option<String>,
    pub nsfw: Option<bool>,
    pub rate_limit_per_user: Option<u16>,
    pub bitrate: Option<u32>,
    pub user_limit: Option<u8>,
    pub permission_overwrites: Vec<PermissionOverwrite>,
    pub parent_id: Option<Id>,
    pub rtc_region: Option<String>,
    pub video_quality_mode: Option<VideoQualityMode>,
    pub default_auto_archive_duration: Option<u16>,
    pub default_thread_rate_limit_per_user: Option<u16>,
}

impl Default for ChannelEdit {
    /// The change that sets nothing.
    fn default() -> (r: ChannelEdit)
        ensures
            r.unchanged(),
    {
        ChannelEdit {
            name: None,
            channel_type: None,
            position: None,
            topic: None,
            nsfw: None,
            rate_limit_per_user: None,
            bitrate: None,
            user_limit: None,
            permission_overwrites: Vec::new(),
            parent_id: None,
            rtc_region: None,
            video_quality_mode: None,
            default_auto_archive_duration: None,
            default_thread_rate_limit_per_user: None,
        }
    }
}

impl ChannelEdit {
    /// Whether the change sets nothing.
    pub open spec fn unchanged(self) -> bool {
        &&& self.name is None
        &&& self.channel_type is None
        &&& self.position is None
        &&& self.topic is None
        &&& self.nsfw is None
        &&& self.rate_limit_per_user is None
        &&& self.bitrate is None
        &&& self.user_limit is None
        &&& self.permission_overwrites@.len() == 0
        &&& self.parent_id is None
        &&& self.rtc_region is None
        &&& self.video_quality_mode is None
        &&& self.default_auto_archive_duration is None
        &&& self.default_thread_rate_limit_per_user is None
    }

    /// Sets the new name of the channel.
    pub fn name(self, name: &str) -> (r: ChannelEdit)
        ensures
            r.name matches Some(v) && v@ == name@,
            r == (ChannelEdit { name: r.name, ..self }),
    {
        ChannelEdit { name: Some(String::from_str(name)), ..self }
    }

    /// Sets the new type of the channel.
    pub fn with_type(self, channel_type: ChannelType) -> (r: ChannelEdit)
        ensures
            r.channel_type == Some(channel_type),
            r == (ChannelEdit { channel_type: r.channel_type, ..self }),
    {
        ChannelEdit { channel_type: Some(channel_type), ..self }
    }

    /// Sets the new position of the channel.
    pub fn position(self, position: u16) -> (r: ChannelEdit)
        ensures
            r.position == Some(position),
            r == (ChannelEdit { position: r.position, ..self }),
    {
        ChannelEdit { position: Some(position), ..self }
    }

    /// Sets the new topic of the channel.
    pub fn topic(self, topic: &str) -> (r: ChannelEdit)
        ensures
            r.topic matches Some(v) && v@ == topic@,
            r == (ChannelEdit { topic: r.topic, ..self }),
    {
        ChannelEdit { topic: Some(String::from_str(topic)), ..self }
    }

    /// Sets whether the channel is marked NSFW.
    pub fn nsfw(self, nsfw: bool) -> (r: ChannelEdit)
        ensures
            r.nsfw == Some(nsfw),
            r == (ChannelEdit { nsfw: r.nsfw, ..self }),
    {
        ChannelEdit { nsfw: Some(nsfw), ..self }
    }

    /// Sets the seconds a user waits between two messages.
    pub fn rate_limit(self, rate_limit: u16) -> (r: ChannelEdit)
        ensures
            r.rate_limit_per_user == Some(rate_limit),
            r == (ChannelEdit { rate_limit_per_user: r.rate_limit_per_user, ..self }),
    {
        ChannelEdit { rate_limit_per_user: Some(rate_limit), ..self }
    }

    /// Sets the bitrate of a voice channel.
    pub fn bitrate(self, bitrate: u32) -> (r: ChannelEdit)
        ensures
            r.bitrate == Some(bitrate),
            r == (ChannelEdit { bitrate: r.bitrate, ..self }),
    {
        ChannelEdit { bitrate: Some(bitrate), ..self }
    }

    /// Sets how many users a voice channel admits.
    pub fn user_limit(self, lim: u8) -> (r: ChannelEdit)
        ensures
            r.user_limit == Some(lim),
            r == (ChannelEdit { user_limit: r.user_limit, ..self }),
    {
        ChannelEdit { user_limit: Some(lim), ..self }
    }

    /// Sets the permission overwrites of the channel.
    pub fn overwrite_perms(self, v: Vec<PermissionOverwrite>) -> (r: ChannelEdit)
        ensures
            r.permission_overwrites == v,
            r == (ChannelEdit { permission_overwrites: r.permission_overwrites, ..self }),
    {
        ChannelEdit { permission_overwrites: v, ..self }
    }

    /// Sets the category that holds the channel.
    pub fn parent(self, parent: Id) -> (r: ChannelEdit)
        ensures
            r.parent_id == Some(parent),
            r == (ChannelEdit { parent_id: r.parent_id, ..self }),
    {
        ChannelEdit { parent_id: Some(parent), ..self }
    }

    /// Sets the voice region of the channel.
    pub fn region(self, rtc_region: &str) -> (r: ChannelEdit)
        ensures
            r.rtc_region matches Some(v) && v@ == rtc_region@,
            r == (ChannelEdit { rtc_region: r.rtc_region, ..self }),
    {
        ChannelEdit { rtc_region: Some(String::from_str(rtc_region)), ..self }
    }

    /// Sets the video quality of a voice channel.
    pub fn video_quality(self, quality_mode: VideoQualityMode) -> (r: ChannelEdit)
        ensures
            r.video_quality_mode == Some(quality_mode),
            r == (ChannelEdit { video_quality_mode: r.video_quality_mode, ..self }),
    {
        ChannelEdit { video_quality_mode: Some(quality_mode), ..self }
    }

    /// Sets the minutes of inactivity after which new threads are archived.
    pub fn archive_duration(self, duration: u16) -> (r: ChannelEdit)
        ensures
            r.default_auto_archive_duration == Some(duration),
            r == (ChannelEdit { default_auto_archive_duration: r.default_auto_archive_duration, ..self }),
    {
        ChannelEdit { default_auto_archive_duration: Some(duration), ..self }
    }

    /// Sets the rate limit that new threads start with.
    pub fn thread_rate_limit(self, limit: u16) -> (r: ChannelEdit)
        ensures
            r.default_thread_rate_limit_per_user == Some(limit),
            r == (ChannelEdit { default_thread_rate_limit_per_user: r.default_thread_rate_limit_per_user, ..self }),
    {
        ChannelEdit { default_thread_rate_limit_per_user: Some(limit), ..self }
    }
    /// Whether the change suits a text channel: it sets nothing that only
    /// voice channels have.
    pub fn validate_text(&self) -> (r: bool)
        ensures
            r == (self.bitrate is None && self.user_limit is None && self.rtc_region is None
                && self.video_quality_mode is None),
    {
        self.bitrate.is_none() && self.user_limit.is_none() && self.rtc_region.is_none()
            && self.video_quality_mode.is_none()
    }

    /// Whether the change suits an announcement channel: no rate limits and
    /// nothing that only voice channels have.
    pub fn validate_announcement(&self) -> (r: bool)
        ensures
            r == (self.rate_limit_per_user is None && self.bitrate is None && self.user_limit is None
                && self.rtc_region is None && self.video_quality_mode is None
                && self.default_thread_rate_limit_per_user is None),
    {
        self.rate_limit_per_user.is_none() && self.bitrate.is_none() && self.user_limit.is_none()
            && self.rtc_region.is_none() && self.video_quality_mode.is_none()
            && self.default_thread_rate_limit_per_user.is_none()
    }

    /// Whether the change suits a forum channel: its type stays, and it sets
    /// neither voice settings nor thread defaults.
    pub fn validate_forum(&self) -> (r: bool)
        ensures
            r == (self.channel_type is None && self.bitrate is None && self.user_limit is None
                && self.rtc_region is None && self.video_quality_mode is None
                && self.default_auto_archive_duration is None
                && self.default_thread_rate_limit_per_user is None),
    {
        self.channel_type.is_none() && self.bitrate.is_none() && self.user_limit.is_none()
            && self.rtc_region.is_none() && self.video_quality_mode.is_none()
            && self.default_auto_archive_duration.is_none()
            && self.default_thread_rate_limit_per_user.is_none()
    }

    /// Whether the change suits a voice channel: its type stays, it sets no
    /// topic, rate limit or thread default, and it sets a bitrate from 8000 to
    /// 384000.
    pub fn validate_voice(&self) -> (r: bool)
        ensures
            r == (self.channel_type is None && self.topic is None && self.rate_limit_per_user is None
                && (self.bitrate matches Some(b) && 8000 <= b <= 384000)
                && self.default_auto_archive_duration is None
                && self.default_thread_rate_limit_per_user is None),
    {
        let bitrate_ok = match self.bitrate {
            Some(b) => 8000 <= b && b <= 384000,
            None => false,
        };
        self.channel_type.is_none() && self.topic.is_none() && self.rate_limit_per_user.is_none()
            && bitrate_ok && self.default_auto_archive_duration.is_none()
            && self.default_thread_rate_limit_per_user.is_none()
    }

    /// Whether the change suits a stage channel: it sets a bitrate from 8000
    /// to 64000, and of the rest at most the name, position, permission
    /// overwrites and voice region.
    pub fn validate_stage(&self) -> (r: bool)
        ensures
            r == (self.channel_type is None && self.topic is None && self.nsfw is None
                && self.rate_limit_per_user is None
                && (self.bitrate matches Some(b) && 8000 <= b <= 64000)
                && self.user_limit is None && self.parent_id is None
                && self.video_quality_mode is None && self.default_auto_archive_duration is None
                && self.default_thread_rate_limit_per_user is None),
    {
        let bitrate_ok = match self.bitrate {
            Some(b) => 8000 <= b && b <= 64000,
            None => false,
        };
        self.channel_type.is_none() && self.topic.is_none() && self.nsfw.is_none()
            && self.rate_limit_per_user.is_none() && bitrate_ok && self.user_limit.is_none()
            && self.parent_id.is_none() && self.video_quality_mode.is_none()
            && self.default_auto_archive_duration.is_none()
            && self.default_thread_rate_limit_per_user.is_none()
    }
}

} // verus!
