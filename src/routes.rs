use vstd::prelude::*;
use vstd::string::*;

use crate::context::Context;
use crate::http::{Method, Request, RequestError, WireRequest, API_BASE, USER_AGENT};
use crate::model::{decimal, push_decimal, Id};
use crate::permission::{PermissionSet, Permissions};

verus! {

/// `r` is the outcome of asking `ctx` for a request that needs `required`,
/// with the given verb, path and body.
pub open spec fn routed(
    ctx: Context,
    required: Set<Permissions>,
    method: Method,
    path: Seq<char>,
    body: Option<String>,
    r: Result<WireRequest, RequestError>,
) -> bool {
    &&& r is Ok <==> required.subset_of(ctx.permissions@)
    &&& r matches Ok(w) ==> {
        &&& w.method == method
        &&& w.uri@ == API_BASE@ + path
        &&& w.user_agent@ == USER_AGENT@
        &&& w.authorization@ == ctx.token@
        &&& w.body == body
    }
    &&& r matches Err(e) ==> (e matches RequestError::MissingPermissions(lacking) && lacking@
        == required.difference(ctx.permissions@))
}

impl Context {
    /// The auto moderation rules of a guild.
    pub fn auto_moderation_rules(&self, guild_id: Id) -> (r: Result<WireRequest, RequestError>)
        requires
            self.permissions.wf(),
        ensures
            routed(
                *self,
                set![Permissions::ManageGuild],
                Method::Get,
                "/guilds/"@ + decimal(guild_id.0 as nat) + "/auto-moderation/rules"@,
                None,
                r,
            ),
    {
        let mut path = String::from_str("/guilds/");
        push_decimal(&mut path, guild_id.0);
        path.append("/auto-moderation/rules");
        let request = Request::new(PermissionSet::from_flag(Permissions::ManageGuild), Method::Get, path);
        self.empty_request(request)
    }

    /// One auto moderation rule of a guild.
    pub fn auto_moderation_rule(&self, guild_id: Id, auto_moderation_rule_id: Id) -> (r: Result<WireRequest, RequestError>)
        requires
            self.permissions.wf(),
        ensures
            routed(
                *self,
                set![Permissions::ManageGuild],
                Method::Get,
                "/guilds/"@ + decimal(guild_id.0 as nat) + "/auto-moderation/rules/"@ + decimal(auto_moderation_rule_id.0 as nat),
                None,
                r,
            ),
    {
        let mut path = String::from_str("/guilds/");
        push_decimal(&mut path, guild_id.0);
        path.append("/auto-moderation/rules/");
        push_decimal(&mut path, auto_moderation_rule_id.0);
        let request = Request::new(PermissionSet::from_flag(Permissions::ManageGuild), Method::Get, path);
        self.empty_request(request)
    }

    /// A channel.
    pub fn get_channel(&self, channel_id: Id) -> (r: Result<WireRequest, RequestError>)
        requires
            self.permissions.wf(),
        ensures
            routed(
                *self,
                set![Permissions::ViewChannel],
                Method::Get,
                "/channels/"@ + decimal(channel_id.0 as nat),
                None,
                r,
            ),
    {
        let mut path = String::from_str("/channels/");
        push_decimal(&mut path, channel_id.0);
        let request = Request::new(PermissionSet::from_flag(Permissions::ViewChannel), Method::Get, path);
        self.empty_request(request)
    }

    /// Deletes a channel, or closes a direct message.
    pub fn channel_delete(&self, channel_id: Id) -> (r: Result<WireRequest, RequestError>)
        requires
            self.permissions.wf(),
        ensures
            routed(
                *self,
                set![Permissions::ViewChannel],
                Method::Delete,
                "/channels/"@ + decimal(channel_id.0 as nat),
                None,
                r,
            ),
    {
        let mut path = String::from_str("/channels/");
        push_decimal(&mut path, channel_id.0);
        let request = Request::new(PermissionSet::from_flag(Permissions::ViewChannel), Method::Delete, path);
        self.empty_request(request)
    }

    /// Changes a channel; the body is the JSON text of a channel edit.
    pub fn edit(&self, channel_id: Id, body: String) -> (r: Result<WireRequest, RequestError>)
        requires
            self.permissions.wf(),
        ensures
            routed(
                *self,
                set![Permissions::ViewChannel],
                Method::Patch,
                "/channels/"@ + decimal(channel_id.0 as nat),
                Some(body),
                r,
            ),
    {
        let mut path = String::from_str("/channels/");
        push_decimal(&mut path, channel_id.0);
        let request = Request::new(PermissionSet::from_flag(Permissions::ViewChannel), Method::Patch, path);
        self.prepare(request, Some(body))
    }

    /// The emojis of a guild.
    pub fn emojis(&self, guild_id: Id) -> (r: Result<WireRequest, RequestError>)
        requires
            self.permissions.wf(),
        ensures
            routed(
                *self,
                Set::<Permissions>::empty(),
                Method::Get,
                "/guilds/"@ + decimal(guild_id.0 as nat) + "/emojis"@,
                None,
                r,
            ),
    {
        let mut path = String::from_str("/guilds/");
        push_decimal(&mut path, guild_id.0);
        path.append("/emojis");
        let request = Request::new(PermissionSet::empty(), Method::Get, path);
        self.empty_request(request)
    }

    /// One emoji of a guild.
    pub fn emoji(&self, guild_id: Id, emoji_id: Id) -> (r: Result<WireRequest, RequestError>)
        requires
            self.permissions.wf(),
        ensures
            routed(
                *self,
                Set::<Permissions>::empty(),
                Method::Get,
                "/guilds/"@ + decimal(guild_id.0 as nat) + "/emojis/"@ + decimal(emoji_id.0 as nat),
                None,
                r,
            ),
    {
        let mut path = String::from_str("/guilds/");
        push_decimal(&mut path, guild_id.0);
        path.append("/emojis/");
        push_decimal(&mut path, emoji_id.0);
        let request = Request::new(PermissionSet::empty(), Method::Get, path);
        self.empty_request(request)
    }

    /// Creates an emoji in a guild; the body is the JSON text of the new emoji.
    pub fn create(&self, guild_id: Id, body: String) -> (r: Result<WireRequest, RequestError>)
        requires
            self.permissions.wf(),
        ensures
            routed(
                *self,
                set![Permissions::ManageEmojisAndStickers],
                Method::Post,
                "/guilds/"@ + decimal(guild_id.0 as nat) + "/emojis"@,
                Some(body),
                r,
            ),
    {
        let mut path = String::from_str("/guilds/");
        push_decimal(&mut path, guild_id.0);
        path.append("/emojis");
        let request = Request::new(PermissionSet::from_flag(Permissions::ManageEmojisAndStickers), Method::Post, path);
        self.prepare(request, Some(body))
    }

    /// Changes an emoji of a guild; the body is the JSON text of the change.
    pub fn modify(&self, guild_id: Id, emoji_id: Id, body: String) -> (r: Result<WireRequest, RequestError>)
        requires
            self.permissions.wf(),
        ensures
            routed(
                *self,
                set![Permissions::ManageEmojisAndStickers],
                Method::Patch,
                "/guilds/"@ + decimal(guild_id.0 as nat) + "/emojis/"@ + decimal(emoji_id.0 as nat),
                Some(body),
                r,
            ),
    {
        let mut path = String::from_str("/guilds/");
        push_decimal(&mut path, guild_id.0);
        path.append("/emojis/");
        push_decimal(&mut path, emoji_id.0);
        let request = Request::new(PermissionSet::from_flag(Permissions::ManageEmojisAndStickers), Method::Patch, path);
        self.prepare(request, Some(body))
    }

    /// Deletes an emoji of a guild.
    pub fn delete(&self, guild_id: Id, emoji_id: Id) -> (r: Result<WireRequest, RequestError>)
        requires
            self.permissions.wf(),
        ensures
            routed(
                *self,
                set![Permissions::ManageEmojisAndStickers],
                Method::Delete,
                "/guilds/"@ + decimal(guild_id.0 as nat) + "/emojis/"@ + decimal(emoji_id.0 as nat),
                None,
                r,
            ),
    {
        let mut path = String::from_str("/guilds/");
        push_decimal(&mut path, guild_id.0);
        path.append("/emojis/");
        push_decimal(&mut path, emoji_id.0);
        let request = Request::new(PermissionSet::from_flag(Permissions::ManageEmojisAndStickers), Method::Delete, path);
        self.empty_request(request)
    }

    /// The address of the gateway.
    pub fn get_gateway(&self) -> (r: Result<WireRequest, RequestError>)
        requires
            self.permissions.wf(),
        ensures
            routed(
                *self,
                Set::<Permissions>::empty(),
                Method::Get,
                "/gateway"@,
                None,
                r,
            ),
    {
        let mut path = String::from_str("/gateway");
        let request = Request::new(PermissionSet::empty(), Method::Get, path);
        self.empty_request(request)
    }

    /// The address of the gateway with the bot's sharding details.
    pub fn get_gateway_bot(&self) -> (r: Result<WireRequest, RequestError>)
        requires
            self.permissions.wf(),
        ensures
            routed(
                *self,
                Set::<Permissions>::empty(),
                Method::Get,
                "/gateway/bot"@,
                None,
                r,
            ),
    {
        let mut path = String::from_str("/gateway/bot");
        let request = Request::new(PermissionSet::empty(), Method::Get, path);
        self.empty_request(request)
    }

    /// A sticker.
    pub fn get_sticker(&self, sticker_id: Id) -> (r: Result<WireRequest, RequestError>)
        requires
            self.permissions.wf(),
        ensures
            routed(
                *self,
                Set::<Permissions>::empty(),
                Method::Get,
                "/stickers/"@ + decimal(sticker_id.0 as nat),
                None,
                r,
            ),
    {
        let mut path = String::from_str("/stickers/");
        push_decimal(&mut path, sticker_id.0);
        let request = Request::new(PermissionSet::empty(), Method::Get, path);
        self.empty_request(request)
    }

    /// The sticker packs open to premium users.
    pub fn nitro_sticker_packs(&self) -> (r: Result<WireRequest, RequestError>)
        requires
            self.permissions.wf(),
        ensures
            routed(
                *self,
                Set::<Permissions>::empty(),
                Method::Get,
                "/sticker-packs"@,
                None,
                r,
            ),
    {
        let mut path = String::from_str("/sticker-packs");
        let request = Request::new(PermissionSet::empty(), Method::Get, path);
        self.empty_request(request)
    }

    /// The stickers of a guild.
    pub fn list_guild_stickers(&self, guild_id: Id) -> (r: Result<WireRequest, RequestError>)
        requires
            self.permissions.wf(),
        ensures
            routed(
                *self,
                Set::<Permissions>::empty(),
                Method::Get,
                "/guilds/"@ + decimal(guild_id.0 as nat) + "/stickers"@,
                None,
                r,
            ),
    {
        let mut path = String::from_str("/guilds/");
        push_decimal(&mut path, guild_id.0);
        path.append("/stickers");
        let request = Request::new(PermissionSet::empty(), Method::Get, path);
        self.empty_request(request)
    }

    /// One sticker of a guild.
    pub fn get_guild_sticker(&self, guild_id: Id, sticker_id: Id) -> (r: Result<WireRequest, RequestError>)
        requires
            self.permissions.wf(),
        ensures
            routed(
                *self,
                Set::<Permissions>::empty(),
                Method::Get,
                "/guilds/"@ + decimal(guild_id.0 as nat) + "/stickers/"@ + decimal(sticker_id.0 as nat),
                None,
                r,
            ),
    {
        let mut path = String::from_str("/guilds/");
        push_decimal(&mut path, guild_id.0);
        path.append("/stickers/");
        push_decimal(&mut path, sticker_id.0);
        let request = Request::new(PermissionSet::empty(), Method::Get, path);
        self.empty_request(request)
    }

    /// Creates a sticker in a guild; the body is the JSON text of the new sticker.
    pub fn create_sticker(&self, guild_id: Id, body: String) -> (r: Result<WireRequest, RequestError>)
        requires
            self.permissions.wf(),
        ensures
            routed(
                *self,
                set![Permissions::ManageEmojisAndStickers],
                Method::Post,
                "/guilds/"@ + decimal(guild_id.0 as nat) + "/stickers"@,
                Some(body),
                r,
            ),
    {
        let mut path = String::from_str("/guilds/");
        push_decimal(&mut path, guild_id.0);
        path.append("/stickers");
        let request = Request::new(PermissionSet::from_flag(Permissions::ManageEmojisAndStickers), Method::Post, path);
        self.prepare(request, Some(body))
    }

    /// Changes a sticker of a guild; the body is the JSON text of the change.
    pub fn modify_sticker(&self, guild_id: Id, sticker_id: Id, body: String) -> (r: Result<WireRequest, RequestError>)
        requires
            self.permissions.wf(),
        ensures
            routed(
                *self,
                set![Permissions::ManageEmojisAndStickers],
                Method::Patch,
                "/guilds/"@ + decimal(guild_id.0 as nat) + "/stickers/"@ + decimal(sticker_id.0 as nat),
                Some(body),
                r,
            ),
    {
        let mut path = String::from_str("/guilds/");
        push_decimal(&mut path, guild_id.0);
        path.append("/stickers/");
        push_decimal(&mut path, sticker_id.0);
        let request = Request::new(PermissionSet::from_flag(Permissions::ManageEmojisAndStickers), Method::Patch, path);
        self.prepare(request, Some(body))
    }

    /// Deletes a sticker of a guild.
    pub fn delete_sticker(&self, guild_id: Id, sticker_id: Id) -> (r: Result<WireRequest, RequestError>)
        requires
            self.permissions.wf(),
        ensures
            routed(
                *self,
                set![Permissions::ManageEmojisAndStickers],
                Method::Delete,
                "/guilds/"@ + decimal(guild_id.0 as nat) + "/stickers/"@ + decimal(sticker_id.0 as nat),
                None,
                r,
            ),
    {
        let mut path = String::from_str("/guilds/");
        push_decimal(&mut path, guild_id.0);
        path.append("/stickers/");
        push_decimal(&mut path, sticker_id.0);
        let request = Request::new(PermissionSet::from_flag(Permissions::ManageEmojisAndStickers), Method::Delete, path);
        self.empty_request(request)
    }
}

} // verus!
