use daybreak::channel::ChannelEdit;
use daybreak::model::channel::{ChannelType, PermissionOverwrite, PermissionOverwriteKind, VideoQualityMode};
use daybreak::model::Id;
use daybreak::sticker::EditSticker;

#[test]
fn builders_set_one_field_each() {
    let edit = ChannelEdit::default()
        .name("general")
        .topic("talk")
        .position(3)
        .nsfw(false)
        .rate_limit(5)
        .parent(Id(7))
        .archive_duration(60)
        .thread_rate_limit(2)
        .with_type(ChannelType::GuildText);
    assert_eq!(edit.name.as_deref(), Some("general"));
    assert_eq!(edit.topic.as_deref(), Some("talk"));
    assert_eq!(edit.position, Some(3));
    assert_eq!(edit.nsfw, Some(false));
    assert_eq!(edit.rate_limit_per_user, Some(5));
    assert_eq!(edit.parent_id, Some(Id(7)));
    assert_eq!(edit.default_auto_archive_duration, Some(60));
    assert_eq!(edit.default_thread_rate_limit_per_user, Some(2));
    assert_eq!(edit.channel_type, Some(ChannelType::GuildText));
    assert_eq!(edit.bitrate, None);
    assert!(edit.validate_text());
    assert!(!edit.validate_announcement());
    assert!(!edit.validate_forum());
}

#[test]
fn voice_settings() {
    let overwrite = PermissionOverwrite {
        id: Id(1),
        kind: PermissionOverwriteKind::Role,
        allow: "0".to_string(),
        deny: "8".to_string(),
    };
    let edit = ChannelEdit::default()
        .bitrate(64000)
        .user_limit(10)
        .region("rotterdam")
        .video_quality(VideoQualityMode::Full)
        .overwrite_perms(vec![overwrite]);
    assert_eq!(edit.bitrate, Some(64000));
    assert_eq!(edit.user_limit, Some(10));
    assert_eq!(edit.rtc_region.as_deref(), Some("rotterdam"));
    assert_eq!(edit.video_quality_mode, Some(VideoQualityMode::Full));
    assert_eq!(edit.permission_overwrites.len(), 1);
    assert!(!edit.validate_text());
    assert!(edit.validate_voice());
    assert!(!edit.validate_stage());
}

#[test]
fn bitrate_bounds() {
    assert!(ChannelEdit::default().bitrate(8000).validate_voice());
    assert!(ChannelEdit::default().bitrate(384000).validate_voice());
    assert!(!ChannelEdit::default().bitrate(7999).validate_voice());
    assert!(!ChannelEdit::default().bitrate(384001).validate_voice());
    assert!(!ChannelEdit::default().validate_voice());
    assert!(ChannelEdit::default().bitrate(64000).validate_stage());
    assert!(!ChannelEdit::default().bitrate(64001).validate_stage());
    assert!(!ChannelEdit::default().bitrate(64000).topic("t").validate_stage());
    assert!(ChannelEdit::default().bitrate(8000).name("stage").validate_stage());
}

#[test]
fn empty_edit_suits_text_announcement_and_forum() {
    let edit = ChannelEdit::default();
    assert!(edit.validate_text());
    assert!(edit.validate_announcement());
    assert!(edit.validate_forum());
    assert!(!edit.validate_stage());
}

#[test]
fn sticker_edit_builders() {
    let edit = EditSticker::default().name("wave").desc("a wave").tags("hand");
    assert_eq!(edit.name.as_deref(), Some("wave"));
    assert_eq!(edit.description.as_deref(), Some("a wave"));
    assert_eq!(edit.tags.as_deref(), Some("hand"));
    let edit = EditSticker::default().tags("x");
    assert_eq!(edit.name, None);
}
