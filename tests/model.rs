use daybreak::model::channel::ChannelType;
use daybreak::model::message::MessageFlags;
use daybreak::model::user::{PremiumType, UserFlags};
use daybreak::model::{Id, Timestamp};
use daybreak::permission::{PermissionSet, Permissions};

#[test]
fn models_id_timestamp() {
    assert_eq!(
        Id(258_568_289_746_288_641).timestamp(),
        Timestamp::from_unix_timestamp(1_481_717_884)
    );
}

#[test]
fn model_id_timestamp() {
    assert_eq!(
        Id(258_568_289_746_288_641).timestamp(),
        Timestamp::from_unix_timestamp(1_481_717_884)
    );
}

#[test]
fn permissions_pretty_string() {
    let set = PermissionSet::from_flag(Permissions::CreateInstantInvite)
        .union(PermissionSet::from_flag(Permissions::KickMembers));
    assert_eq!(
        daybreak::permission::to_pretty_string(set),
        "- Create Invite\n- Kick Members"
    );
}

#[test]
fn id_timestamp_of_zero_is_the_epoch() {
    assert_eq!(Id(0).timestamp().unix_seconds, 1_420_070_400);
}

#[test]
fn id_timestamp_of_largest_id() {
    // ((2^64 - 1) >> 22) + 1_420_070_400_000 milliseconds, truncated to seconds.
    assert_eq!(Id(u64::MAX).timestamp().unix_seconds, 5_818_116_911);
}

#[test]
fn id_timestamp_ignores_low_bits() {
    assert_eq!(Id(0x3f_ffff).timestamp(), Id(0).timestamp());
    assert_eq!(Id(1 << 22).timestamp().unix_seconds, 1_420_070_400);
    assert_eq!(Id(1000 << 22).timestamp().unix_seconds, 1_420_070_401);
}

#[test]
fn id_to_decimal() {
    assert_eq!(Id(0).to_decimal(), "0");
    assert_eq!(Id(7).to_decimal(), "7");
    assert_eq!(Id(1_015_676_961_814_749_265).to_decimal(), "1015676961814749265");
    assert_eq!(Id(u64::MAX).to_decimal(), "18446744073709551615");
}

#[test]
fn wire_codes() {
    assert_eq!(ChannelType::GuildText.code(), 0);
    assert_eq!(ChannelType::GuildNewsThread.code(), 10);
    assert_eq!(ChannelType::GuildForum.code(), 15);
    assert_eq!(PremiumType::NoSubscription.code(), 0);
    assert_eq!(UserFlags::HypesquadOnlineHouse3.bit(), 1 << 8);
    assert_eq!(MessageFlags::FailedToMentionSomeRolesInThread.bit(), 1 << 8);
}
