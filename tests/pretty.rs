use daybreak::permission::{PermissionSet, Permissions};

#[test]
fn to_pretty_string() {
    let set = PermissionSet::from_flag(Permissions::CreateInstantInvite)
        .union(PermissionSet::from_flag(Permissions::KickMembers));
    assert_eq!(
        daybreak::permission::to_pretty_string(set),
        "- Create Invite\n- Kick Members"
    );
}
