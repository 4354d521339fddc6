use daybreak::permission::{to_pretty_string, PermissionSet, Permissions, ALL_BITS};

fn set_of(flags: &[Permissions]) -> PermissionSet {
    let mut set = PermissionSet::empty();
    for flag in flags {
        set = set.union(PermissionSet::from_flag(*flag));
    }
    set
}

#[test]
fn union_contains_both_operands() {
    let a = set_of(&[Permissions::BanMembers, Permissions::Speak]);
    let b = set_of(&[Permissions::Speak, Permissions::ModerateMembers]);
    assert!(a.union(b).contains(a));
    assert!(a.union(b).contains(b));
    assert_eq!(a.union(a), a);
    assert_eq!(a.intersect(a), a);
    assert_eq!(a.union(b), b.union(a));
    assert_eq!(a.intersect(b), set_of(&[Permissions::Speak]));
}

#[test]
fn render_follows_declaration_order() {
    let set = set_of(&[Permissions::KickMembers, Permissions::CreateInstantInvite]);
    assert_eq!(set.render(), vec!["- Create Invite".to_string(), "- Kick Members".to_string()]);
    let set = set_of(&[Permissions::ModerateMembers, Permissions::AddReactions, Permissions::Stream]);
    assert_eq!(
        set.render(),
        vec![
            "- Add Reactions".to_string(),
            "- Video".to_string(),
            "- Timeout Members".to_string()
        ]
    );
}

#[test]
fn render_of_empty_and_full_sets() {
    assert!(PermissionSet::empty().render().is_empty());
    assert_eq!(to_pretty_string(PermissionSet::empty()), "");
    let all = PermissionSet::all().render();
    assert_eq!(all.len(), 41);
    assert_eq!(all[0], "- Create Invite");
    assert_eq!(all[17], "- Mention @everyone, @here, and All Roles");
    assert_eq!(all[40], "- Timeout Members");
}

#[test]
fn missing_is_exactly_the_unsatisfied_flags() {
    let granted = set_of(&[Permissions::ViewChannel, Permissions::SendMessages]);
    let required = set_of(&[Permissions::SendMessages, Permissions::ManageGuild, Permissions::KickMembers]);
    assert_eq!(
        granted.missing(required),
        set_of(&[Permissions::ManageGuild, Permissions::KickMembers])
    );
    assert!(!granted.contains(required));
    assert!(granted.missing(granted).is_empty());
    assert!(granted.contains(PermissionSet::empty()));
}

#[test]
fn flags_and_masks() {
    assert_eq!(Permissions::CreateInstantInvite.bit(), 1);
    assert_eq!(Permissions::ModerateMembers.bit(), 1 << 40);
    assert_eq!(Permissions::from_index(5), Permissions::ManageGuild);
    assert_eq!(Permissions::ManageGuild.name(), "Manage Server");
    assert_eq!(PermissionSet::all().bits(), ALL_BITS);
    assert_eq!(PermissionSet::empty().bits(), 0);
    assert!(PermissionSet::empty().is_empty());
    assert!(!PermissionSet::all().is_empty());
    assert!(PermissionSet::all().has(Permissions::UseVad));
    assert!(!set_of(&[Permissions::Speak]).has(Permissions::Connect));
}

#[test]
fn from_bits_rejects_unknown_bits() {
    assert_eq!(PermissionSet::from_bits(0b11), Some(set_of(&[Permissions::CreateInstantInvite, Permissions::KickMembers])));
    assert_eq!(PermissionSet::from_bits(ALL_BITS), Some(PermissionSet::all()));
    assert_eq!(PermissionSet::from_bits(1 << 41), None);
}
