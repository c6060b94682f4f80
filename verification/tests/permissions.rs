use keter_rest::model::auth::PermissionType;
use keter_rest::model::permission_set::PermissionSet;

#[test]
fn permission_names_are_stable() {
    assert_eq!(PermissionType::CreateUser.as_str(), "user.create");
    assert_eq!(PermissionType::ReadUser.as_str(), "user.read");
    assert_eq!(PermissionType::UpdateUser.as_str(), "user.update");
    assert_eq!(PermissionType::DeleteUser.as_str(), "user.delete");
    assert_eq!(PermissionType::Unknown.as_str(), "unknown");
}

#[test]
fn names_read_back_as_their_kinds() {
    for kind in PermissionType::variants() {
        assert_eq!(PermissionType::from(kind.as_str().to_owned()), kind);
        assert!(kind.is_assignable());
    }
    assert!(!PermissionType::Unknown.is_assignable());
}

#[test]
fn any_other_name_reads_as_unknown() {
    for name in ["", "unknown", "user.purge", "User.Read", "user.read ", " user.read", "user.reads", "user"] {
        assert_eq!(PermissionType::from(name.to_owned()), PermissionType::Unknown, "{:?}", name);
    }
}

#[test]
fn catalog_lists_the_four_assignable_kinds_in_order() {
    assert_eq!(
        PermissionType::variants(),
        vec![
            PermissionType::CreateUser,
            PermissionType::ReadUser,
            PermissionType::UpdateUser,
            PermissionType::DeleteUser
        ]
    );
}

#[test]
fn set_holds_each_kind_once() {
    let mut set = PermissionSet::new();
    assert_eq!(set.len(), 0);
    assert!(!set.contains(PermissionType::ReadUser));
    assert!(set.insert(PermissionType::ReadUser));
    assert!(!set.insert(PermissionType::ReadUser));
    assert!(set.insert(PermissionType::Unknown));
    assert_eq!(set.len(), 2);
    assert!(set.contains(PermissionType::ReadUser));
    assert!(set.contains(PermissionType::Unknown));
    assert!(!set.contains(PermissionType::CreateUser));
    assert!(set.grants(PermissionType::ReadUser));
    assert!(!set.grants(PermissionType::Unknown));
    assert!(!set.grants(PermissionType::CreateUser));

    let copy = set.clone();
    assert_eq!(copy.len(), 2);
    assert!(copy.contains(PermissionType::ReadUser));
}

#[test]
fn full_set_is_the_catalog() {
    let full = PermissionSet::full();
    assert_eq!(full.len(), 4);
    for kind in PermissionType::variants() {
        assert!(full.grants(kind));
    }
    assert!(!full.contains(PermissionType::Unknown));
}

#[test]
fn set_of_names_collapses_repeats() {
    let names = vec![
        "user.delete".to_owned(),
        "user.read".to_owned(),
        "user.delete".to_owned(),
        "nonsense".to_owned(),
        "more nonsense".to_owned(),
    ];
    let set = PermissionSet::from_names(&names);
    assert_eq!(set.len(), 3);
    assert!(set.contains(PermissionType::DeleteUser));
    assert!(set.contains(PermissionType::ReadUser));
    assert!(set.contains(PermissionType::Unknown));
    assert_eq!(PermissionSet::from_names(&Vec::new()).len(), 0);
}
