use factorio_up::user::{Lookup, User};

fn found(uid: u32, gid: u32) -> Lookup {
    Lookup { status: 0, found: true, uid, gid }
}

#[test]
fn user_holds_its_ids() {
    let user = User::new(1000, 100);
    assert_eq!(user.uid(), 1000);
    assert_eq!(user.gid(), 100);
}

#[test]
fn lookup_gives_an_account_only_on_success() {
    assert_eq!(User::from_lookup(found(845, 845)), Some(User::new(845, 845)));
    assert_eq!(User::from_lookup(Lookup { status: 0, found: false, uid: 1, gid: 2 }), None);
    assert_eq!(User::from_lookup(Lookup { status: 2, found: true, uid: 1, gid: 2 }), None);
    assert_eq!(User::from_lookup(Lookup { status: -1, found: false, uid: 1, gid: 2 }), None);
}

#[test]
fn no_name_means_no_user_and_no_lookup() {
    let mut asked = false;
    let user = User::as_user(None, |_| {
        asked = true;
        found(0, 0)
    });
    assert_eq!(user, None);
    assert!(!asked);
}

#[test]
fn name_is_looked_up() {
    let mut asked = Vec::new();
    let user = User::as_user(Some("factorio".to_string()), |name| {
        asked.push(name);
        found(845, 846)
    });
    assert_eq!(user, Some(User::new(845, 846)));
    assert_eq!(asked, vec!["factorio".to_string()]);
}

#[test]
fn unknown_name_means_no_user() {
    let user = User::as_user(Some("nobody-here".to_string()), |_| Lookup {
        status: 0,
        found: false,
        uid: 0,
        gid: 0,
    });
    assert_eq!(user, None);
}

#[test]
fn name_with_nul_is_not_looked_up() {
    let mut asked = false;
    let user = User::as_user(Some("fac\0torio".to_string()), |_| {
        asked = true;
        found(0, 0)
    });
    assert_eq!(user, None);
    assert!(!asked);
}
