use factorio_up::args::Args;
use factorio_up::user::User;

#[test]
fn args_hand_back_what_they_were_given() {
    let args = Args::new(
        true,
        "server-default.zip".to_string(),
        "map-gen-settings.json".to_string(),
        "map-settings.json".to_string(),
        Some("/usr/local/bin/factorio".to_string()),
        None,
        Some(User::new(845, 846)),
        vec!["factorio".to_string(), "--start-server".to_string(), "save.zip".to_string()],
    );
    assert!(args.init_map());
    assert_eq!(args.save_file(), "server-default.zip");
    assert_eq!(args.map_gen_settings(), "map-gen-settings.json");
    assert_eq!(args.map_settings(), "map-settings.json");
    assert_eq!(args.exe_path(), Some("/usr/local/bin/factorio"));
    assert_eq!(args.data_dir(), None);
    assert_eq!(args.user(), Some(User::new(845, 846)));
    assert_eq!(args.exec(), vec!["factorio", "--start-server", "save.zip"]);
}

#[test]
fn args_may_leave_everything_out() {
    let args = Args::new(
        false,
        String::new(),
        String::new(),
        String::new(),
        None,
        Some("/data".to_string()),
        None,
        Vec::new(),
    );
    assert!(!args.init_map());
    assert_eq!(args.save_file(), "");
    assert_eq!(args.exe_path(), None);
    assert_eq!(args.data_dir(), Some("/data"));
    assert_eq!(args.user(), None);
    assert!(args.exec().is_empty());
}
