use watch_and_rerun::target::WatchTarget;

#[test]
fn default_watch_dir_is_the_program_directory() {
    let t = WatchTarget::resolve("/work", "./app", None).unwrap();
    assert_eq!(t.binary_path, "/work/./app");
    assert_eq!(t.watch_dir, "/work");
}

#[test]
fn nested_program_is_watched_in_its_directory() {
    let t = WatchTarget::resolve("/home/u", "target/debug/app", None).unwrap();
    assert_eq!(t.binary_path, "/home/u/target/debug/app");
    assert_eq!(t.watch_dir, "/home/u/target/debug");
}

#[test]
fn explicit_watch_dir_is_resolved_against_cwd() {
    let t = WatchTarget::resolve("/work", "bin/app", Some("src")).unwrap();
    assert_eq!(t.binary_path, "/work/bin/app");
    assert_eq!(t.watch_dir, "/work/src");
}

#[test]
fn absolute_paths_are_kept() {
    let t = WatchTarget::resolve("/work", "/opt/app", Some("/data")).unwrap();
    assert_eq!(t.binary_path, "/opt/app");
    assert_eq!(t.watch_dir, "/data");
}

#[test]
fn no_parent_means_no_target() {
    assert!(WatchTarget::resolve("", "", None).is_none());
    assert!(WatchTarget::resolve("", "/", None).is_none());
    let t = WatchTarget::resolve("", "/", Some("/src")).unwrap();
    assert_eq!(t.watch_dir, "/src");
}

#[test]
fn explicit_dir_wins_over_parent() {
    let t = WatchTarget::with_default_dir(
        "/a/b".to_string(),
        Some("/c".to_string()),
        Some("/a".to_string()),
    )
    .unwrap();
    assert_eq!(t.binary_path, "/a/b");
    assert_eq!(t.watch_dir, "/c");
    let t = WatchTarget::with_default_dir("/a/b".to_string(), None, Some("/a".to_string())).unwrap();
    assert_eq!(t.watch_dir, "/a");
    assert!(WatchTarget::with_default_dir("/".to_string(), None, None).is_none());
}
