use rustpbx::version::{
    decimal_string, get_short_version, get_useragent, get_version_info, new_update_notification,
    update_check_query, update_notification_title, BuildInfo, UpdateInfo,
};

fn build(dirty: &str) -> BuildInfo {
    BuildInfo {
        pkg_version: "0.3.0".to_string(),
        build_time: "2025-01-02 03:04:05 UTC".to_string(),
        build_date: "2025-01-02".to_string(),
        git_commit: "abc1234".to_string(),
        git_branch: "main".to_string(),
        git_dirty: dirty.to_string(),
    }
}

#[test]
fn version_strings() {
    assert_eq!(get_short_version(&build("clean")), "0.3.0-abc1234-full");
    assert_eq!(get_short_version(&build("dirty")), "0.3.0-abc1234-dirty-full");
    assert_eq!(get_short_version(&build("unknown")), "0.3.0-abc1234-full");
    assert_eq!(get_useragent(&build("clean")), "rustpbx/0.3.0 (built 2025-01-02)");
    assert_eq!(
        get_version_info(&build("clean")),
        "rustpbx 0.3.0\nBuild Time: 2025-01-02 03:04:05 UTC\nGit Commit: abc1234\nGit Branch: main\nGit Status: clean"
    );
}

#[test]
fn decimal_matches_to_string() {
    for n in [0u64, 7, 10, 99, 100, 12345, u64::MAX] {
        assert_eq!(decimal_string(n), n.to_string());
    }
}

#[test]
fn update_query_parameters() {
    let q = update_check_query(&build("clean"), 3600);
    let expected: Vec<(String, String)> = vec![
        ("version".to_string(), "0.3.0".to_string()),
        ("edition".to_string(), "full".to_string()),
        ("uptime".to_string(), "3600".to_string()),
        ("build_time".to_string(), "2025-01-02 03:04:05 UTC".to_string()),
    ];
    assert_eq!(q, expected);
}

#[test]
fn update_notifications() {
    let info = UpdateInfo {
        has_update: true,
        latest_version: "0.4.0".to_string(),
        release_notes: Some("notes".to_string()),
        download_url: None,
    };
    assert_eq!(
        update_notification_title(&info).as_deref(),
        Some("New version available: 0.4.0")
    );
    let n = new_update_notification(&info, false).unwrap();
    assert_eq!(n.kind, "update");
    assert_eq!(n.title, "New version available: 0.4.0");
    assert_eq!(n.body, "notes");
    assert!(!n.read);
    assert!(new_update_notification(&info, true).is_none());
    let no_notes = UpdateInfo { release_notes: None, ..info.clone() };
    assert_eq!(new_update_notification(&no_notes, false).unwrap().body, "");
    let none = UpdateInfo { has_update: false, ..info };
    assert!(update_notification_title(&none).is_none());
    assert!(new_update_notification(&none, false).is_none());
}
