use rustpbx::config::{
    default_config_recorder_path, AmiConfig, ArchiveConfig, Config, ConsoleConfig, DialDirection,
    MetricsConfig, ProxyConfig, RecordingDirection, RecordingPolicy, TransferConfig, TrunkConfig,
};
use rustpbx::version::BuildInfo;

fn build() -> BuildInfo {
    BuildInfo {
        pkg_version: "0.3.0".to_string(),
        build_time: "2025-01-02 03:04:05 UTC".to_string(),
        build_date: "2025-01-02".to_string(),
        git_commit: "abc1234".to_string(),
        git_branch: "main".to_string(),
        git_dirty: "clean".to_string(),
    }
}

#[test]
fn test_normalize_realm() {
    assert_eq!(ProxyConfig::normalize_realm("localhost"), "localhost");
    assert_eq!(ProxyConfig::normalize_realm("127.0.0.1"), "localhost");
    assert_eq!(ProxyConfig::normalize_realm("::1"), "localhost");
    assert_eq!(ProxyConfig::normalize_realm(""), "localhost");
    assert_eq!(ProxyConfig::normalize_realm("*"), "localhost");
    assert_eq!(ProxyConfig::normalize_realm("example.com"), "example.com");
    assert_eq!(
        ProxyConfig::normalize_realm("example.com:5060"),
        "example.com"
    );
    assert_eq!(ProxyConfig::normalize_realm("127.0.0.1:5060"), "localhost");
}

#[test]
fn test_select_realm() {
    let mut config = ProxyConfig::default_for(&build());
    config.realms = Some(vec!["example.com".to_string(), "test.com".to_string()]);

    // Exact match
    assert_eq!(config.select_realm("example.com"), "example.com");
    // Match with port (should return normalized/existing realm)
    assert_eq!(config.select_realm("example.com:5060"), "example.com");
    // Match with different port
    assert_eq!(config.select_realm("test.com:8888"), "test.com");
    // No match, return first realm if configured
    assert_eq!(config.select_realm("other.com"), "example.com");
    // No match with port, return first realm if configured
    assert_eq!(config.select_realm("other.com:5060"), "example.com");
}

#[test]
fn normalize_realm_is_idempotent_on_samples() {
    for s in ["", "*", "a.b:1", "::1", "host", "127.0.0.1:9", "x:y:z"] {
        let once = ProxyConfig::normalize_realm(s);
        assert_eq!(ProxyConfig::normalize_realm(once), once);
    }
    assert_eq!(ProxyConfig::normalize_realm("x:y:z"), "x");
    assert_eq!(ProxyConfig::normalize_realm(":5060"), "localhost");
}

#[test]
fn select_realm_without_realms_uses_host() {
    let mut config = ProxyConfig::default_for(&build());
    assert_eq!(config.select_realm("  sip.example.org:5060 "), "sip.example.org:5060");
    assert_eq!(config.select_realm("   "), "localhost");
    config.realms = None;
    assert_eq!(config.select_realm("host"), "host");
    config.realms = Some(vec!["".to_string(), "b.com".to_string()]);
    assert_eq!(config.select_realm("b.com:1"), "b.com");
    assert_eq!(config.select_realm("c.com"), "c.com");
    config.realms = Some(vec!["localhost".to_string()]);
    assert_eq!(config.select_realm("127.0.0.1"), "localhost");
}

#[test]
fn generated_dirs_follow_root() {
    let mut config = ProxyConfig::default_for(&build());
    assert_eq!(config.generated_root_dir(), "./config");
    assert_eq!(config.generated_trunks_dir(), "./config/trunks");
    assert_eq!(config.generated_routes_dir(), "./config/routes");
    assert_eq!(config.generated_queue_dir(), "./config/queue");
    assert_eq!(config.generated_acl_dir(), "./config/acl");
    config.generated_dir = "  /var/lib/pbx/ ".to_string();
    assert_eq!(config.generated_root_dir(), "/var/lib/pbx/");
    assert_eq!(config.generated_trunks_dir(), "/var/lib/pbx/trunks");
    config.generated_dir = "   ".to_string();
    assert_eq!(config.generated_root_dir(), "./config");
    config.queue_dir = Some("  /data/queues ".to_string());
    assert_eq!(config.generated_queue_dir(), "/data/queues");
    config.queue_dir = Some("  ".to_string());
    assert_eq!(config.generated_queue_dir(), "./config/queue");
}

#[test]
fn proxy_defaults() {
    let config = ProxyConfig::default_for(&build());
    assert_eq!(config.useragent.as_deref(), Some("rustpbx/0.3.0 (built 2025-01-02)"));
    assert_eq!(config.callid_suffix.as_deref(), Some("miuda.ai"));
    assert_eq!(config.udp_port, Some(5060));
    assert_eq!(config.registrar_expires, Some(60));
    assert_eq!(config.addr, "0.0.0.0");
    assert_eq!(
        config.acl_rules,
        Some(vec!["allow all".to_string(), "deny all".to_string()])
    );
    assert_eq!(config.modules.as_ref().map(|m| m.len()), Some(4));
    assert!(config.nat_fix);
    assert!(config.passthrough_failure);
    assert_eq!(config.generated_dir, "./config");
}

#[test]
fn recording_policy_paths() {
    let mut policy = RecordingPolicy::default();
    assert_eq!(policy.recorder_path(), "./config/recorders");
    assert!(policy.ensure_defaults());
    assert_eq!(policy.path.as_deref(), Some("./config/recorders"));
    assert!(!policy.ensure_defaults());

    let mut policy = RecordingPolicy::default();
    policy.path = Some("  /rec  ".to_string());
    assert_eq!(policy.recorder_path(), "/rec");
    assert!(!policy.ensure_defaults());
    assert_eq!(policy.path.as_deref(), Some("  /rec  "));

    policy.path = Some(" \t".to_string());
    assert_eq!(policy.recorder_path(), "./config/recorders");
    assert!(policy.ensure_defaults());
    assert_eq!(policy.recorder_path(), default_config_recorder_path());
}

#[test]
fn recording_config_auto_start() {
    let mut policy = RecordingPolicy::default();
    policy.enabled = true;
    let c = policy.new_recording_config();
    assert!(c.enabled && c.auto_start);
    policy.auto_start = Some(false);
    assert!(!policy.new_recording_config().auto_start);
}

#[test]
fn recording_direction_matches() {
    assert!(RecordingDirection::Inbound.matches(&DialDirection::Inbound));
    assert!(RecordingDirection::Outbound.matches(&DialDirection::Outbound));
    assert!(RecordingDirection::Internal.matches(&DialDirection::Internal));
    assert!(!RecordingDirection::Inbound.matches(&DialDirection::Outbound));
    assert!(!RecordingDirection::Internal.matches(&DialDirection::Inbound));
}

#[test]
fn ensure_recording_defaults_covers_trunks() {
    let mut config = Config::default_for(&build());
    assert!(!config.ensure_recording_defaults());
    let mut blank = RecordingPolicy::default();
    blank.path = Some("".to_string());
    let mut set = RecordingPolicy::default();
    set.path = Some("/x".to_string());
    config.proxy.trunks = vec![
        ("a".to_string(), TrunkConfig { dest: "sip:a".to_string(), recording: Some(set) }),
        ("b".to_string(), TrunkConfig { dest: "sip:b".to_string(), recording: Some(blank) }),
        ("c".to_string(), TrunkConfig { dest: "sip:c".to_string(), recording: None }),
    ];
    assert!(config.ensure_recording_defaults());
    assert_eq!(config.proxy.trunks[0].1.recording.as_ref().unwrap().path.as_deref(), Some("/x"));
    assert_eq!(
        config.proxy.trunks[1].1.recording.as_ref().unwrap().path.as_deref(),
        Some("./config/recorders")
    );
    assert!(config.proxy.trunks[2].1.recording.is_none());
    assert_eq!(config.proxy.trunks[1].0, "b");
    assert!(!config.ensure_recording_defaults());

    config.recording = Some(RecordingPolicy::default());
    assert!(config.ensure_recording_defaults());
    assert_eq!(config.recorder_path(), "./config/recorders");
}

#[test]
fn archive_and_bills_dirs() {
    let mut config = Config::default_for(&build());
    assert_eq!(config.archive_dir(), "./config/recorders/archive");
    assert_eq!(config.wholesale_bills_dir(), "./config/recorders/wholesale_bills");
    let mut policy = RecordingPolicy::default();
    policy.path = Some("/rec///".to_string());
    config.recording = Some(policy);
    assert_eq!(config.archive_dir(), "/rec/archive");
    assert_eq!(config.wholesale_bills_dir(), "/rec/wholesale_bills");
    let archive = ArchiveConfig {
        enabled: true,
        archive_time: "03:00".to_string(),
        timezone: None,
        retention_days: 30,
        archive_after_days: 0,
        archive_dir: Some(" ".to_string()),
    };
    assert_eq!(archive.effective_archive_dir("/a/"), "/a/archive");
    config.archive = Some(archive.clone());
    assert_eq!(config.archive_dir(), "/rec/archive");
    let mut no_dir = archive.clone();
    no_dir.archive_dir = None;
    config.archive = Some(no_dir);
    let with_section = config.archive_dir();
    config.archive = None;
    assert_eq!(with_section, config.archive_dir());
    let mut with_dir = archive;
    with_dir.archive_dir = Some(" /arch ".to_string());
    assert_eq!(with_dir.effective_archive_dir("/a"), " /arch ");
}

#[test]
fn config_defaults_and_load_completion() {
    let mut config = Config::default_for(&build());
    assert_eq!(config.http_addr, "0.0.0.0:8080");
    assert_eq!(config.database_url, "sqlite://rustpbx.sqlite3");
    assert_eq!(config.rtp_start_port, Some(12000));
    assert_eq!(config.webrtc_port_end, Some(40000));
    assert_eq!(config.config_dir(), "./config");
    let rtp = config.rtp_config();
    assert_eq!(rtp.start_port, Some(12000));
    assert_eq!(rtp.end_port, Some(42000));
    assert_eq!(rtp.webrtc_start_port, Some(30000));
    assert!(rtp.external_ip.is_none());
    assert!(rtp.ice_servers.is_none());
    let stun = rustrtc::IceServer::new(vec!["stun:stun.l.google.com:19302".to_string()])
        .with_credential("user", "pass");
    config.ice_servers = Some(vec![stun]);
    config.external_ip = Some("1.2.3.4".to_string());
    let rtp = config.rtp_config();
    assert_eq!(rtp.ice_servers, config.ice_servers);
    assert_eq!(rtp.external_ip.as_deref(), Some("1.2.3.4"));

    config.recording = Some(RecordingPolicy::default());
    config.finish_load(Some("yes"));
    assert!(!config.demo_mode);
    assert_eq!(
        config.recording.as_ref().unwrap().path.as_deref(),
        Some("./config/recorders")
    );
    config.finish_load(Some("1"));
    assert!(config.demo_mode);
    let mut other = Config::default_for(&build());
    other.finish_load(Some("true"));
    assert!(other.demo_mode);
    other.finish_load(None);
    assert!(other.demo_mode);
}

#[test]
fn ami_allow_list() {
    let ami = AmiConfig::default();
    assert!(ami.is_allowed("127.0.0.1"));
    assert!(ami.is_allowed("::1"));
    assert!(ami.is_allowed("localhost"));
    assert!(!ami.is_allowed("10.0.0.1"));
    let ami = AmiConfig { allows: Some(vec!["10.0.0.1".to_string()]) };
    assert!(ami.is_allowed("10.0.0.1"));
    assert!(!ami.is_allowed("127.0.0.1"));
    let ami = AmiConfig { allows: Some(vec!["*".to_string()]) };
    assert!(ami.is_allowed("1.2.3.4"));
    let ami = AmiConfig { allows: Some(vec![]) };
    assert!(!ami.is_allowed("127.0.0.1"));
}

#[test]
fn section_defaults() {
    let t = TransferConfig::default();
    assert!(t.refer_enabled && t.attended_enabled && t.three_pcc_fallback_enabled);
    assert_eq!((t.refer_timeout_secs, t.three_pcc_timeout_secs, t.max_concurrent), (30, 60, 1000));
    let m = MetricsConfig::default();
    assert!(m.enabled);
    assert_eq!(m.path, "/metrics");
    assert_eq!(m.healthz_path, "/healthz");
    let c = ConsoleConfig::default();
    assert_eq!(c.session_secret.chars().count(), 32);
    assert!(c.session_secret.chars().all(|ch| ch.is_ascii_alphanumeric()));
    assert_eq!(c.base_path, "/console");
    assert_eq!(c.locale_default, "en");
    assert_eq!(c.locales.len(), 2);
    assert_eq!(c.locales[1].0, "zh");
    assert_eq!(c.locales[1].1.native_name, "中文");
    let c2 = ConsoleConfig::default();
    assert_ne!(c.session_secret, c2.session_secret);
}
