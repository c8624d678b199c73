use rustpbx::config::ConsoleConfig;
use rustpbx::console::addons::{plan_addon_toggle, same_addon_set, sort_strings, AddonChange, ToggleAddonPayload};
use rustpbx::console::metrics::{
    call_counts, collect_runtime_metrics, collect_sip_metrics, collect_system_metrics,
    get_prometheus_config, CallMetrics,
};
use rustpbx::console::permissions::{
    build_current_user_ctx, has_permission, permission_key, permission_source,
    permissions_from_grants, PermissionSource, UserSummary,
};
use rustpbx::console::{missing_context_entries, normalize_base_path, ConsoleState, ContextValue};
use rustpbx::config::MetricsConfig;

fn strings(v: &[&str]) -> Vec<String> {
    v.iter().map(|s| s.to_string()).collect()
}

fn console_with_base(base: &str) -> ConsoleState {
    let mut config = ConsoleConfig::default();
    config.base_path = base.to_string();
    config.session_secret = "secret".to_string();
    ConsoleState::initialize(config)
}

#[test]
fn base_path_normalization() {
    assert_eq!(normalize_base_path(""), "/console");
    assert_eq!(normalize_base_path("   "), "/console");
    assert_eq!(normalize_base_path("admin"), "/admin");
    assert_eq!(normalize_base_path("/admin///"), "/admin");
    assert_eq!(normalize_base_path(" /a/b/ "), "/a/b");
    assert_eq!(normalize_base_path("/"), "/");
    assert_eq!(normalize_base_path("///"), "/");
    assert_eq!(normalize_base_path("a /"), "/a ");
    let once = normalize_base_path("x//");
    assert_eq!(normalize_base_path(&once), once);
}

#[test]
fn session_key_is_sha256_of_secret() {
    let state = console_with_base("/console");
    assert_eq!(
        state.session_key(),
        &[
            43, 184, 13, 83, 123, 29, 163, 227, 139, 211, 3, 97, 170, 133, 86, 134, 189, 224,
            234, 205, 113, 98, 254, 246, 162, 95, 233, 123, 245, 39, 162, 91
        ][..]
    );
    assert_eq!(state.config().session_secret, "secret");
}

#[test]
fn urls_below_base_path() {
    let state = console_with_base("console/");
    assert_eq!(state.base_path(), "/console");
    assert_eq!(state.url_for(""), "/console/");
    assert_eq!(state.url_for(" / "), "/console/");
    assert_eq!(state.url_for("/login"), "/console/login");
    assert_eq!(state.url_for("users"), "/console/users");
    assert_eq!(state.login_url(None), "/console/login");
    assert_eq!(state.login_url(Some("/x".to_string())), "/console/login?next=/x");
    assert_eq!(state.register_url(Some("a".to_string())), "/console/register?next=a");
    assert_eq!(state.forgot_url(), "/console/forgot");
    assert!(!state.registration_allowed_by_config());
    assert_eq!(state.licenses_redirect(), "/console/addons");

    let root = console_with_base("/");
    assert_eq!(root.url_for("/login"), "/login");
    assert_eq!(root.url_for("login"), "/login");
    assert_eq!(root.url_for(""), "//");
}

#[test]
fn context_defaults_fill_only_missing_keys() {
    let state = console_with_base("/console");
    let defaults = state.context_defaults("zh", "0.3.0", true, false);
    assert_eq!(defaults[0].0, "base_path");
    assert!(matches!(&defaults[0].1, ContextValue::Text(t) if t == "/console"));
    assert!(defaults.iter().all(|(k, _)| k != "addon_sidebar_items"));
    let login = defaults.iter().find(|(k, _)| k == "login_url").unwrap();
    assert!(matches!(&login.1, ContextValue::Text(t) if t == "/console/login"));
    let demo = defaults.iter().find(|(k, _)| k == "demo_mode").unwrap();
    assert!(matches!(demo.1, ContextValue::Flag(true)));
    assert_eq!(defaults.last().unwrap().0, "available_locales");
    assert_eq!(defaults.len(), 21);

    let with_app = state.context_defaults("en", "0.3.0", false, true);
    assert_eq!(with_app[1].0, "addon_sidebar_items");
    assert_eq!(with_app.len(), 22);

    let existing = strings(&["page_title", "base_path"]);
    let missing = missing_context_entries(&existing, &defaults);
    assert_eq!(missing.len(), 19);
    assert!(missing.iter().all(|(k, _)| k != "page_title" && k != "base_path"));
}

#[test]
fn sorting_and_same_sets() {
    let sorted = sort_strings(strings(&["b", "a", "ab", "B", "a"]));
    assert_eq!(sorted, strings(&["B", "a", "a", "ab", "b"]));
    assert!(same_addon_set(&strings(&["x", "y"]), &strings(&["y", "x"])));
    assert!(!same_addon_set(&strings(&["x", "x"]), &strings(&["x", "y"])));
    assert!(!same_addon_set(&strings(&["x"]), &strings(&["x", "y"])));
    assert!(same_addon_set(&vec![], &vec![]));
    let a = strings(&["q", "p", "q"]);
    let b = strings(&["q", "q", "p"]);
    assert_eq!(same_addon_set(&a, &b), same_addon_set(&b, &a));
    assert!(same_addon_set(&a, &a));
    let once = sort_strings(strings(&["zeta", "Alpha", "beta", "alpha"]));
    assert_eq!(sort_strings(once.clone()), once);
    assert_eq!(sort_strings(strings(&["é", "z", "a"])), strings(&["a", "z", "é"]));
}

#[test]
fn toggling_addons() {
    let all = strings(&["voicemail", "queue", "ivr"]);
    match plan_addon_toggle(&None, &all, "queue", true) {
        AddonChange::AlreadyEnabled => {}
        other => panic!("unexpected {:?}", other),
    }
    match plan_addon_toggle(&Some(strings(&["voicemail", "ivr"])), &all, "queue", true) {
        AddonChange::ClearList => {}
        other => panic!("unexpected {:?}", other),
    }
    match plan_addon_toggle(&Some(strings(&["voicemail"])), &all, "queue", true) {
        AddonChange::SetList(v) => assert_eq!(v, strings(&["queue", "voicemail"])),
        other => panic!("unexpected {:?}", other),
    }
    match plan_addon_toggle(&None, &all, "queue", false) {
        AddonChange::SetList(v) => assert_eq!(v, strings(&["ivr", "voicemail"])),
        other => panic!("unexpected {:?}", other),
    }
    match plan_addon_toggle(&Some(strings(&["queue", "ivr", "queue"])), &all, "queue", false) {
        AddonChange::SetList(v) => assert_eq!(v, strings(&["ivr"])),
        other => panic!("unexpected {:?}", other),
    }
    let payload = ToggleAddonPayload::new("ivr".to_string(), true);
    assert_eq!(payload.id(), "ivr");
    assert!(payload.enabled());
    match payload.plan(&Some(strings(&["queue"])), &all) {
        AddonChange::SetList(v) => assert_eq!(v, strings(&["ivr", "queue"])),
        other => panic!("unexpected {:?}", other),
    }
}

#[test]
fn permission_checks() {
    assert_eq!(permission_key("extensions", "read"), "extensions:read");
    let perms = strings(&["extensions:read", "cdr:read"]);
    assert!(has_permission(true, &vec![], "extensions", "delete"));
    assert!(has_permission(true, &vec![], "ami", "access"));
    assert!(!has_permission(false, &vec![], "extensions", "read"));
    assert!(has_permission(false, &perms, "extensions", "read"));
    assert!(has_permission(false, &perms, "cdr", "read"));
    assert!(!has_permission(false, &perms, "extensions", "write"));
    assert!(matches!(permission_source(true, None), PermissionSource::Wildcard));
    assert!(matches!(permission_source(false, Some(299)), PermissionSource::Cache));
    assert!(matches!(permission_source(false, Some(300)), PermissionSource::Database));
    assert!(matches!(permission_source(false, None), PermissionSource::Database));
}

#[test]
fn permissions_from_role_grants() {
    let grants = vec![
        ("extensions".to_string(), "read".to_string()),
        ("cdr".to_string(), "read".to_string()),
        ("extensions".to_string(), "read".to_string()),
    ];
    let perms = permissions_from_grants(&grants);
    assert_eq!(perms, strings(&["extensions:read", "cdr:read"]));
    assert!(permissions_from_grants(&vec![]).is_empty());
}

#[test]
fn current_user_context() {
    let user = UserSummary {
        id: 1,
        username: "user1".to_string(),
        email: "user1@test.com".to_string(),
        is_superuser: true,
        is_staff: false,
        is_active: true,
    };
    let ctx = build_current_user_ctx(&user, &vec![]);
    assert_eq!(ctx.id, 1);
    assert!(ctx.is_superuser && ctx.can_manage_users && ctx.can_write_system);
    assert_eq!(ctx.permissions, strings(&["*"]));

    let viewer = UserSummary { is_superuser: false, id: 200, ..user };
    let ctx = build_current_user_ctx(&viewer, &strings(&["system:write"]));
    assert!(!ctx.can_manage_users);
    assert!(ctx.can_write_system);
    assert_eq!(ctx.permissions, strings(&["system:write"]));
}

#[test]
fn dashboard_metrics() {
    let p = get_prometheus_config(None);
    assert!(!p.enabled && !p.auth_required);
    assert_eq!(p.path, "/metrics");
    let p = get_prometheus_config(Some(&None));
    assert!(p.enabled && !p.auth_required);
    let cfg = MetricsConfig {
        enabled: false,
        path: "/m".to_string(),
        token: Some("t".to_string()),
        healthz_path: "/h".to_string(),
    };
    let p = get_prometheus_config(Some(&Some(cfg)));
    assert!(!p.enabled && p.auth_required);
    assert_eq!(p.path, "/m");

    let sys = collect_system_metrics(None, "0.3.0-abc-full");
    assert_eq!(sys.uptime_seconds, 0);
    assert_eq!(sys.edition, "full");
    let sip = collect_sip_metrics(Some(7));
    assert_eq!(sip.dialogs_active, 7);
    assert_eq!(collect_sip_metrics(None).dialogs_active, 0);
    assert_eq!(call_counts(Some((3, Some(10)))), (3, 10));
    assert_eq!(call_counts(Some((3, None))), (3, 0));
    assert_eq!(call_counts(None), (0, 0));
    assert_eq!(call_counts(Some((1usize << 32 | 5, None))), (5, 0));
    let m = collect_runtime_metrics(sys, sip, CallMetrics::default(), "now".to_string());
    assert_eq!(m.collected_at, "now");
    assert_eq!(m.media.webrtc_connections, 0);
    assert_eq!(m.sip.dialogs_active, 7);
}

#[test]
fn initialize_builds_locale_config() {
    let state = console_with_base("/admin");
    let locales = state.locale_config();
    assert_eq!(locales.default, "en");
    assert_eq!(locales.available.len(), 2);
    assert_eq!(locales.available[0].code, "en");
    assert_eq!(locales.available[0].name, "English");
    assert_eq!(locales.available[1].code, "zh");
    assert_eq!(locales.available[1].native_name, "中文");
}
