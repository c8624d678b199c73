use rustpbx::console::addons::{
    addon_enabled, addon_read_gate, addon_status, find_addon, toggle_addon_document,
    toggle_addon_gate, ToggleAddonPayload, ToggleReply,
};

fn strings(v: &[&str]) -> Vec<String> {
    v.iter().map(|s| s.to_string()).collect()
}

fn proxy_addons(text: &str) -> Option<Vec<String>> {
    let doc = text.parse::<toml_edit::DocumentMut>().expect("edited text is TOML");
    let proxy = doc.get("proxy").expect("proxy entry");
    assert!(proxy.is_table());
    proxy.get("addons").map(|item| {
        item.as_array()
            .expect("addons is an array")
            .iter()
            .map(|v| v.as_str().expect("string id").to_string())
            .collect()
    })
}

fn toggle(text: &str, parsed: Result<Option<Vec<String>>, String>, all: &[&str], id: &str, enabled: bool) -> ToggleReply {
    let payload = ToggleAddonPayload::new(id.to_string(), enabled);
    toggle_addon_document(text, &parsed, &strings(all), &payload)
}

#[test]
fn toggle_gate_denies_without_system_write() {
    let r = toggle_addon_gate(false, &strings(&["system:read"]), true, true).expect("denied");
    assert_eq!(r.status, 403);
    assert!(!r.json);
    assert!(!r.success);
    assert_eq!(r.message, "Permission denied");
    assert!(r.write.is_none());
    // The permission check comes before the other checks.
    let r = toggle_addon_gate(false, &vec![], false, false).expect("denied");
    assert_eq!(r.status, 403);
}

#[test]
fn toggle_gate_later_checks() {
    let perms = strings(&["system:write"]);
    let r = toggle_addon_gate(false, &perms, false, true).expect("no state");
    assert_eq!(r.status, 503);
    assert!(r.json);
    assert_eq!(r.message, "Application state is unavailable.");
    let r = toggle_addon_gate(false, &perms, true, false).expect("no path");
    assert_eq!(r.status, 400);
    assert_eq!(
        r.message,
        "Configuration file path is unknown. Start the service with --conf to enable editing."
    );
    assert!(toggle_addon_gate(false, &perms, true, true).is_none());
    assert!(toggle_addon_gate(true, &vec![], true, true).is_none());
}

#[test]
fn read_gate_needs_system_read() {
    let r = addon_read_gate(false, &strings(&["system:write"])).expect("denied");
    assert_eq!(r.status, 403);
    assert_eq!(r.message, "Permission denied");
    assert!(addon_read_gate(false, &strings(&["system:read"])).is_none());
    assert!(addon_read_gate(true, &vec![]).is_none());
}

#[test]
fn toggle_rejects_text_that_is_not_toml() {
    let r = toggle("[proxy\naddons = ", Ok(None), &["a"], "a", false);
    assert_eq!(r.status, 422);
    assert!(r.json && !r.success && r.write.is_none());
    assert!(r.message.starts_with("Configuration file is not valid TOML: "));
}

#[test]
fn toggle_rejects_invalid_configuration() {
    let r = toggle("[proxy]\n", Err("missing field".to_string()), &["a"], "a", false);
    assert_eq!(r.status, 422);
    assert_eq!(r.message, "Configuration validation failed: missing field");
    assert!(r.write.is_none());
}

#[test]
fn toggle_enable_without_list_is_already_enabled() {
    let r = toggle("[proxy]\n", Ok(None), &["a", "b"], "a", true);
    assert_eq!(r.status, 200);
    assert!(r.success && !r.requires_restart);
    assert_eq!(r.message, "Addon is already enabled.");
    assert!(r.write.is_none());
}

#[test]
fn toggle_disable_writes_remaining_list() {
    let text = "# head\n[proxy]\naddons = [\"a\", \"b\"]\nport = 5060\n";
    let r = toggle(text, Ok(Some(strings(&["a", "b"]))), &["a", "b"], "b", false);
    assert_eq!(r.status, 200);
    assert!(r.success && r.requires_restart);
    assert_eq!(r.message, "Addon state updated. Restart RustPBX to apply changes.");
    let written = r.write.expect("text to write");
    assert_eq!(proxy_addons(&written), Some(strings(&["a"])));
    assert!(written.starts_with("# head\n"));
    assert!(written.contains("port = 5060"));
    assert_ne!(written, text);
}

#[test]
fn toggle_disable_without_list_lists_the_others_in_order() {
    let r = toggle("[proxy]\n", Ok(None), &["c", "a", "b"], "b", false);
    let written = r.write.expect("text to write");
    assert_eq!(proxy_addons(&written), Some(strings(&["a", "c"])));
}

#[test]
fn toggle_enable_completing_the_set_removes_list() {
    let text = "[proxy]\naddons = [\"a\"]\n";
    let r = toggle(text, Ok(Some(strings(&["a"]))), &["b", "a"], "b", true);
    assert_eq!(r.status, 200);
    assert!(r.requires_restart);
    let written = r.write.expect("text to write");
    assert_eq!(proxy_addons(&written), None);
}

#[test]
fn toggle_enable_sorts_list_and_creates_proxy_table() {
    let text = "name = \"pbx\"\n";
    let r = toggle(text, Ok(Some(strings(&["c"]))), &["a", "b", "c"], "a", true);
    let written = r.write.expect("text to write");
    assert_eq!(proxy_addons(&written), Some(strings(&["a", "c"])));
    assert!(written.contains("name = \"pbx\""));
}

#[test]
fn addon_status_follows_disk() {
    assert_eq!(addon_status(true, true), (true, false));
    assert_eq!(addon_status(true, false), (true, true));
    assert_eq!(addon_status(false, true), (false, true));
    assert_eq!(addon_status(false, false), (false, false));
}

#[test]
fn find_addon_first_match() {
    let ids = strings(&["a", "b", "b"]);
    assert_eq!(find_addon(&ids, "b"), Some(1));
    assert_eq!(find_addon(&ids, "a"), Some(0));
    assert_eq!(find_addon(&ids, "z"), None);
}

#[test]
fn addon_enabled_by_list() {
    assert!(addon_enabled(&None, "x"));
    assert!(addon_enabled(&Some(strings(&["x", "y"])), "y"));
    assert!(!addon_enabled(&Some(strings(&["x"])), "y"));
    assert!(!addon_enabled(&Some(vec![]), "x"));
}

#[test]
fn toggle_replaces_inline_proxy_with_table() {
    let text = "proxy = { addons = [\"a\", \"b\"] }\n";
    let r = toggle(text, Ok(Some(strings(&["a", "b"]))), &["a", "b"], "a", false);
    assert_eq!(r.status, 200);
    let written = r.write.expect("text to write");
    assert_eq!(proxy_addons(&written), Some(strings(&["b"])));
    assert!(written.starts_with("[proxy"));
    assert!(!written.contains("{"));
}
