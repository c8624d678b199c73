//! SIP proxy settings: realms, generated directories and recording defaults.

use super::recording::{default_recorder_dir, path_is_set, RecordingPolicy};
use super::sections::{
    keys_distinct, HttpRouterConfig, LocatorConfig, LocatorWebhookConfig, MediaProxyMode, UserBackendConfig,
};
use crate::text::{concat, ends_with_char, find_char, find_spec, str_eq, trim, trim_spec};
use crate::version::{get_useragent, useragent_spec, BuildInfo};
use vstd::prelude::*;

verus! {

/// A SIP trunk, as far as the proxy configuration reads it.
#[derive(Clone, Debug)]
pub struct TrunkConfig {
    pub dest: String,
    pub recording: Option<RecordingPolicy>,
}

/// SIP proxy settings.
#[derive(Clone, Debug)]
pub struct ProxyConfig {
    pub modules: Option<Vec<String>>,
    pub addr: String,
    pub useragent: Option<String>,
    pub callid_suffix: Option<String>,
    pub t1_timer: Option<u64>,
    pub t1x64_timer: Option<u64>,
    pub ssl_private_key: Option<String>,
    pub ssl_certificate: Option<String>,
    pub udp_port: Option<u16>,
    pub tcp_port: Option<u16>,
    pub tls_port: Option<u16>,
    pub ws_port: Option<u16>,
    pub acl_rules: Option<Vec<String>>,
    pub acl_files: Vec<String>,
    pub ua_white_list: Option<Vec<String>>,
    pub ua_black_list: Option<Vec<String>>,
    pub max_concurrency: Option<usize>,
    pub registrar_expires: Option<u32>,
    pub ensure_user: Option<bool>,
    pub user_backends: Vec<UserBackendConfig>,
    pub locator: LocatorConfig,
    pub locator_webhook: Option<LocatorWebhookConfig>,
    pub media_proxy: MediaProxyMode,
    pub codecs: Option<Vec<String>>,
    pub frequency_limiter: Option<String>,
    pub realms: Option<Vec<String>>,
    pub ws_handler: Option<String>,
    pub http_router: Option<HttpRouterConfig>,
    pub routes_files: Vec<String>,
    pub session_timer: bool,
    pub session_expires: Option<u64>,
    pub enable_latching: bool,
    /// Trunks by name
    pub trunks: Vec<(String, TrunkConfig)>,
    pub trunks_files: Vec<String>,
    pub queue_dir: Option<String>,
    pub recording: Option<RecordingPolicy>,
    pub generated_dir: String,
    pub nat_fix: bool,
    pub sip_flow_max_items: Option<usize>,
    pub addons: Option<Vec<String>>,
    /// Whether to passthrough callee's failure status code to caller.
    /// When true, the caller receives the same SIP error code (e.g., 486, 603) that the callee returned.
    /// When false, a generic error code is sent instead.
    pub passthrough_failure: bool,
}

// ---------------------------------------------------------------------------
// Realms
// ---------------------------------------------------------------------------

/// The host part of `s`: what precedes its first `:`.
pub open spec fn host_part(s: Seq<char>) -> Seq<char> {
    match find_spec(s, ':') {
        Some(k) => s.take(k),
        None => s,
    }
}

/// Whether a host names the local machine or any host.
pub open spec fn is_local_realm(h: Seq<char>) -> bool {
    h.len() == 0 || h == "*"@ || h == "127.0.0.1"@ || h == "::1"@
}

/// A realm without its port; the local and wildcard names become `localhost`.
pub open spec fn normalize_realm_spec(s: Seq<char>) -> Seq<char> {
    let h = host_part(s);
    if is_local_realm(h) {
        "localhost"@
    } else {
        h
    }
}

/// Index of the first realm at or after `i` equal to `a` or to `b`.
pub open spec fn realm_match_from(realms: Seq<String>, a: Seq<char>, b: Seq<char>, i: int) -> Option<
    int,
>
    decreases realms.len() - i,
{
    if i < 0 || i >= realms.len() {
        None
    } else if realms[i]@ == a || realms[i]@ == b {
        Some(i)
    } else {
        realm_match_from(realms, a, b, i + 1)
    }
}

/// The realm served for a request host: the first configured realm equal to the
/// host (trimmed) or to its normalized form; else the first configured realm when
/// it is not empty; else the trimmed host, or `localhost` when that is empty.
pub open spec fn select_realm_spec(realms: Option<Vec<String>>, host: Seq<char>) -> Seq<char> {
    let requested = trim_spec(host);
    let normalized = normalize_realm_spec(requested);
    let fallback = if requested.len() == 0 {
        normalized
    } else {
        requested
    };
    match realms {
        Some(rs) => match realm_match_from(rs@, requested, normalized, 0) {
            Some(k) => rs@[k]@,
            None => if rs@.len() > 0 && rs@[0]@.len() > 0 {
                rs@[0]@
            } else {
                fallback
            },
        },
        None => fallback,
    }
}

pub proof fn lemma_realm_match_from(realms: Seq<String>, a: Seq<char>, b: Seq<char>, i: int)
    requires
        0 <= i <= realms.len(),
    ensures
        realm_match_from(realms, a, b, i) matches Some(k) ==> i <= k < realms.len() && (
        realms[k]@ == a || realms[k]@ == b),
    decreases realms.len() - i,
{
    if i < realms.len() && !(realms[i]@ == a || realms[i]@ == b) {
        lemma_realm_match_from(realms, a, b, i + 1);
    }
}

// ---------------------------------------------------------------------------
// Paths
// ---------------------------------------------------------------------------

/// `base` joined with the relative path `comp`, as `Path::join` does it on Unix.
pub open spec fn join_path_spec(base: Seq<char>, comp: Seq<char>) -> Seq<char> {
    if base.len() == 0 || base.last() == '/' {
        base + comp
    } else {
        base + "/"@ + comp
    }
}

/// `base` joined with the relative path `comp`.
pub fn join_path(base: &str, comp: &str) -> (r: String)
    ensures
        r@ == join_path_spec(base@, comp@),
{
    if base.is_empty() || ends_with_char(base, '/') {
        concat(base, comp)
    } else {
        let mut s = concat(base, "/");
        s.append(comp);
        s
    }
}

/// The directory for generated configuration: the configured one without
/// surrounding white space, or `./config` when that is empty.
pub open spec fn root_dir_spec(generated_dir: Seq<char>) -> Seq<char> {
    if trim_spec(generated_dir).len() == 0 {
        "./config"@
    } else {
        trim_spec(generated_dir)
    }
}

/// Whether every recording policy of the proxy has a path set.
pub open spec fn recording_paths_set(p: ProxyConfig) -> bool {
    &&& (p.recording matches Some(r) ==> path_is_set(r.path))
    &&& forall|i: int|
        0 <= i < p.trunks@.len() ==> ((#[trigger] p.trunks@[i]).1.recording matches Some(r)
            ==> path_is_set(r.path))
}

/// Whether some recording policy of the proxy lacks a path.
pub open spec fn recording_path_missing(p: ProxyConfig) -> bool {
    ||| (p.recording matches Some(r) && !path_is_set(r.path))
    ||| exists|i: int|
        0 <= i < p.trunks@.len() && ((#[trigger] p.trunks@[i]).1.recording matches Some(r)
            && !path_is_set(r.path))
}

/// `new` is `old` with the default recorder path filled in where none was set.
pub open spec fn policy_defaults_applied(old: Option<RecordingPolicy>, new: Option<RecordingPolicy>) -> bool {
    match (old, new) {
        (None, None) => true,
        (Some(o), Some(n)) => {
            &&& path_is_set(n.path)
            &&& n.recorder_path_spec() == o.recorder_path_spec()
            &&& path_is_set(o.path) ==> n == o
            &&& !path_is_set(o.path) ==> (n.path matches Some(p) && p@ == default_recorder_dir())
            &&& !path_is_set(o.path) ==> n == (RecordingPolicy { path: n.path, ..o })
        },
        _ => false,
    }
}

/// `new` is `old` with recording defaults applied to the proxy policy and to
/// every trunk policy, and nothing else changed.
pub open spec fn proxy_defaults_applied(old: ProxyConfig, new: ProxyConfig) -> bool {
    &&& policy_defaults_applied(old.recording, new.recording)
    &&& new.trunks@.len() == old.trunks@.len()
    &&& forall|i: int|
        0 <= i < old.trunks@.len() ==> {
            &&& (#[trigger] new.trunks@[i]).0 == old.trunks@[i].0
            &&& new.trunks@[i].1.dest == old.trunks@[i].1.dest
            &&& policy_defaults_applied(old.trunks@[i].1.recording, new.trunks@[i].1.recording)
        }
    &&& new == (ProxyConfig { recording: new.recording, trunks: new.trunks, ..old })
}

/// Whether `r` holds every proxy default, with the user agent of `build`.
pub open spec fn is_default_proxy(r: ProxyConfig, build: BuildInfo) -> bool {
    &&& r.acl_rules matches Some(rules) && rules@.len() == 2 && rules@[0]@ == "allow all"@
        && rules@[1]@ == "deny all"@
    &&& r.ua_white_list matches Some(l) && l@.len() == 0
    &&& r.ua_black_list matches Some(l) && l@.len() == 0
    &&& r.addr@ == "0.0.0.0"@
    &&& r.modules matches Some(m) && m@.len() == 4 && m@[0]@ == "acl"@ && m@[1]@ == "auth"@
        && m@[2]@ == "registrar"@ && m@[3]@ == "call"@
    &&& r.useragent matches Some(u) && u@ == useragent_spec(build)
    &&& r.callid_suffix matches Some(s) && s@ == "miuda.ai"@
    &&& r.t1_timer is None && r.t1x64_timer is None
    &&& r.ssl_private_key is None && r.ssl_certificate is None
    &&& r.udp_port == Some(5060u16)
    &&& r.tcp_port is None && r.tls_port is None && r.ws_port is None
    &&& r.max_concurrency is None
    &&& r.registrar_expires == Some(60u32)
    &&& r.ensure_user == Some(true)
    &&& !r.enable_latching
    &&& r.user_backends@.len() == 1
    &&& r.user_backends@[0] matches UserBackendConfig::Memory { users: None }
    &&& r.locator is Memory
    &&& r.locator_webhook is None
    &&& r.media_proxy == MediaProxyMode::Auto
    &&& r.codecs is None && r.frequency_limiter is None
    &&& r.realms matches Some(l) && l@.len() == 0
    &&& r.ws_handler is None && r.http_router is None
    &&& r.routes_files@.len() == 0 && r.acl_files@.len() == 0
    &&& !r.session_timer && r.session_expires is None
    &&& r.trunks@.len() == 0 && r.trunks_files@.len() == 0
    &&& keys_distinct(r.trunks@)
    &&& r.queue_dir is None && r.recording is None
    &&& r.generated_dir@ == "./config"@
    &&& r.nat_fix
    &&& r.sip_flow_max_items is None && r.addons is None
    &&& r.passthrough_failure
}

fn ensure_policy_defaults(policy: &mut Option<RecordingPolicy>) -> (changed: bool)
    ensures
        changed == (*old(policy) matches Some(r) && !path_is_set(r.path)),
        policy_defaults_applied(*old(policy), *final(policy)),
{
    match policy {
        Some(p) => p.ensure_defaults(),
        None => false,
    }
}

pub fn default_useragent(build: &BuildInfo) -> (r: Option<String>)
    ensures
        r matches Some(u) && u@ == useragent_spec(*build),
{
    Some(get_useragent(build))
}

pub fn default_nat_fix() -> (r: bool)
    ensures
        r,
{
    true
}

pub fn default_callid_suffix() -> (r: Option<String>)
    ensures
        r matches Some(s) && s@ == "miuda.ai"@,
{
    Some("miuda.ai".to_owned())
}

pub fn default_user_backends() -> (r: Vec<UserBackendConfig>)
    ensures
        r@.len() == 1,
        r@[0] matches UserBackendConfig::Memory { users: None },
{
    let mut v: Vec<UserBackendConfig> = Vec::new();
    v.push(UserBackendConfig::default());
    v
}

pub fn default_generated_config_dir() -> (r: String)
    ensures
        r@ == "./config"@,
{
    "./config".to_owned()
}

pub fn default_passthrough_failure() -> (r: bool)
    ensures
        r,
{
    true
}

impl ProxyConfig {
    /// A realm without its port; `localhost` for empty, `*`, `127.0.0.1` and `::1`.
    pub fn normalize_realm(realm: &str) -> (r: &str)
        ensures
            r@ == normalize_realm_spec(realm@),
    {
        let host = match find_char(realm, ':') {
            Some(pos) => {
                proof {
                    crate::text::lemma_find(realm@, ':');
                }
                realm.substring_char(0, pos)
            },
            None => realm,
        };
        if host.is_empty() || str_eq(host, "*") || str_eq(host, "127.0.0.1") || str_eq(host, "::1") {
            "localhost"
        } else {
            host
        }
    }

    /// The realm to serve for a request host (see `select_realm_spec`).
    pub fn select_realm(&self, request_host: &str) -> (r: String)
        ensures
            r@ == select_realm_spec(self.realms, request_host@),
    {
        let requested = trim(request_host);
        let normalized = ProxyConfig::normalize_realm(requested);
        match &self.realms {
            Some(realms) => {
                let n = realms.len();
                let mut i: usize = 0;
                while i < n
                    invariant
                        i <= n == realms.len(),
                        self.realms == Some(*realms),
                        requested@ == trim_spec(request_host@),
                        normalized@ == normalize_realm_spec(requested@),
                        realm_match_from(realms@, requested@, normalized@, 0) == realm_match_from(
                            realms@,
                            requested@,
                            normalized@,
                            i as int,
                        ),
                    decreases n - i,
                {
                    let r = realms[i].as_str();
                    if str_eq(r, requested) || str_eq(r, normalized) {
                        return realms[i].clone();
                    }
                    i = i + 1;
                }
                if n > 0 && !realms[0].as_str().is_empty() {
                    return realms[0].clone();
                }
            },
            None => {},
        }
        if requested.is_empty() {
            normalized.to_owned()
        } else {
            requested.to_owned()
        }
    }

    /// Spec of `generated_root_dir`.
    pub open spec fn root_dir(self) -> Seq<char> {
        root_dir_spec(self.generated_dir@)
    }

    /// The directory for generated configuration files.
    pub fn generated_root_dir(&self) -> (r: String)
        ensures
            r@ == self.root_dir(),
    {
        let trimmed = trim(self.generated_dir.as_str());
        if trimmed.is_empty() {
            return "./config".to_owned();
        }
        trimmed.to_owned()
    }

    /// `trunks` below the generated root directory.
    pub fn generated_trunks_dir(&self) -> (r: String)
        ensures
            r@ == join_path_spec(self.root_dir(), "trunks"@),
    {
        let root = self.generated_root_dir();
        join_path(root.as_str(), "trunks")
    }

    /// `routes` below the generated root directory.
    pub fn generated_routes_dir(&self) -> (r: String)
        ensures
            r@ == join_path_spec(self.root_dir(), "routes"@),
    {
        let root = self.generated_root_dir();
        join_path(root.as_str(), "routes")
    }

    /// The configured queue directory without surrounding white space, or
    /// `queue` below the generated root directory when none is set.
    pub open spec fn queue_dir_spec(self) -> Seq<char> {
        if self.queue_dir matches Some(q) && trim_spec(q@).len() > 0 {
            trim_spec(self.queue_dir->0@)
        } else {
            join_path_spec(self.root_dir(), "queue"@)
        }
    }

    /// The directory for queue definitions.
    pub fn generated_queue_dir(&self) -> (r: String)
        ensures
            r@ == self.queue_dir_spec(),
    {
        match &self.queue_dir {
            Some(dir) => {
                let t = trim(dir.as_str());
                if !t.is_empty() {
                    return t.to_owned();
                }
            },
            None => {},
        }
        let root = self.generated_root_dir();
        join_path(root.as_str(), "queue")
    }

    /// `acl` below the generated root directory.
    pub fn generated_acl_dir(&self) -> (r: String)
        ensures
            r@ == join_path_spec(self.root_dir(), "acl"@),
    {
        let root = self.generated_root_dir();
        join_path(root.as_str(), "acl")
    }

    /// Fills in the default recorder path of the proxy policy and of every trunk
    /// policy that lacks one; returns whether any lacked one.
    pub fn ensure_recording_defaults(&mut self) -> (fallback: bool)
        ensures
            fallback == recording_path_missing(*old(self)),
            recording_paths_set(*final(self)),
            proxy_defaults_applied(*old(self), *final(self)),
            keys_distinct(old(self).trunks@) ==> keys_distinct(final(self).trunks@),
    {
        let ghost before = *self;
        let mut fallback = ensure_policy_defaults(&mut self.recording);
        let mut trunks: Vec<(String, TrunkConfig)> = Vec::new();
        std::mem::swap(&mut trunks, &mut self.trunks);
        let ghost olds = trunks@;
        let mut updated: Vec<(String, TrunkConfig)> = Vec::new();
        for entry in it: trunks.into_iter()
            invariant
                it.seq() == olds,
                updated@.len() == it.index(),
                forall|j: int|
                    0 <= j < it.index() ==> {
                        &&& (#[trigger] updated@[j]).0 == olds[j].0
                        &&& updated@[j].1.dest == olds[j].1.dest
                        &&& policy_defaults_applied(olds[j].1.recording, updated@[j].1.recording)
                    },
                fallback == ((before.recording matches Some(r) && !path_is_set(r.path))
                    || exists|j: int|
                    0 <= j < it.index() && ((#[trigger] olds[j]).1.recording matches Some(r)
                        && !path_is_set(r.path))),
        {
            let (name, mut trunk) = entry;
            let changed = ensure_policy_defaults(&mut trunk.recording);
            fallback = fallback || changed;
            updated.push((name, trunk));
        }
        self.trunks = updated;
        proof {
            assert forall|i: int|
                0 <= i < self.trunks@.len() implies ((#[trigger] self.trunks@[i]).1.recording matches Some(r)
                ==> path_is_set(r.path)) by {
                assert(policy_defaults_applied(olds[i].1.recording, self.trunks@[i].1.recording));
            }
        }
        fallback
    }

    /// Proxy settings with every default filled in.
    pub fn default_for(build: &BuildInfo) -> (r: ProxyConfig)
        ensures
            is_default_proxy(r, *build),
    {
        let mut acl: Vec<String> = Vec::new();
        acl.push("allow all".to_owned());
        acl.push("deny all".to_owned());
        let mut modules: Vec<String> = Vec::new();
        modules.push("acl".to_owned());
        modules.push("auth".to_owned());
        modules.push("registrar".to_owned());
        modules.push("call".to_owned());
        ProxyConfig {
            acl_rules: Some(acl),
            ua_white_list: Some(Vec::new()),
            ua_black_list: Some(Vec::new()),
            addr: "0.0.0.0".to_owned(),
            modules: Some(modules),
            useragent: default_useragent(build),
            callid_suffix: default_callid_suffix(),
            t1_timer: None,
            t1x64_timer: None,
            ssl_private_key: None,
            ssl_certificate: None,
            udp_port: Some(5060),
            tcp_port: None,
            tls_port: None,
            ws_port: None,
            max_concurrency: None,
            registrar_expires: Some(60),
            ensure_user: Some(true),
            enable_latching: false,
            user_backends: default_user_backends(),
            locator: LocatorConfig::default(),
            locator_webhook: None,
            media_proxy: MediaProxyMode::default(),
            codecs: None,
            frequency_limiter: None,
            realms: Some(Vec::new()),
            ws_handler: None,
            http_router: None,
            routes_files: Vec::new(),
            acl_files: Vec::new(),
            session_timer: false,
            session_expires: None,
            trunks: Vec::new(),
            trunks_files: Vec::new(),
            queue_dir: None,
            recording: None,
            generated_dir: default_generated_config_dir(),
            nat_fix: true,
            sip_flow_max_items: None,
            addons: None,
            passthrough_failure: true,
        }
    }
}

/// Normalizing a realm again changes nothing.
pub proof fn lemma_normalize_realm_idempotent(s: Seq<char>)
    ensures
        normalize_realm_spec(normalize_realm_spec(s)) == normalize_realm_spec(s),
{
    reveal_strlit("localhost");
    reveal_strlit("*");
    reveal_strlit("127.0.0.1");
    reveal_strlit("::1");
    crate::text::lemma_find(s, ':');
    let h = host_part(s);
    assert(forall|j: int| 0 <= j < h.len() ==> h[j] != ':');
    crate::text::lemma_find(h, ':');
    assert(host_part(h) =~= h);
    let l = "localhost"@;
    assert(forall|j: int| 0 <= j < l.len() ==> l[j] != ':');
    crate::text::lemma_find(l, ':');
    assert(host_part(l) =~= l);
    assert(l != "*"@ && l != "127.0.0.1"@ && l != "::1"@) by {
        assert(l.len() != "*"@.len());
        assert(l[0] != "127.0.0.1"@[0]);
        assert(l.len() != "::1"@.len());
    }
}

/// With a realm list whose first entry is not empty, the realm served is one
/// of the configured realms.
pub proof fn lemma_select_realm_configured(realms: Vec<String>, host: Seq<char>)
    requires
        realms@.len() > 0,
        realms@[0]@.len() > 0,
    ensures
        exists|k: int|
            0 <= k < realms@.len() && #[trigger] realms@[k]@ == select_realm_spec(Some(realms), host),
{
    let requested = trim_spec(host);
    let normalized = normalize_realm_spec(requested);
    lemma_realm_match_from(realms@, requested, normalized, 0);
    match realm_match_from(realms@, requested, normalized, 0) {
        Some(k) => {
            assert(realms@[k]@ == select_realm_spec(Some(realms), host));
        },
        None => {
            assert(realms@[0]@ == select_realm_spec(Some(realms), host));
        },
    }
}

/// Filling in recording defaults twice is filling them in once: the second
/// pass finds every path set and changes nothing.
pub proof fn lemma_proxy_defaults_idempotent(a: ProxyConfig, b: ProxyConfig, c: ProxyConfig)
    requires
        proxy_defaults_applied(a, b),
        proxy_defaults_applied(b, c),
    ensures
        !recording_path_missing(b),
        c.trunks@ == b.trunks@,
        c == (ProxyConfig { trunks: c.trunks, ..b }),
{
    assert forall|i: int| 0 <= i < b.trunks@.len() implies !((#[trigger] b.trunks@[i]).1.recording matches Some(r)
        && !path_is_set(r.path)) by {
        assert(policy_defaults_applied(a.trunks@[i].1.recording, b.trunks@[i].1.recording));
    }
    assert forall|i: int| 0 <= i < c.trunks@.len() implies #[trigger] c.trunks@[i] == b.trunks@[i] by {
        assert(policy_defaults_applied(a.trunks@[i].1.recording, b.trunks@[i].1.recording));
        assert(policy_defaults_applied(b.trunks@[i].1.recording, c.trunks@[i].1.recording));
    }
    assert(c.trunks@ =~= b.trunks@);
}

/// Every generated directory lies below the root it is joined to.
pub proof fn lemma_join_below(base: Seq<char>, comp: Seq<char>)
    ensures
        join_path_spec(base, comp).len() >= base.len(),
        join_path_spec(base, comp).take(base.len() as int) == base,
{
    let j = join_path_spec(base, comp);
    assert(j.take(base.len() as int) =~= base);
}

/// A configured queue directory that is not blank is used as it is written,
/// without surrounding white space: it does not depend on the generated root
/// directory or on whether it is relative. Only without one (or with a blank
/// one) is the queue directory `queue` below the generated root directory.
pub proof fn lemma_queue_dir_configured(p: ProxyConfig, other: ProxyConfig, q: String)
    ensures
        p.queue_dir == Some(q) && trim_spec(q@).len() > 0 ==> p.queue_dir_spec() == trim_spec(q@),
        p.queue_dir == Some(q) && other.queue_dir == Some(q) && trim_spec(q@).len() > 0
            ==> p.queue_dir_spec() == other.queue_dir_spec(),
        p.queue_dir is None || (p.queue_dir == Some(q) && trim_spec(q@).len() == 0)
            ==> p.queue_dir_spec() == join_path_spec(root_dir_spec(p.generated_dir@), "queue"@),
{
}

/// When a configured realm equals the requested host (trimmed) or its
/// normalized form, the realm served is the first such realm: a request for a
/// local address is served the `localhost` realm where one is configured,
/// before any fallback to the first realm.
pub proof fn lemma_select_realm_first_match(realms: Vec<String>, host: Seq<char>, k: int)
    requires
        0 <= k < realms@.len(),
        realms@[k]@ == trim_spec(host) || realms@[k]@ == normalize_realm_spec(trim_spec(host)),
    ensures
        exists|m: int|
            0 <= m <= k && select_realm_spec(Some(realms), host) == realms@[m]@ && (realms@[m]@
                == trim_spec(host) || realms@[m]@ == normalize_realm_spec(trim_spec(host)))
                && forall|j: int|
                0 <= j < m ==> (#[trigger] realms@[j])@ != trim_spec(host) && realms@[j]@
                    != normalize_realm_spec(trim_spec(host)),
{
    let a = trim_spec(host);
    let b = normalize_realm_spec(a);
    lemma_realm_match_first(realms@, a, b, 0, k);
}

proof fn lemma_realm_match_first(realms: Seq<String>, a: Seq<char>, b: Seq<char>, i: int, k: int)
    requires
        0 <= i <= k < realms.len(),
        realms[k]@ == a || realms[k]@ == b,
        forall|j: int| 0 <= j < i ==> (#[trigger] realms[j])@ != a && realms[j]@ != b,
    ensures
        realm_match_from(realms, a, b, i) matches Some(m) && i <= m <= k && (realms[m]@ == a
            || realms[m]@ == b) && forall|j: int|
            0 <= j < m ==> (#[trigger] realms[j])@ != a && realms[j]@ != b,
    decreases k - i,
{
    if !(realms[i]@ == a || realms[i]@ == b) {
        lemma_realm_match_first(realms, a, b, i + 1, k);
    }
}

/// When no configured realm equals the requested host (trimmed) or its
/// normalized form, the first configured realm is served where it is not
/// empty; otherwise (and without a realm list) the trimmed host is served, or
/// `localhost` for a blank one.
pub proof fn lemma_select_realm_fallback(realms: Option<Vec<String>>, host: Seq<char>)
    requires
        realms matches Some(rs) ==> forall|j: int|
            0 <= j < rs@.len() ==> (#[trigger] rs@[j])@ != trim_spec(host) && rs@[j]@
                != normalize_realm_spec(trim_spec(host)),
    ensures
        select_realm_spec(realms, host) == if realms matches Some(rs) && rs@.len() > 0
            && rs@[0]@.len() > 0 {
            realms->0@[0]@
        } else if trim_spec(host).len() == 0 {
            "localhost"@
        } else {
            trim_spec(host)
        },
{
    reveal_strlit("localhost");
    let a = trim_spec(host);
    let b = normalize_realm_spec(a);
    if let Some(rs) = realms {
        lemma_realm_match_none(rs@, a, b, 0);
    }
    if a.len() == 0 {
        crate::text::lemma_find(a, ':');
        assert(host_part(a) =~= a);
    }
}

proof fn lemma_realm_match_none(realms: Seq<String>, a: Seq<char>, b: Seq<char>, i: int)
    requires
        0 <= i <= realms.len(),
        forall|j: int| 0 <= j < realms.len() ==> (#[trigger] realms[j])@ != a && realms[j]@ != b,
    ensures
        realm_match_from(realms, a, b, i) is None,
    decreases realms.len() - i,
{
    if i < realms.len() {
        lemma_realm_match_none(realms, a, b, i + 1);
    }
}

} // verus!
