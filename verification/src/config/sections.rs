//! Configuration sections that carry values and their defaults.

use crate::text::{concat, is_blank, str_eq, strip_end_spec, strip_end, trim_spec};
use vstd::prelude::*;

verus! {

/// Whether no two entries of an association list share a key.
pub open spec fn keys_distinct<V>(m: Seq<(String, V)>) -> bool {
    forall|i: int, j: int| 0 <= i < j < m.len() ==> m[i].0@ != m[j].0@
}

/// Whether `c` is an ASCII letter or digit.
pub open spec fn is_ascii_alnum(c: char) -> bool {
    ('0' <= c && c <= '9') || ('A' <= c && c <= 'Z') || ('a' <= c && c <= 'z')
}

/// `rsipstack::transaction::random_text`: `count` characters, each drawn at
/// random from the ASCII letters and digits. Which characters come out is left
/// open: it rests on the random number generator.
#[verifier::external_body]
fn random_text(count: usize) -> (r: String)
    ensures
        r@.len() == count,
        forall|i: int| 0 <= i < count ==> is_ascii_alnum(#[trigger] r@[i]),
{
    rsipstack::transaction::random_text(count)
}

// ---------------------------------------------------------------------------
// Call transfer
// ---------------------------------------------------------------------------

pub fn default_transfer_refer_enabled() -> (r: bool)
    ensures
        r,
{
    true
}

pub fn default_transfer_attended_enabled() -> (r: bool)
    ensures
        r,
{
    true
}

pub fn default_transfer_3pcc_fallback_enabled() -> (r: bool)
    ensures
        r,
{
    true
}

pub fn default_transfer_refer_timeout_secs() -> (r: u64)
    ensures
        r == 30,
{
    30
}

pub fn default_transfer_3pcc_timeout_secs() -> (r: u64)
    ensures
        r == 60,
{
    60
}

pub fn default_transfer_max_concurrent() -> (r: usize)
    ensures
        r == 1000,
{
    1000
}

/// Transfer configuration for call transfer features.
#[derive(Clone, Debug)]
pub struct TransferConfig {
    /// Enable SIP REFER transfer method
    pub refer_enabled: bool,
    /// Enable attended transfer (consultation transfer)
    pub attended_enabled: bool,
    /// Enable 3PCC fallback when REFER is not supported
    pub three_pcc_fallback_enabled: bool,
    /// REFER timeout in seconds
    pub refer_timeout_secs: u64,
    /// 3PCC timeout in seconds
    pub three_pcc_timeout_secs: u64,
    /// Maximum concurrent transfers
    pub max_concurrent: usize,
}

impl Default for TransferConfig {
    fn default() -> (r: Self)
        ensures
            r.refer_enabled,
            r.attended_enabled,
            r.three_pcc_fallback_enabled,
            r.refer_timeout_secs == 30,
            r.three_pcc_timeout_secs == 60,
            r.max_concurrent == 1000,
    {
        TransferConfig {
            refer_enabled: default_transfer_refer_enabled(),
            attended_enabled: default_transfer_attended_enabled(),
            three_pcc_fallback_enabled: default_transfer_3pcc_fallback_enabled(),
            refer_timeout_secs: default_transfer_refer_timeout_secs(),
            three_pcc_timeout_secs: default_transfer_3pcc_timeout_secs(),
            max_concurrent: default_transfer_max_concurrent(),
        }
    }
}

// ---------------------------------------------------------------------------
// ACME
// ---------------------------------------------------------------------------

pub fn default_acme_renewal_threshold_hours() -> (r: u64)
    ensures
        r == 72,
{
    72
}

/// ACME Let's Encrypt configuration.
#[derive(Clone, Debug)]
pub struct AcmeConfig {
    /// Enable automatic certificate renewal
    pub auto_renew: bool,
    /// Hours before expiry to trigger renewal
    pub renewal_threshold_hours: u64,
    /// Automatically reload HTTPS after renewal
    pub renew_https: bool,
    /// Automatically reload SIP TLS after renewal
    pub renew_sips: bool,
    /// Domain to manage (if not set, inferred from existing certificates)
    pub domain: Option<String>,
}

impl Default for AcmeConfig {
    fn default() -> (r: Self)
        ensures
            !r.auto_renew,
            r.renewal_threshold_hours == 72,
            r.renew_https,
            r.renew_sips,
            r.domain is None,
    {
        AcmeConfig {
            auto_renew: false,
            renewal_threshold_hours: default_acme_renewal_threshold_hours(),
            renew_https: true,
            renew_sips: true,
            domain: None,
        }
    }
}

// ---------------------------------------------------------------------------
// Archive
// ---------------------------------------------------------------------------

/// Directory that archives go to below a recording directory.
pub open spec fn derived_archive_dir(recording_path: Seq<char>) -> Seq<char> {
    strip_end_spec(recording_path, '/') + "/archive"@
}

/// Call record archiving.
#[derive(Clone, Debug)]
pub struct ArchiveConfig {
    pub enabled: bool,
    pub archive_time: String,
    pub timezone: Option<String>,
    pub retention_days: u32,
    /// Archive records older than this many days. If 0, archives records from the previous day.
    pub archive_after_days: u32,
    pub archive_dir: Option<String>,
}

impl ArchiveConfig {
    /// The configured archive directory when it holds more than white space;
    /// otherwise `archive` below the recording path.
    pub open spec fn effective_archive_dir_spec(self, recording_path: Seq<char>) -> Seq<char> {
        if self.archive_dir matches Some(d) && trim_spec(d@).len() > 0 {
            self.archive_dir->0@
        } else {
            derived_archive_dir(recording_path)
        }
    }

    /// Returns the effective archive directory, deriving from recording path if not set.
    pub fn effective_archive_dir(&self, recording_path: &str) -> (r: String)
        ensures
            r@ == self.effective_archive_dir_spec(recording_path@),
    {
        match &self.archive_dir {
            Some(d) => {
                if !is_blank(d.as_str()) {
                    return d.clone();
                }
            },
            None => {},
        }
        concat(strip_end(recording_path, '/'), "/archive")
    }
}

// ---------------------------------------------------------------------------
// Enterprise authentication
// ---------------------------------------------------------------------------

/// Enterprise authentication configuration.
#[derive(Clone, Debug)]
pub struct EnterpriseAuthConfig {
    pub ldap_url: String,
    pub ldap_base_dn: String,
    pub ldap_user_dn: String,
    pub ldap_password: String,
    pub ldap_user_filter: String,
}

impl Default for EnterpriseAuthConfig {
    fn default() -> (r: Self)
        ensures
            r.ldap_url@.len() == 0,
            r.ldap_base_dn@.len() == 0,
            r.ldap_user_dn@.len() == 0,
            r.ldap_password@.len() == 0,
            r.ldap_user_filter@.len() == 0,
    {
        EnterpriseAuthConfig {
            ldap_url: String::new(),
            ldap_base_dn: String::new(),
            ldap_user_dn: String::new(),
            ldap_password: String::new(),
            ldap_user_filter: String::new(),
        }
    }
}

// ---------------------------------------------------------------------------
// Metrics
// ---------------------------------------------------------------------------

pub fn default_metrics_enabled() -> (r: bool)
    ensures
        r,
{
    true
}

pub fn default_metrics_path() -> (r: String)
    ensures
        r@ == "/metrics"@,
{
    "/metrics".to_owned()
}

pub fn default_healthz_path() -> (r: String)
    ensures
        r@ == "/healthz"@,
{
    "/healthz".to_owned()
}

/// Metrics configuration for the Prometheus endpoint.
#[derive(Clone, Debug)]
pub struct MetricsConfig {
    pub enabled: bool,
    pub path: String,
    pub token: Option<String>,
    pub healthz_path: String,
}

impl Default for MetricsConfig {
    fn default() -> (r: Self)
        ensures
            r.enabled,
            r.path@ == "/metrics"@,
            r.token is None,
            r.healthz_path@ == "/healthz"@,
    {
        MetricsConfig {
            enabled: true,
            path: default_metrics_path(),
            token: None,
            healthz_path: default_healthz_path(),
        }
    }
}

// ---------------------------------------------------------------------------
// Console
// ---------------------------------------------------------------------------

pub fn default_locale() -> (r: String)
    ensures
        r@ == "en"@,
{
    "en".to_owned()
}

pub fn default_console_base_path() -> (r: String)
    ensures
        r@ == "/console"@,
{
    "/console".to_owned()
}

/// A fresh session secret: 32 random ASCII letters and digits.
pub fn default_console_session_secret() -> (r: String)
    ensures
        r@.len() == 32,
        forall|i: int| 0 <= i < 32 ==> is_ascii_alnum(#[trigger] r@[i]),
{
    random_text(32)
}

/// Display names of a locale.
#[derive(Clone, Debug)]
pub struct LocaleInfo {
    pub name: String,
    pub native_name: String,
}

/// The locales that the console offers by default: English and Chinese.
pub open spec fn is_default_locales(m: Seq<(String, LocaleInfo)>) -> bool {
    &&& m.len() == 2
    &&& m[0].0@ == "en"@
    &&& m[0].1.name@ == "English"@
    &&& m[0].1.native_name@ == "English"@
    &&& m[1].0@ == "zh"@
    &&& m[1].1.name@ == "Chinese"@
    &&& m[1].1.native_name@ == "中文"@
}

/// Supported locales by code: English and Chinese.
pub fn default_locales() -> (r: Vec<(String, LocaleInfo)>)
    ensures
        is_default_locales(r@),
        keys_distinct(r@),
{
    let mut m: Vec<(String, LocaleInfo)> = Vec::new();
    m.push(
        (
            "en".to_owned(),
            LocaleInfo { name: "English".to_owned(), native_name: "English".to_owned() },
        ),
    );
    m.push(
        (
            "zh".to_owned(),
            LocaleInfo { name: "Chinese".to_owned(), native_name: "中文".to_owned() },
        ),
    );
    proof {
        reveal_strlit("en");
        reveal_strlit("zh");
        assert("en"@[0] != "zh"@[0]);
    }
    m
}

/// Web console settings.
#[derive(Clone, Debug)]
pub struct ConsoleConfig {
    pub session_secret: String,
    pub base_path: String,
    pub allow_registration: bool,
    pub secure_cookie: bool,
    pub alpine_js: Option<String>,
    pub tailwind_js: Option<String>,
    pub chart_js: Option<String>,
    /// Default locale code, e.g. "en" or "zh"
    pub locale_default: String,
    /// Supported locales: code and display names
    pub locales: Vec<(String, LocaleInfo)>,
}

impl Default for ConsoleConfig {
    fn default() -> (r: Self)
        ensures
            r.session_secret@.len() == 32,
            forall|i: int| 0 <= i < 32 ==> is_ascii_alnum(#[trigger] r.session_secret@[i]),
            r.base_path@ == "/console"@,
            !r.allow_registration,
            !r.secure_cookie,
            r.alpine_js is None,
            r.tailwind_js is None,
            r.chart_js is None,
            r.locale_default@ == "en"@,
            is_default_locales(r.locales@),
    {
        ConsoleConfig {
            session_secret: default_console_session_secret(),
            base_path: default_console_base_path(),
            allow_registration: false,
            secure_cookie: false,
            alpine_js: None,
            tailwind_js: None,
            chart_js: None,
            locale_default: default_locale(),
            locales: default_locales(),
        }
    }
}

// ---------------------------------------------------------------------------
// User backends and locators
// ---------------------------------------------------------------------------

/// A SIP account listed in a memory user backend.
#[derive(Clone, Debug)]
pub struct SipUser {
    pub username: String,
    pub password: Option<String>,
    pub realm: Option<String>,
}

/// Where SIP accounts are looked up.
#[derive(Clone, Debug)]
pub enum UserBackendConfig {
    Memory { users: Option<Vec<SipUser>> },
    Http {
        url: String,
        method: Option<String>,
        username_field: Option<String>,
        realm_field: Option<String>,
        headers: Option<Vec<(String, String)>>,
        sip_headers: Option<Vec<String>>,
    },
    Plain { path: String },
    Database {
        url: Option<String>,
        table_name: Option<String>,
        id_column: Option<String>,
        username_column: Option<String>,
        password_column: Option<String>,
        enabled_column: Option<String>,
        realm_column: Option<String>,
    },
    Extension { database_url: Option<String>, ttl: Option<u64> },
}

impl Default for UserBackendConfig {
    fn default() -> (r: Self)
        ensures
            r matches UserBackendConfig::Memory { users: None },
    {
        UserBackendConfig::Memory { users: None }
    }
}

/// Where registrations are kept.
#[derive(Clone, Debug)]
pub enum LocatorConfig {
    Memory,
    Http {
        url: String,
        method: Option<String>,
        username_field: Option<String>,
        expires_field: Option<String>,
        realm_field: Option<String>,
        headers: Option<Vec<(String, String)>>,
    },
    Database { url: String },
}

impl Default for LocatorConfig {
    fn default() -> (r: Self)
        ensures
            r is Memory,
    {
        LocatorConfig::Memory
    }
}

// ---------------------------------------------------------------------------
// Call records and SIP flow
// ---------------------------------------------------------------------------

/// Object store vendors.
#[derive(Clone, Copy, Debug, PartialEq, Eq, Structural)]
pub enum S3Vendor {
    Aliyun,
    Tencent,
    Minio,
    AWS,
    GCP,
    Azure,
    DigitalOcean,
}

/// Where call records are stored.
#[derive(Clone, Debug)]
pub enum CallRecordConfig {
    Local { root: String },
    S3 {
        vendor: S3Vendor,
        bucket: String,
        region: String,
        access_key: String,
        secret_key: String,
        endpoint: String,
        root: String,
        with_media: Option<bool>,
        keep_media_copy: Option<bool>,
    },
    Http {
        url: String,
        headers: Option<Vec<(String, String)>>,
        with_media: Option<bool>,
        keep_media_copy: Option<bool>,
    },
}

impl Default for CallRecordConfig {
    fn default() -> (r: Self)
        ensures
            r matches CallRecordConfig::Local { root } && root@ == "./config/cdr"@,
    {
        CallRecordConfig::Local { root: "./config/cdr".to_owned() }
    }
}

/// Directory structure for sipflow storage.
#[derive(Clone, Copy, Debug, PartialEq, Eq, Structural)]
pub enum SipFlowSubdirs {
    /// No subdirectory structure - all files in root
    Flat,
    /// Daily subdirectories (YYYYMMDD)
    Daily,
    /// Hourly subdirectories (YYYYMMDD/HH)
    Hourly,
}

impl Default for SipFlowSubdirs {
    fn default() -> (r: Self)
        ensures
            r == SipFlowSubdirs::Daily,
    {
        SipFlowSubdirs::Daily
    }
}

/// Upload configuration for SipFlow recordings.
#[derive(Clone, Debug)]
pub enum SipFlowUploadConfig {
    S3 {
        vendor: S3Vendor,
        bucket: String,
        region: String,
        access_key: String,
        secret_key: String,
        endpoint: String,
        root: String,
    },
    Http { url: String, headers: Option<Vec<(String, String)>> },
}

/// Where SIP message flows are kept.
#[derive(Clone, Debug)]
pub enum SipFlowConfig {
    Local {
        root: String,
        subdirs: SipFlowSubdirs,
        flush_count: usize,
        flush_interval_secs: u64,
        id_cache_size: usize,
        upload: Option<SipFlowUploadConfig>,
    },
    Remote { udp_addr: String, http_addr: String, timeout_secs: u64 },
}

pub fn default_sipflow_flush_count() -> (r: usize)
    ensures
        r == 1000,
{
    1000
}

pub fn default_sipflow_flush_interval() -> (r: u64)
    ensures
        r == 5,
{
    5
}

pub fn default_sipflow_timeout() -> (r: u64)
    ensures
        r == 10,
{
    10
}

pub fn default_sipflow_id_cache_size() -> (r: usize)
    ensures
        r == 8192,
{
    8192
}

// ---------------------------------------------------------------------------
// Media, routing and AMI
// ---------------------------------------------------------------------------

/// When media is relayed through the proxy.
#[derive(Clone, Copy, Debug, PartialEq, Eq, Structural)]
pub enum MediaProxyMode {
    /// All media goes through proxy
    All,
    /// Auto detect if media proxy is needed (webrtc to rtp)
    Auto,
    /// Only handle NAT (private IP addresses)
    Nat,
    /// Do not handle media proxy
    Off,
}

impl Default for MediaProxyMode {
    fn default() -> (r: Self)
        ensures
            r == MediaProxyMode::Auto,
    {
        MediaProxyMode::Auto
    }
}

/// An ICE server (STUN or TURN) handed to WebRTC peers.
#[verifier::external_type_specification]
#[verifier::external_body]
pub struct ExIceServer(rustrtc::IceServer);

/// RTP port ranges, address and ICE servers of the media layer.
#[derive(Clone, Debug)]
pub struct RtpConfig {
    pub external_ip: Option<String>,
    pub start_port: Option<u16>,
    pub end_port: Option<u16>,
    pub webrtc_start_port: Option<u16>,
    pub webrtc_end_port: Option<u16>,
    pub ice_servers: Option<Vec<rustrtc::IceServer>>,
}

/// An HTTP service that routes calls.
#[derive(Clone, Debug)]
pub struct HttpRouterConfig {
    pub url: String,
    pub headers: Option<Vec<(String, String)>>,
    pub fallback_to_static: bool,
    pub timeout_ms: Option<u64>,
}

/// An HTTP endpoint told of registration events.
#[derive(Clone, Debug)]
pub struct LocatorWebhookConfig {
    pub url: String,
    pub events: Vec<String>,
    pub headers: Option<Vec<(String, String)>>,
    pub timeout_ms: Option<u64>,
}

/// Addresses that the AMI endpoint answers.
#[derive(Clone, Debug)]
pub struct AmiConfig {
    pub allows: Option<Vec<String>>,
}

/// Whether an address is one of the loopback names.
pub open spec fn is_loopback_name(addr: Seq<char>) -> bool {
    addr == "127.0.0.1"@ || addr == "::1"@ || addr == "localhost"@
}

impl AmiConfig {
    /// With an allow list: the address or `*` is listed. Without one: loopback only.
    pub open spec fn is_allowed_spec(self, addr: Seq<char>) -> bool {
        match self.allows {
            Some(list) => exists|i: int|
                0 <= i < list.len() && (#[trigger] list[i]@ == addr || list[i]@ == "*"@),
            None => is_loopback_name(addr),
        }
    }

    /// Whether AMI requests from `addr` are allowed.
    pub fn is_allowed(&self, addr: &str) -> (r: bool)
        ensures
            r == self.is_allowed_spec(addr@),
    {
        match &self.allows {
            Some(allows) => {
                let n = allows.len();
                let mut i: usize = 0;
                while i < n
                    invariant
                        i <= n == allows.len(),
                        self.allows == Some(*allows),
                        forall|j: int|
                            0 <= j < i ==> !(#[trigger] allows@[j]@ == addr@ || allows@[j]@
                                == "*"@),
                    decreases n - i,
                {
                    let a = allows[i].as_str();
                    if str_eq(a, addr) || str_eq(a, "*") {
                        assert(self.allows->0[i as int]@ == addr@ || self.allows->0[i as int]@
                            == "*"@);
                        return true;
                    }
                    i = i + 1;
                }
                false
            },
            None => str_eq(addr, "127.0.0.1") || str_eq(addr, "::1") || str_eq(addr, "localhost"),
        }
    }
}

impl Default for AmiConfig {
    fn default() -> (r: Self)
        ensures
            r.allows is None,
    {
        AmiConfig { allows: None }
    }
}

} // verus!
