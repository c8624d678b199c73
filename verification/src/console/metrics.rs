//! Runtime metrics shown on the console dashboard.

use crate::config::MetricsConfig;
use vstd::prelude::*;

verus! {

/// System metrics (uptime, version, edition).
#[derive(Clone, Debug)]
pub struct SystemMetrics {
    pub uptime_seconds: i64,
    pub version: String,
    pub edition: String,
}

/// SIP layer metrics.
#[derive(Clone, Debug)]
pub struct SipMetrics {
    /// Current registered endpoints count
    pub registrations_active: u32,
    /// Total registration attempts
    pub registrations_total: u64,
    /// Successful registrations
    pub registrations_succeeded: u64,
    /// Failed registrations
    pub registrations_failed: u64,
    /// Active SIP dialogs
    pub dialogs_active: u32,
}

impl Default for SipMetrics {
    fn default() -> (r: Self)
        ensures
            r.registrations_active == 0 && r.registrations_total == 0,
            r.registrations_succeeded == 0 && r.registrations_failed == 0,
            r.dialogs_active == 0,
    {
        SipMetrics {
            registrations_active: 0,
            registrations_total: 0,
            registrations_succeeded: 0,
            registrations_failed: 0,
            dialogs_active: 0,
        }
    }
}

/// Call metrics.
#[derive(Clone, Debug)]
pub struct CallMetrics {
    /// Active calls right now
    pub active: u32,
    /// Call capacity
    pub capacity: u32,
    /// Utilization percentage
    pub utilization: u32,
}

impl Default for CallMetrics {
    fn default() -> (r: Self)
        ensures
            r.active == 0 && r.capacity == 0 && r.utilization == 0,
    {
        CallMetrics { active: 0, capacity: 0, utilization: 0 }
    }
}

/// Media metrics.
#[derive(Clone, Debug)]
pub struct MediaMetrics {
    /// WebRTC connections
    pub webrtc_connections: u64,
}

impl Default for MediaMetrics {
    fn default() -> (r: Self)
        ensures
            r.webrtc_connections == 0,
    {
        MediaMetrics { webrtc_connections: 0 }
    }
}

/// Voicemail metrics.
#[derive(Clone, Debug)]
pub struct VoicemailMetrics {
    /// Total messages today
    pub messages_today: u64,
    /// Active mailboxes
    pub active_mailboxes: u32,
}

impl Default for VoicemailMetrics {
    fn default() -> (r: Self)
        ensures
            r.messages_today == 0 && r.active_mailboxes == 0,
    {
        VoicemailMetrics { messages_today: 0, active_mailboxes: 0 }
    }
}

/// Runtime metrics collected from various sources.
#[derive(Clone, Debug)]
pub struct RuntimeMetrics {
    /// System metrics (uptime, memory, etc.)
    pub system: SystemMetrics,
    /// SIP layer metrics
    pub sip: SipMetrics,
    /// Call metrics
    pub calls: CallMetrics,
    /// Media metrics
    pub media: MediaMetrics,
    /// Voicemail metrics
    pub voicemail: VoicemailMetrics,
    /// Timestamp when metrics were collected
    pub collected_at: String,
}

/// Prometheus endpoint configuration for the dashboard.
#[derive(Clone, Debug)]
pub struct PrometheusConfig {
    /// Whether the metrics endpoint is enabled
    pub enabled: bool,
    /// The metrics endpoint path (e.g., "/metrics")
    pub path: String,
    /// Whether authentication is required
    pub auth_required: bool,
}

/// The metrics endpoint as the dashboard shows it. With the application
/// running (`app_metrics` given), the configured metrics section, or the
/// default one; without it, a disabled endpoint at `/metrics`.
pub fn get_prometheus_config(app_metrics: Option<&Option<MetricsConfig>>) -> (r: PrometheusConfig)
    ensures
        match app_metrics {
            Some(Some(cfg)) => r.enabled == cfg.enabled && r.path@ == cfg.path@ && r.auth_required
                == (cfg.token is Some),
            Some(None) => r.enabled && r.path@ == "/metrics"@ && !r.auth_required,
            None => !r.enabled && r.path@ == "/metrics"@ && !r.auth_required,
        },
{
    match app_metrics {
        Some(Some(cfg)) => PrometheusConfig {
            enabled: cfg.enabled,
            path: cfg.path.clone(),
            auth_required: cfg.token.is_some(),
        },
        Some(None) => {
            let cfg = MetricsConfig::default();
            PrometheusConfig {
                enabled: cfg.enabled,
                path: cfg.path,
                auth_required: cfg.token.is_some(),
            }
        },
        None => PrometheusConfig { enabled: false, path: "/metrics".to_owned(), auth_required: false },
    }
}

/// System metrics: the uptime when the application is running (else 0), the
/// short version and the edition.
pub fn collect_system_metrics(uptime_seconds: Option<i64>, short_version: &str) -> (r: SystemMetrics)
    ensures
        r.uptime_seconds == (match uptime_seconds {
            Some(u) => u,
            None => 0,
        }),
        r.version@ == short_version@,
        r.edition@ == "full"@,
{
    SystemMetrics {
        uptime_seconds: match uptime_seconds {
            Some(u) => u,
            None => 0,
        },
        version: short_version.to_owned(),
        edition: "full".to_owned(),
    }
}

/// SIP metrics: the number of active dialogs when the SIP server runs, the
/// other counters at 0.
pub fn collect_sip_metrics(active_dialogs: Option<usize>) -> (r: SipMetrics)
    ensures
        r.dialogs_active == (match active_dialogs {
            Some(n) => n as u32,
            None => 0,
        }),
        r.registrations_active == 0 && r.registrations_total == 0,
        r.registrations_succeeded == 0 && r.registrations_failed == 0,
{
    let mut metrics = SipMetrics::default();
    match active_dialogs {
        Some(n) => {
            metrics.dialogs_active = n as u32;
        },
        None => {},
    }
    metrics
}

/// Active calls and capacity, as 32-bit counts: those of the SIP server when
/// it runs (capacity 0 without a concurrency limit), else 0 and 0.
pub fn call_counts(server: Option<(usize, Option<usize>)>) -> (r: (u32, u32))
    ensures
        r == (match server {
            Some((active, limit)) => (active as u32, match limit {
                Some(l) => l as u32,
                None => 0u32,
            }),
            None => (0u32, 0u32),
        }),
{
    match server {
        Some((active, limit)) => (
            active as u32,
            match limit {
                Some(l) => l as u32,
                None => 0,
            },
        ),
        None => (0, 0),
    }
}

/// The dashboard metrics, with media and voicemail counters at 0.
pub fn collect_runtime_metrics(
    system: SystemMetrics,
    sip: SipMetrics,
    calls: CallMetrics,
    collected_at: String,
) -> (r: RuntimeMetrics)
    ensures
        r.system == system,
        r.sip == sip,
        r.calls == calls,
        r.media.webrtc_connections == 0,
        r.voicemail.messages_today == 0 && r.voicemail.active_mailboxes == 0,
        r.collected_at == collected_at,
{
    RuntimeMetrics {
        system,
        sip,
        calls,
        media: MediaMetrics::default(),
        voicemail: VoicemailMetrics::default(),
        collected_at,
    }
}

} // verus!
