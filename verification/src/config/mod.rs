//! The configuration model: sections, their defaults and the rules that derive
//! directories and realms from them.

pub mod recording;

pub use recording::{
    default_config_recorder_path, CallRecordingConfig, DialDirection, RecordingDirection,
    RecordingPolicy,
};

pub mod sections;

pub use sections::{
    default_acme_renewal_threshold_hours, default_console_base_path,
    default_console_session_secret, default_healthz_path, default_locale, default_locales,
    default_metrics_enabled, default_metrics_path, default_sipflow_flush_count,
    default_sipflow_flush_interval, default_sipflow_id_cache_size, default_sipflow_timeout,
    default_transfer_3pcc_fallback_enabled, default_transfer_3pcc_timeout_secs,
    default_transfer_attended_enabled, default_transfer_max_concurrent,
    default_transfer_refer_enabled, default_transfer_refer_timeout_secs, AcmeConfig, AmiConfig,
    ArchiveConfig, CallRecordConfig, ConsoleConfig, EnterpriseAuthConfig, HttpRouterConfig,
    LocaleInfo, LocatorConfig, LocatorWebhookConfig, MediaProxyMode, MetricsConfig, RtpConfig,
    S3Vendor, SipFlowConfig, SipFlowSubdirs, SipFlowUploadConfig, SipUser, TransferConfig,
    UserBackendConfig,
};

pub mod proxy;

pub use proxy::{
    default_callid_suffix, default_generated_config_dir, default_nat_fix,
    default_passthrough_failure, default_user_backends, default_useragent, ProxyConfig,
    TrunkConfig,
};

pub mod settings;

pub use settings::{
    default_config_http_addr, default_config_rtp_end_port, default_config_rtp_start_port,
    default_config_webrtc_end_port, default_config_webrtc_start_port, default_database_url,
    Config,
};
