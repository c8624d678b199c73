//! The whole configuration and the directories derived from it.

use super::proxy::{
    is_default_proxy, lemma_proxy_defaults_idempotent, policy_defaults_applied,
    proxy_defaults_applied, recording_path_missing, recording_paths_set, ProxyConfig,
};
use super::recording::{
    default_config_recorder_path, default_recorder_dir, path_is_set, RecordingPolicy,
};
use super::sections::{
    derived_archive_dir, keys_distinct, AcmeConfig, AmiConfig, ArchiveConfig, CallRecordConfig, ConsoleConfig,
    EnterpriseAuthConfig, MetricsConfig, RtpConfig, SipFlowConfig, TransferConfig,
};
use crate::text::{concat, str_eq, strip_end, strip_end_spec};
use crate::version::BuildInfo;
use vstd::prelude::*;

verus! {

pub fn default_config_http_addr() -> (r: String)
    ensures
        r@ == "0.0.0.0:8080"@,
{
    "0.0.0.0:8080".to_owned()
}

pub fn default_database_url() -> (r: String)
    ensures
        r@ == "sqlite://rustpbx.sqlite3"@,
{
    "sqlite://rustpbx.sqlite3".to_owned()
}

pub fn default_config_rtp_start_port() -> (r: Option<u16>)
    ensures
        r == Some(12000u16),
{
    Some(12000)
}

pub fn default_config_rtp_end_port() -> (r: Option<u16>)
    ensures
        r == Some(42000u16),
{
    Some(42000)
}

pub fn default_config_webrtc_start_port() -> (r: Option<u16>)
    ensures
        r == Some(30000u16),
{
    Some(30000)
}

pub fn default_config_webrtc_end_port() -> (r: Option<u16>)
    ensures
        r == Some(40000u16),
{
    Some(40000)
}

fn clone_opt_string(o: &Option<String>) -> (r: Option<String>)
    ensures
        r == *o,
{
    match o {
        Some(s) => Some(s.clone()),
        None => None,
    }
}

fn clone_ice_servers(o: &Option<Vec<rustrtc::IceServer>>) -> (r: Option<Vec<rustrtc::IceServer>>)
    ensures
        r is Some <==> o is Some,
        r is Some ==> r->0@.len() == o->0@.len(),
        r is Some ==> forall|i: int|
            0 <= i < o->0@.len() ==> cloned::<rustrtc::IceServer>(o->0@[i], #[trigger] r->0@[i]),
{
    match o {
        Some(v) => Some(v.clone()),
        None => None,
    }
}

/// The whole configuration.
#[derive(Clone, Debug)]
pub struct Config {
    pub http_addr: String,
    pub http_gzip: bool,
    pub https_addr: Option<String>,
    pub ssl_certificate: Option<String>,
    pub ssl_private_key: Option<String>,
    pub log_level: Option<String>,
    pub log_file: Option<String>,
    pub http_access_skip_paths: Vec<String>,
    pub proxy: ProxyConfig,
    pub external_ip: Option<String>,
    pub rtp_start_port: Option<u16>,
    pub rtp_end_port: Option<u16>,
    pub webrtc_port_start: Option<u16>,
    pub webrtc_port_end: Option<u16>,
    pub callrecord: Option<CallRecordConfig>,
    pub ice_servers: Option<Vec<rustrtc::IceServer>>,
    pub ami: Option<AmiConfig>,
    pub console: Option<ConsoleConfig>,
    pub database_url: String,
    pub recording: Option<RecordingPolicy>,
    pub archive: Option<ArchiveConfig>,
    pub demo_mode: bool,
    /// Settings of each addon, by addon id
    pub addons: Vec<(String, Vec<(String, String)>)>,
    pub sipflow: Option<SipFlowConfig>,
    pub metrics: Option<MetricsConfig>,
    pub enterprise_auth: Option<EnterpriseAuthConfig>,
    /// ACME Let's Encrypt configuration for auto-certificate renewal
    pub acme: Option<AcmeConfig>,
    /// Transfer configuration for call transfer features
    pub transfer: Option<TransferConfig>,
}

/// Whether the value of the demo-mode environment variable turns demo mode on.
pub open spec fn demo_mode_requested(value: Option<Seq<char>>) -> bool {
    value matches Some(v) && (v == "true"@ || v == "1"@)
}

impl Config {
    /// The directory recordings go to: that of the recording policy, else the default.
    pub open spec fn recorder_path_spec(self) -> Seq<char> {
        match self.recording {
            Some(p) => p.recorder_path_spec(),
            None => default_recorder_dir(),
        }
    }

    /// Whether every recording policy of the configuration has a path set.
    pub open spec fn recording_paths_set(self) -> bool {
        &&& (self.recording matches Some(r) ==> path_is_set(r.path))
        &&& recording_paths_set(self.proxy)
    }

    /// Whether some recording policy of the configuration lacks a path.
    pub open spec fn recording_path_missing(self) -> bool {
        (self.recording matches Some(r) && !path_is_set(r.path)) || recording_path_missing(
            self.proxy,
        )
    }

    /// `new` is `old` with recording defaults applied everywhere, and nothing else changed.
    pub open spec fn defaults_applied(old: Config, new: Config) -> bool {
        &&& policy_defaults_applied(old.recording, new.recording)
        &&& proxy_defaults_applied(old.proxy, new.proxy)
        &&& new == (Config { recording: new.recording, proxy: new.proxy, ..old })
    }

    /// Media settings taken from the configuration.
    pub fn rtp_config(&self) -> (r: RtpConfig)
        ensures
            r.external_ip == self.external_ip,
            r.start_port == self.rtp_start_port,
            r.end_port == self.rtp_end_port,
            r.webrtc_start_port == self.webrtc_port_start,
            r.webrtc_end_port == self.webrtc_port_end,
            r.ice_servers is Some <==> self.ice_servers is Some,
            r.ice_servers is Some ==> r.ice_servers->0@.len() == self.ice_servers->0@.len(),
            r.ice_servers is Some ==> forall|i: int|
                0 <= i < self.ice_servers->0@.len() ==> cloned::<rustrtc::IceServer>(
                    self.ice_servers->0@[i],
                    #[trigger] r.ice_servers->0@[i],
                ),
    {
        RtpConfig {
            external_ip: clone_opt_string(&self.external_ip),
            start_port: self.rtp_start_port,
            end_port: self.rtp_end_port,
            webrtc_start_port: self.webrtc_port_start,
            webrtc_end_port: self.webrtc_port_end,
            ice_servers: clone_ice_servers(&self.ice_servers),
        }
    }

    /// The directory recordings go to.
    pub fn recorder_path(&self) -> (r: String)
        ensures
            r@ == self.recorder_path_spec(),
    {
        match &self.recording {
            Some(policy) => policy.recorder_path(),
            None => default_config_recorder_path(),
        }
    }

    /// Fills in the default recorder path of every recording policy that lacks
    /// one; returns whether any lacked one.
    pub fn ensure_recording_defaults(&mut self) -> (fallback: bool)
        ensures
            fallback == old(self).recording_path_missing(),
            final(self).recording_paths_set(),
            Config::defaults_applied(*old(self), *final(self)),
            final(self).recorder_path_spec() == old(self).recorder_path_spec(),
            keys_distinct(old(self).proxy.trunks@) ==> keys_distinct(final(self).proxy.trunks@),
    {
        let mut fallback = match &mut self.recording {
            Some(policy) => policy.ensure_defaults(),
            None => false,
        };
        let changed = self.proxy.ensure_recording_defaults();
        fallback = fallback || changed;
        fallback
    }

    /// The directory of generated configuration files.
    pub fn config_dir(&self) -> (r: String)
        ensures
            r@ == self.proxy.root_dir(),
    {
        self.proxy.generated_root_dir()
    }

    /// The archive directory: that of the archive section, else `archive` below
    /// the recorder path.
    pub open spec fn archive_dir_spec(self) -> Seq<char> {
        match self.archive {
            Some(a) => a.effective_archive_dir_spec(self.recorder_path_spec()),
            None => derived_archive_dir(self.recorder_path_spec()),
        }
    }

    /// Returns the effective archive directory.
    /// Uses archive.archive_dir if set, otherwise derives from recording path.
    pub fn archive_dir(&self) -> (r: String)
        ensures
            r@ == self.archive_dir_spec(),
    {
        let recorder = self.recorder_path();
        match &self.archive {
            Some(archive) => archive.effective_archive_dir(recorder.as_str()),
            None => concat(strip_end(recorder.as_str(), '/'), "/archive"),
        }
    }

    /// Returns the wholesale bills directory: `wholesale_bills` below the recorder path.
    pub fn wholesale_bills_dir(&self) -> (r: String)
        ensures
            r@ == strip_end_spec(self.recorder_path_spec(), '/') + "/wholesale_bills"@,
    {
        let recorder = self.recorder_path();
        concat(strip_end(recorder.as_str(), '/'), "/wholesale_bills")
    }

    /// Completes a configuration just read: demo mode is turned on when the
    /// demo-mode environment variable says `true` or `1`, then recording
    /// defaults are filled in.
    pub fn finish_load(&mut self, demo_mode_env: Option<&str>)
        ensures
            final(self).demo_mode == (old(self).demo_mode || demo_mode_requested(
                match demo_mode_env {
                    Some(v) => Some(v@),
                    None => None,
                },
            )),
            final(self).recording_paths_set(),
            Config::defaults_applied(
                Config { demo_mode: final(self).demo_mode, ..*old(self) },
                *final(self),
            ),
            keys_distinct(old(self).proxy.trunks@) ==> keys_distinct(final(self).proxy.trunks@),
    {
        match demo_mode_env {
            Some(v) => {
                if str_eq(v, "true") || str_eq(v, "1") {
                    self.demo_mode = true;
                }
            },
            None => {},
        }
        self.ensure_recording_defaults();
    }

    /// The configuration with every default filled in.
    pub fn default_for(build: &BuildInfo) -> (r: Config)
        ensures
            r.http_addr@ == "0.0.0.0:8080"@,
            !r.http_gzip,
            r.https_addr is None && r.ssl_certificate is None && r.ssl_private_key is None,
            r.log_level is None && r.log_file is None,
            r.http_access_skip_paths@.len() == 0,
            is_default_proxy(r.proxy, *build),
            r.callrecord is None && r.ice_servers is None,
            r.ami matches Some(a) && a.allows is None,
            r.external_ip is None,
            r.rtp_start_port == Some(12000u16) && r.rtp_end_port == Some(42000u16),
            r.webrtc_port_start == Some(30000u16) && r.webrtc_port_end == Some(40000u16),
            r.console is None,
            r.database_url@ == "sqlite://rustpbx.sqlite3"@,
            r.recording is None && r.archive is None,
            !r.demo_mode,
            r.addons@.len() == 0 && keys_distinct(r.addons@),
            r.sipflow is None && r.metrics is None && r.enterprise_auth is None,
            r.acme is None && r.transfer is None,
    {
        Config {
            http_addr: default_config_http_addr(),
            http_gzip: false,
            https_addr: None,
            ssl_certificate: None,
            ssl_private_key: None,
            log_level: None,
            log_file: None,
            http_access_skip_paths: Vec::new(),
            proxy: ProxyConfig::default_for(build),
            callrecord: None,
            ice_servers: None,
            ami: Some(AmiConfig::default()),
            external_ip: None,
            rtp_start_port: default_config_rtp_start_port(),
            rtp_end_port: default_config_rtp_end_port(),
            webrtc_port_start: default_config_webrtc_start_port(),
            webrtc_port_end: default_config_webrtc_end_port(),
            console: None,
            database_url: default_database_url(),
            recording: None,
            archive: None,
            demo_mode: false,
            addons: Vec::new(),
            sipflow: None,
            metrics: None,
            enterprise_auth: None,
            acme: None,
            transfer: None,
        }
    }
}

/// Filling in recording defaults twice is filling them in once: the second
/// pass finds every path set and changes nothing.
pub proof fn lemma_config_defaults_idempotent(a: Config, b: Config, c: Config)
    requires
        Config::defaults_applied(a, b),
        Config::defaults_applied(b, c),
    ensures
        !b.recording_path_missing(),
        c.recording == b.recording,
        c.proxy.trunks@ == b.proxy.trunks@,
        c.proxy == (ProxyConfig { trunks: c.proxy.trunks, ..b.proxy }),
        c == (Config { proxy: c.proxy, ..b }),
{
    lemma_proxy_defaults_idempotent(a.proxy, b.proxy, c.proxy);
}

/// An archive section without a directory archives where a configuration
/// without an archive section would.
pub proof fn lemma_archive_without_dir(c: Config, a: ArchiveConfig)
    requires
        a.archive_dir is None,
    ensures
        (Config { archive: Some(a), ..c }).archive_dir_spec() == (Config {
            archive: None,
            ..c
        }).archive_dir_spec(),
{
}

} // verus!
