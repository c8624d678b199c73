//! Call recording policy.

use crate::text::{is_blank, trim, trim_spec};
use vstd::prelude::*;

verus! {

/// Directory that recordings go to when no path is configured.
pub open spec fn default_recorder_dir() -> Seq<char> {
    "./config/recorders"@
}

/// Directory that recordings go to when no path is configured.
pub fn default_config_recorder_path() -> (r: String)
    ensures
        r@ == default_recorder_dir(),
{
    "./config/recorders".to_owned()
}

pub proof fn lemma_default_recorder_dir_trimmed()
    ensures
        trim_spec(default_recorder_dir()) == default_recorder_dir(),
        default_recorder_dir().len() > 0,
{
    reveal_strlit("./config/recorders");
    let s = default_recorder_dir();
    assert(!crate::text::is_ws(s[0]));
    assert(!crate::text::is_ws(s.last()));
}

/// Direction of a call, as the dialplan sees it.
#[derive(Clone, Copy, Debug, PartialEq, Eq, Structural)]
pub enum DialDirection {
    Inbound,
    Outbound,
    Internal,
}

/// Direction of calls that a recording policy applies to.
#[derive(Clone, Copy, Debug, PartialEq, Eq, Structural)]
pub enum RecordingDirection {
    Inbound,
    Outbound,
    Internal,
}

/// Whether a recording direction names the same direction as a dial direction.
pub open spec fn direction_matches(r: RecordingDirection, d: DialDirection) -> bool {
    match (r, d) {
        (RecordingDirection::Inbound, DialDirection::Inbound) => true,
        (RecordingDirection::Outbound, DialDirection::Outbound) => true,
        (RecordingDirection::Internal, DialDirection::Internal) => true,
        _ => false,
    }
}

impl RecordingDirection {
    /// Whether this direction names the direction of the call.
    pub fn matches(&self, direction: &DialDirection) -> (r: bool)
        ensures
            r == direction_matches(*self, *direction),
    {
        match (self, direction) {
            (RecordingDirection::Inbound, DialDirection::Inbound) => true,
            (RecordingDirection::Outbound, DialDirection::Outbound) => true,
            (RecordingDirection::Internal, DialDirection::Internal) => true,
            _ => false,
        }
    }
}

/// Recording settings handed to a call.
#[derive(Clone, Debug)]
pub struct CallRecordingConfig {
    pub enabled: bool,
    pub auto_start: bool,
}

/// Which calls are recorded, and where recordings go.
#[derive(Clone, Debug)]
pub struct RecordingPolicy {
    pub enabled: bool,
    pub directions: Vec<RecordingDirection>,
    pub caller_allow: Vec<String>,
    pub caller_deny: Vec<String>,
    pub callee_allow: Vec<String>,
    pub callee_deny: Vec<String>,
    pub auto_start: Option<bool>,
    pub filename_pattern: Option<String>,
    pub samplerate: Option<u32>,
    pub ptime: Option<u32>,
    pub path: Option<String>,
}

/// Whether a configured path holds something other than white space.
pub open spec fn path_is_set(path: Option<String>) -> bool {
    path matches Some(p) && trim_spec(p@).len() > 0
}

impl RecordingPolicy {
    /// The directory that recordings go to: the configured path without
    /// surrounding white space, or the default directory when none is set.
    pub open spec fn recorder_path_spec(self) -> Seq<char> {
        if path_is_set(self.path) {
            trim_spec(self.path->0@)
        } else {
            default_recorder_dir()
        }
    }

    /// Recording settings for a new call: enabled as the policy says, started
    /// automatically unless the policy says otherwise.
    pub fn new_recording_config(&self) -> (r: CallRecordingConfig)
        ensures
            r.enabled == self.enabled,
            r.auto_start == (match self.auto_start {
                Some(b) => b,
                None => true,
            }),
    {
        CallRecordingConfig {
            enabled: self.enabled,
            auto_start: match self.auto_start {
                Some(b) => b,
                None => true,
            },
        }
    }

    /// The directory that recordings go to.
    pub fn recorder_path(&self) -> (r: String)
        ensures
            r@ == self.recorder_path_spec(),
    {
        match &self.path {
            Some(p) => {
                let t = trim(p.as_str());
                if !t.is_empty() {
                    return t.to_owned();
                }
            },
            None => {},
        }
        default_config_recorder_path()
    }

    /// Fills in the default path where none is set; returns whether it did.
    pub fn ensure_defaults(&mut self) -> (changed: bool)
        ensures
            changed == !path_is_set(old(self).path),
            path_is_set(final(self).path),
            !changed ==> *final(self) == *old(self),
            changed ==> (final(self).path matches Some(p) && p@ == default_recorder_dir()),
            changed ==> (*final(self) == RecordingPolicy { path: final(self).path, ..*old(self) }),
            final(self).recorder_path_spec() == old(self).recorder_path_spec(),
    {
        let unset = match &self.path {
            Some(p) => is_blank(p.as_str()),
            None => true,
        };
        if unset {
            self.path = Some(default_config_recorder_path());
            proof {
                lemma_default_recorder_dir_trimmed();
            }
            true
        } else {
            false
        }
    }
}

impl Default for RecordingPolicy {
    fn default() -> (r: Self)
        ensures
            !r.enabled,
            r.directions@.len() == 0,
            r.caller_allow@.len() == 0,
            r.caller_deny@.len() == 0,
            r.callee_allow@.len() == 0,
            r.callee_deny@.len() == 0,
            r.auto_start is None,
            r.filename_pattern is None,
            r.samplerate is None,
            r.ptime is None,
            r.path is None,
    {
        RecordingPolicy {
            enabled: false,
            directions: Vec::new(),
            caller_allow: Vec::new(),
            caller_deny: Vec::new(),
            callee_allow: Vec::new(),
            callee_deny: Vec::new(),
            auto_start: None,
            filename_pattern: None,
            samplerate: None,
            ptime: None,
            path: None,
        }
    }
}

/// A recording direction applies to a call exactly when both name the same
/// direction; so each recording direction applies to one call direction only,
/// and each call direction is matched by one recording direction only.
pub proof fn lemma_direction_matches_same_direction(r: RecordingDirection, d: DialDirection)
    ensures
        direction_matches(r, d) <==> (r is Inbound && d is Inbound) || (r is Outbound
            && d is Outbound) || (r is Internal && d is Internal),
        forall|d2: DialDirection| direction_matches(r, d) && direction_matches(r, d2) ==> d2 == d,
        forall|r2: RecordingDirection|
            direction_matches(r, d) && direction_matches(r2, d) ==> r2 == r,
{
}

} // verus!
