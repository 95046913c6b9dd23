//! Configuration and identity records, and the decisions the loader makes.
//!
//! The records mirror the TOML configuration the agent is started with.
//! Reading and parsing the files is I/O and happens outside the crate; the
//! functions here state which file the loader must use and what must happen
//! to a freshly pushed configuration.

use vstd::prelude::*;

verus! {

/// The stable device identity.
pub struct Identity {
    pub uid: String,
    pub domain: String,
}

/// Timing parameters: heartbeat period and the retry sleep bounds.
pub struct Time {
    pub heartbeat_s: u64,
    pub sleep_max_s: u64,
    pub sleep_min_s: u64,
}

/// One CAN bus to open.
pub struct CanPort {
    pub name: String,
    pub bitrate: Option<u32>,
    pub listen_only: Option<bool>,
}

/// The CAN block of the configuration.
pub struct CanConfig {
    pub ports: Option<Vec<CanPort>>,
    pub dbc_file: Option<String>,
}

/// One digital input line, named internally (kernel name) and externally.
pub struct DigitalInPort {
    pub internal_name: String,
    pub external_name: String,
}

/// The digital-input block of the configuration.
pub struct DigitalInConfig {
    pub ports: Option<Vec<DigitalInPort>>,
}

/// One digital output line with the level it must rest at.
pub struct DigitalOutPort {
    pub internal_name: String,
    pub external_name: String,
    pub default_state: u8,
}

/// The mathematical shape of a digital output line.
pub struct DigitalOutPortModel {
    pub internal_name: Seq<char>,
    pub external_name: Seq<char>,
    pub default_state: u8,
}

impl View for DigitalOutPort {
    type V = DigitalOutPortModel;

    open spec fn view(&self) -> DigitalOutPortModel {
        DigitalOutPortModel {
            internal_name: self.internal_name@,
            external_name: self.external_name@,
            default_state: self.default_state,
        }
    }
}

impl DigitalOutPort {
    /// A copy of the port record.
    pub fn clone_port(&self) -> (p: DigitalOutPort)
        ensures
            p@ == self@,
    {
        DigitalOutPort {
            internal_name: self.internal_name.clone(),
            external_name: self.external_name.clone(),
            default_state: self.default_state,
        }
    }
}

/// The digital-output block of the configuration.
pub struct DigitalOutConfig {
    pub ports: Option<Vec<DigitalOutPort>>,
}

/// The whole per-process configuration, immutable once loaded.
pub struct Config {
    pub can: Option<CanConfig>,
    pub digital_in: Option<DigitalInConfig>,
    pub digital_out: Option<DigitalOutConfig>,
    pub time: Time,
}

/// What the loader must do with a freshly pushed configuration file.
pub enum NewConfigDisposition {
    /// The new file parses: rename it over the regular file and use it.
    Promote,
    /// The new file exists but does not parse: delete it and fall back.
    Discard,
    /// No new file was pushed.
    Absent,
}

/// Which base configuration file the loader must read.
pub enum ConfigSource {
    Local,
    Fallback,
}

/// Decides the fate of a freshly pushed configuration file from whether it
/// is present and whether its contents parse.
pub fn assess_new_config(present: bool, parses: bool) -> (d: NewConfigDisposition)
    ensures
        present && parses ==> (d is Promote),
        present && !parses ==> (d is Discard),
        !present ==> (d is Absent),
{
    if present {
        if parses {
            NewConfigDisposition::Promote
        } else {
            NewConfigDisposition::Discard
        }
    } else {
        NewConfigDisposition::Absent
    }
}

/// Picks the regular configuration file when it can be read, and the shipped
/// fallback otherwise.
pub fn choose_config_source(local_readable: bool) -> (s: ConfigSource)
    ensures
        local_readable ==> (s is Local),
        !local_readable ==> (s is Fallback),
{
    if local_readable {
        ConfigSource::Local
    } else {
        ConfigSource::Fallback
    }
}

} // verus!
