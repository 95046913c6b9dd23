//! The reply dispatcher and the retry back-off.
//!
//! Every server reply carries one action; `handle_reply` turns it into the
//! effect the surrounding program must perform, resetting the retry sleep.
//! A transport failure instead goes through `handle_failure`, which draws a
//! jittered sleep, doubles the stored sleep for the next round, and tells
//! the caller whether the timeout exit fires.

use vstd::prelude::*;
use rand::Rng;
use crate::config::Identity;
use crate::text::dec_str;
use crate::utils::{last_segment, resource_target, spec_major, update_client, UpgradeDecision};

verus! {

/// The action a server reply carries.
pub enum Action {
    /// All is well; carry on.
    CarryOn,
    /// Terminate the process with this exit code.
    Exit(i32),
    /// The server asks for a remote-control session.
    ControlRequest,
    /// A new configuration to store before restarting.
    ConfigUpdate(Vec<u8>),
    /// A new device identity to store before restarting.
    IdentityUpdate(Identity),
    /// A resource to download into the configuration directory.
    FetchResource { url: String, target_location: Option<String> },
    /// A software version the device is asked to upgrade to.
    SwUpdate(String),
}

/// What the program must do about a server reply.
pub enum ReplyEffect {
    /// Report success to the submitting caller.
    Proceed,
    /// Restore output defaults and terminate with this exit code.
    ExitProcess { code: i32 },
    /// Wake the remote-control session task.
    ReleaseControlGate,
    /// A control session is already running or blocked: log and ignore.
    IgnoreControlRequest,
    /// Write these bytes to the staged configuration file, restore output
    /// defaults, and exit cleanly.
    WriteNewConfig { contents: Vec<u8> },
    /// Store this identity, restore output defaults, and exit cleanly.
    WriteIdentity { identity: Identity },
    /// Download the URL to this file name, restore output defaults, and
    /// exit cleanly.
    FetchResource { url: String, target: String },
    /// Write the required major version to the upgrade file, restore output
    /// defaults, and exit with the upgrade code.
    TriggerUpgrade { major: u32, file_contents: String },
    /// The required version is not newer: log and carry on.
    UpgradeRejected,
    /// A version string could not be read: fail as the protocol demands.
    UpgradeMalformed,
}

/// Turns a server reply into the effect the program must perform.  Every
/// action resets the stored retry sleep to the configured minimum; only a
/// terminating `Exit` leaves it alone.
pub fn handle_reply(
    action: Action,
    in_process: bool,
    current_version: &str,
    s: &mut u64,
    sleep_min_s: u64,
) -> (e: ReplyEffect)
    ensures
        match action {
            Action::Exit(_) => *final(s) == *old(s),
            _ => *final(s) == sleep_min_s,
        },
        match action {
            Action::CarryOn => (e is Proceed),
            Action::Exit(code) => (e matches ReplyEffect::ExitProcess { code: c } && c == code),
            Action::ControlRequest => e == (if in_process {
                ReplyEffect::IgnoreControlRequest
            } else {
                ReplyEffect::ReleaseControlGate
            }),
            Action::ConfigUpdate(bytes) => (e matches ReplyEffect::WriteNewConfig { contents }
                && contents@ == bytes@),
            Action::IdentityUpdate(id) => (e matches ReplyEffect::WriteIdentity { identity }
                && identity.uid@ == id.uid@ && identity.domain@ == id.domain@),
            Action::FetchResource { url, target_location } => (e
                matches ReplyEffect::FetchResource { url: u, target } && u@ == url@ && (match target_location {
                Option::Some(t) => target@ == t@,
                Option::None => target@ == last_segment(url@),
            })),
            Action::SwUpdate(version) => (match (
                spec_major(current_version@),
                spec_major(version@),
            ) {
                (Option::Some(c), Option::Some(rq)) => {
                    if c < rq {
                        (e matches ReplyEffect::TriggerUpgrade { major, file_contents } && major
                            == rq && file_contents@ == dec_str(rq as nat))
                    } else {
                        (e is UpgradeRejected)
                    }
                },
                _ => (e is UpgradeMalformed),
            }),
        },
{
    match action {
        Action::CarryOn => {
            *s = sleep_min_s;
            ReplyEffect::Proceed
        },
        Action::Exit(code) => ReplyEffect::ExitProcess { code },
        Action::ControlRequest => {
            *s = sleep_min_s;
            if in_process {
                ReplyEffect::IgnoreControlRequest
            } else {
                ReplyEffect::ReleaseControlGate
            }
        },
        Action::ConfigUpdate(bytes) => {
            *s = sleep_min_s;
            ReplyEffect::WriteNewConfig { contents: bytes }
        },
        Action::IdentityUpdate(id) => {
            *s = sleep_min_s;
            ReplyEffect::WriteIdentity { identity: id }
        },
        Action::FetchResource { url, target_location } => {
            *s = sleep_min_s;
            let target = resource_target(url.as_str(), target_location);
            ReplyEffect::FetchResource { url, target }
        },
        Action::SwUpdate(version) => {
            *s = sleep_min_s;
            match update_client(current_version, version.as_str()) {
                UpgradeDecision::Upgrade { major, file_contents } => ReplyEffect::TriggerUpgrade {
                    major,
                    file_contents,
                },
                UpgradeDecision::NotNewer => ReplyEffect::UpgradeRejected,
                UpgradeDecision::Malformed => ReplyEffect::UpgradeMalformed,
            }
        },
    }
}

/// Relies on rand: `thread_rng().gen_range` over a non-empty inclusive
/// range returns a value inside the range.
#[verifier::external_body]
fn random_in_range(lo: u64, hi: u64) -> (r: u64)
    requires
        lo <= hi,
    ensures
        lo <= r <= hi,
{
    rand::thread_rng().gen_range(lo..=hi)
}

/// What a transport failure leads to: how long to sleep now, and whether
/// the timeout exit fires instead of another retry.
pub struct BackoffOutcome {
    pub sleep_s: u64,
    pub etime_exit: bool,
}

/// The deterministic part of the back-off: clamps the drawn sleep to the
/// maximum, and fires the timeout exit exactly when the stored sleep had
/// already outgrown the maximum.
pub fn backoff_decision(s: u64, jitter: u64, sleep_max_s: u64) -> (b: BackoffOutcome)
    ensures
        b.sleep_s == (if jitter <= sleep_max_s {
            jitter
        } else {
            sleep_max_s
        }),
        b.etime_exit == (s > sleep_max_s),
{
    let sleep_s = if jitter <= sleep_max_s {
        jitter
    } else {
        sleep_max_s
    };
    BackoffOutcome { sleep_s, etime_exit: s > sleep_max_s }
}

/// Doubles the stored sleep, saturating; the sleep never shrinks.
pub fn double_sleep(s: u64) -> (r: u64)
    ensures
        r == (if s <= u64::MAX / 2 {
            2 * s
        } else {
            u64::MAX as int
        }),
        r >= s,
{
    if s <= u64::MAX / 2 {
        2 * s
    } else {
        u64::MAX
    }
}

/// Handles a transport failure: draws a sleep jittered within ten percent
/// of the stored value so that retrying clients spread out, clamps it to
/// the maximum, and — unless the timeout exit fires — doubles the stored
/// sleep for the next failure.  The stored sleep never decreases, which is
/// what drives the eventual timeout exit.
pub fn handle_failure(s: &mut u64, sleep_max_s: u64) -> (b: BackoffOutcome)
    ensures
        b.sleep_s <= sleep_max_s,
        old(s) - old(s) / 10 <= sleep_max_s ==> b.sleep_s >= old(s) - old(s) / 10,
        old(s) - old(s) / 10 > sleep_max_s ==> b.sleep_s == sleep_max_s,
        b.etime_exit == (*old(s) > sleep_max_s),
        b.etime_exit ==> *final(s) == *old(s),
        !b.etime_exit ==> *final(s) == (if *old(s) <= u64::MAX / 2 {
            2 * *old(s)
        } else {
            u64::MAX as int
        }),
        *final(s) >= *old(s),
{
    let tenth = *s / 10;
    let lo = *s - tenth;
    let hi = if *s <= u64::MAX - tenth {
        *s + tenth
    } else {
        u64::MAX
    };
    let jitter = random_in_range(lo, hi);
    let b = backoff_decision(*s, jitter, sleep_max_s);
    if !b.etime_exit {
        *s = double_sleep(*s);
    }
    b
}

} // verus!
