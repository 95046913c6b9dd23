//! The digital-output controller and the remote-control session.
//!
//! Digital outputs are driven to levels computed here; the GPIO writes
//! themselves happen outside the crate.  The remote-control session is a
//! state machine over the server-initiated command stream; every way of
//! leaving the active state restores the outputs to their defaults.

use vstd::prelude::*;
use crate::config::{DigitalOutConfig, DigitalOutPort, DigitalOutPortModel};
use crate::strmap::StrMap;
use crate::text::str_eq;

verus! {

/// A commanded output state.
#[derive(Clone, Copy, PartialEq, Eq, Structural, Debug)]
pub enum GpioState {
    Inactive,
    Active,
}

/// The digital-output table, keyed by external name.
pub type DigitalOutMap = StrMap<DigitalOutPort>;

/// The map a sequence of ports stands for, later ports overriding earlier
/// ones with the same external name.
pub open spec fn spec_out_map(ports: Seq<DigitalOutPort>) -> Map<Seq<char>, DigitalOutPortModel>
    decreases ports.len(),
{
    if ports.len() == 0 {
        Map::empty()
    } else {
        spec_out_map(ports.drop_last()).insert(ports.last().external_name@, ports.last()@)
    }
}

/// Builds the digital-output table from the configuration block, if one is
/// configured.
pub fn create_digital_out_map(config: &Option<DigitalOutConfig>) -> (m: Option<DigitalOutMap>)
    requires
        match config {
            Option::Some(c) => c.ports is Some,
            Option::None => true,
        },
    ensures
        match config {
            Option::None => m is None,
            Option::Some(c) => (m matches Option::Some(mm) && mm.wf() && mm@ == spec_out_map(
                c.ports->Some_0@,
            )),
        },
{
    let c = match config {
        Some(c) => c,
        None => {
            return None;
        },
    };
    let ports = match &c.ports {
        Some(p) => p,
        None => {
            return None;  // unreachable under the precondition
        },
    };
    let mut m: DigitalOutMap = StrMap::new();
    let n = ports.len();
    let mut i: usize = 0;
    proof {
        assert(ports@.take(0) =~= Seq::<DigitalOutPort>::empty());
    }
    while i < n
        invariant
            n == ports@.len(),
            0 <= i <= n,
            m.wf(),
            m@ == spec_out_map(ports@.take(i as int)),
        decreases n - i,
    {
        proof {
            assert(ports@.take(i as int + 1).drop_last() =~= ports@.take(i as int));
            assert(ports@.take(i as int + 1).last() == ports@[i as int]);
        }
        let p = &ports[i];
        m.set(p.external_name.clone(), p.clone_port());
        i += 1;
    }
    proof {
        assert(ports@.take(n as int) =~= ports@);
    }
    Some(m)
}

/// Every value of the digital-output table is one of the configured ports;
/// in particular, a bound that holds of every port's default level holds of
/// every table entry.
pub proof fn lemma_out_map_values(ports: Seq<DigitalOutPort>)
    ensures
        forall|k: Seq<char>|
            #[trigger] spec_out_map(ports).contains_key(k) ==> exists|i: int|
                0 <= i < ports.len() && spec_out_map(ports)[k] == ports[i]@,
    decreases ports.len(),
{
    if ports.len() > 0 {
        lemma_out_map_values(ports.drop_last());
        let prev = spec_out_map(ports.drop_last());
        let last = ports.last();
        assert forall|k: Seq<char>| #[trigger] spec_out_map(ports).contains_key(k) implies exists|
            i: int,
        | 0 <= i < ports.len() && spec_out_map(ports)[k] == ports[i]@ by {
            if k == last.external_name@ {
                assert(spec_out_map(ports)[k] == ports[ports.len() - 1]@);
            } else {
                assert(prev.contains_key(k));
                let i = choose|i: int|
                    0 <= i < ports.drop_last().len() && prev[k] == ports.drop_last()[i]@;
                assert(ports.drop_last()[i] == ports[i]);
                assert(spec_out_map(ports)[k] == ports[i]@);
            }
        }
    }
}

/// The level a commanded state drives a port to: `Active` means away from
/// the default, `Inactive` back to it.
pub open spec fn spec_level(default_state: u8, state: GpioState) -> u8 {
    if state is Active {
        (1 - default_state) as u8
    } else {
        default_state
    }
}

/// Computes the level to drive one port to for a commanded state.
pub fn digital_out_level(port: &DigitalOutPort, state: GpioState) -> (level: u8)
    requires
        port.default_state <= 1,
    ensures
        level == spec_level(port.default_state, state),
{
    match state {
        GpioState::Active => 1 - port.default_state,
        GpioState::Inactive => port.default_state,
    }
}

/// The levels restoring every output to its default: one pair of internal
/// name and default level per configured port.
pub fn restore_defaults_plan(ports: &Vec<DigitalOutPort>) -> (plan: Vec<(String, u8)>)
    ensures
        plan@.len() == ports@.len(),
        forall|i: int|
            0 <= i < ports@.len() ==> (#[trigger] plan@[i]).0@ == ports@[i].internal_name@
                && plan@[i].1 == ports@[i].default_state,
{
    let n = ports.len();
    let mut plan: Vec<(String, u8)> = Vec::new();
    let mut i: usize = 0;
    while i < n
        invariant
            n == ports@.len(),
            0 <= i <= n,
            plan@.len() == i,
            forall|j: int|
                0 <= j < i ==> (#[trigger] plan@[j]).0@ == ports@[j].internal_name@
                    && plan@[j].1 == ports@[j].default_state,
        decreases n - i,
    {
        plan.push((ports[i].internal_name.clone(), ports[i].default_state));
        i += 1;
    }
    plan
}

/// The clean-up every exit path runs: when digital outputs are configured,
/// the plan restoring each to its default; else nothing.
pub fn clean_up(digital_out: &Option<DigitalOutConfig>) -> (plan: Option<Vec<(String, u8)>>)
    requires
        match digital_out {
            Option::Some(c) => c.ports is Some,
            Option::None => true,
        },
    ensures
        match digital_out {
            Option::None => plan is None,
            Option::Some(c) => (plan matches Option::Some(p) && p@.len() == c.ports->Some_0@.len()
                && (forall|i: int|
                0 <= i < p@.len() ==> (#[trigger] p@[i]).0@ == c.ports->Some_0@[i].internal_name@
                    && p@[i].1 == c.ports->Some_0@[i].default_state)),
        },
{
    match digital_out {
        None => None,
        Some(c) => match &c.ports {
            Some(ports) => Some(restore_defaults_plan(ports)),
            None => None,  // unreachable under the precondition
        },
    }
}

/// One item of the control stream: an output's external name and the state
/// to drive it to, or the distinguished name "Close".
pub struct ControlCommand {
    pub cmd: String,
    pub state: GpioState,
}

/// The states of the remote-control session.
#[derive(Clone, Copy, PartialEq, Eq, Structural, Debug)]
pub enum SessionState {
    /// No session; control requests arm the session task.
    Idle,
    /// The dispatcher granted a session; the stream is about to open.
    Armed,
    /// The command stream is live and drives outputs.
    Active,
}

/// What the session task observes.
pub enum SessionEvent {
    /// The reply dispatcher let a control request through.
    ControlGranted,
    /// The command stream opened and the ready status went out.
    StreamOpened,
    /// The stream delivered a command.
    Command(ControlCommand),
    /// The stream delivered an error.
    StreamItemError,
    /// The stream ended.
    StreamClosed,
}

/// What the session task must do on a transition.
pub enum SessionEffect {
    /// Nothing.
    Nothing,
    /// Mark the session in process and open the command stream.
    OpenStream,
    /// Drive one output line to a level.
    Drive { internal_name: String, level: u8 },
    /// Log the unknown command and ignore it.
    InvalidCommand,
    /// Restore every output to its default and clear the in-process flag.
    EndSession,
}

/// The mathematical shape of a session effect.
pub enum EffectModel {
    Nothing,
    OpenStream,
    Drive { internal_name: Seq<char>, level: u8 },
    InvalidCommand,
    EndSession,
}

impl View for SessionEffect {
    type V = EffectModel;

    open spec fn view(&self) -> EffectModel {
        match self {
            SessionEffect::Nothing => EffectModel::Nothing,
            SessionEffect::OpenStream => EffectModel::OpenStream,
            SessionEffect::Drive { internal_name, level } => EffectModel::Drive {
                internal_name: internal_name@,
                level: *level,
            },
            SessionEffect::InvalidCommand => EffectModel::InvalidCommand,
            SessionEffect::EndSession => EffectModel::EndSession,
        }
    }
}

/// The transition function of the session: what state follows an event and
/// what the task must do.
pub open spec fn spec_session_step(
    state: SessionState,
    event: SessionEvent,
    m: Map<Seq<char>, DigitalOutPortModel>,
) -> (SessionState, EffectModel) {
    match (state, event) {
        (SessionState::Idle, SessionEvent::ControlGranted) => (
            SessionState::Armed,
            EffectModel::OpenStream,
        ),
        (SessionState::Armed, SessionEvent::StreamOpened) => (
            SessionState::Active,
            EffectModel::Nothing,
        ),
        (SessionState::Active, SessionEvent::Command(c)) => {
            if c.cmd@ == "Close"@ {
                (SessionState::Idle, EffectModel::EndSession)
            } else if !m.contains_key(c.cmd@) {
                (SessionState::Active, EffectModel::InvalidCommand)
            } else {
                (
                    SessionState::Active,
                    EffectModel::Drive {
                        internal_name: m[c.cmd@].internal_name,
                        level: spec_level(m[c.cmd@].default_state, c.state),
                    },
                )
            }
        },
        (SessionState::Active, SessionEvent::StreamItemError) => (
            SessionState::Idle,
            EffectModel::EndSession,
        ),
        (SessionState::Active, SessionEvent::StreamClosed) => (
            SessionState::Idle,
            EffectModel::EndSession,
        ),
        _ => (state, EffectModel::Nothing),
    }
}

/// Runs one step of the remote-control session.
pub fn session_step(state: SessionState, event: SessionEvent, out_map: &DigitalOutMap) -> (r: (
    SessionState,
    SessionEffect,
))
    requires
        out_map.wf(),
        forall|k: Seq<char>|
            out_map@.contains_key(k) ==> (#[trigger] out_map@[k]).default_state <= 1,
    ensures
        r.0 == spec_session_step(state, event, out_map@).0,
        r.1@ == spec_session_step(state, event, out_map@).1,
{
    match (state, event) {
        (SessionState::Idle, SessionEvent::ControlGranted) => (
            SessionState::Armed,
            SessionEffect::OpenStream,
        ),
        (SessionState::Armed, SessionEvent::StreamOpened) => (
            SessionState::Active,
            SessionEffect::Nothing,
        ),
        (SessionState::Active, SessionEvent::Command(c)) => {
            if str_eq(c.cmd.as_str(), "Close") {
                (SessionState::Idle, SessionEffect::EndSession)
            } else {
                match out_map.get(c.cmd.as_str()) {
                    None => (SessionState::Active, SessionEffect::InvalidCommand),
                    Some(port) => {
                        let level = digital_out_level(port, c.state);
                        (
                            SessionState::Active,
                            SessionEffect::Drive {
                                internal_name: port.internal_name.clone(),
                                level,
                            },
                        )
                    },
                }
            }
        },
        (SessionState::Active, SessionEvent::StreamItemError) => (
            SessionState::Idle,
            SessionEffect::EndSession,
        ),
        (SessionState::Active, SessionEvent::StreamClosed) => (
            SessionState::Idle,
            SessionEffect::EndSession,
        ),
        (st, _) => (st, SessionEffect::Nothing),
    }
}

/// Safe defaults on disconnect: every transition that leaves the active
/// session state ends the session, and ending the session restores the
/// outputs; so between any two sessions the outputs have been restored to
/// their defaults.
pub proof fn lemma_session_restores_on_exit(
    state: SessionState,
    event: SessionEvent,
    m: Map<Seq<char>, DigitalOutPortModel>,
)
    ensures
        ({
            let (next, eff) = spec_session_step(state, event, m);
            &&& ((state is Active && !(next is Active)) ==> (eff is EndSession))
            &&& ((eff is EndSession) ==> (next is Idle))
        }),
{
}

} // verus!
