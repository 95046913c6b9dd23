//! Per-bus frame processing and the send queue.
//!
//! A watcher reads frames from one bus.  For each frame whose id the DBC
//! knows, it decodes the message's signals in declaration order, resolves
//! multiplexing, suppresses values equal to the last one emitted under the
//! same signal name, and — when anything is left — wraps the new values in an
//! envelope for the send queue.  The sender drains the queue in batches of at
//! most `MAX_MSG_TO_SEND` envelopes.

use vstd::prelude::*;
use crate::dbc::{spec_decode, ExtTypeEntry, DbcModel, MessageSpec, SignalSpec};
use crate::dbc::{get_can_signal_value, get_multiplex_val, is_multiplexed, is_multiplexor};
use crate::strmap::StrMap;
use crate::values::{CanValue, ValueModel};

verus! {

/// The most envelopes one batch of the sender may carry.
pub const MAX_MSG_TO_SEND: usize = 100;

/// One decoded signal, named and with its unit, ready to send.
pub struct CanSignal {
    pub signal_name: String,
    pub unit: String,
    pub value: CanValue,
}

/// The mathematical shape of one decoded signal.
pub struct SigModel {
    pub signal_name: Seq<char>,
    pub unit: Seq<char>,
    pub value: ValueModel,
}

impl View for CanSignal {
    type V = SigModel;

    open spec fn view(&self) -> SigModel {
        SigModel { signal_name: self.signal_name@, unit: self.unit@, value: self.value@ }
    }
}

/// One CAN envelope: the bus it came from and its fresh signal values.  The
/// socket library surfaces no timestamps, so `time_stamp` is always absent.
pub struct CanMessage {
    pub bus: String,
    pub time_stamp: Option<u64>,
    pub signal: Vec<CanSignal>,
}

/// The mathematical shape of one envelope.
pub struct MsgModel {
    pub bus: Seq<char>,
    pub time_stamp: Option<u64>,
    pub signal: Seq<SigModel>,
}

impl View for CanMessage {
    type V = MsgModel;

    open spec fn view(&self) -> MsgModel {
        MsgModel {
            bus: self.bus@,
            time_stamp: self.time_stamp,
            signal: self.signal@.map_values(|s: CanSignal| s@),
        }
    }
}

/// The previous-values map of one watcher: the last emitted value under each
/// signal name.
pub type PrevMap = StrMap<CanValue>;

/// Whether the map holds exactly this value under this name.
pub open spec fn spec_is_duplicate(
    m: Map<Seq<char>, ValueModel>,
    name: Seq<char>,
    v: ValueModel,
) -> bool {
    m.contains_key(name) && m[name] == v
}

/// Whether the value decoded for a signal equals the last one emitted under
/// the same name.
pub fn is_can_signal_duplicate(map: &PrevMap, name: &str, val: &CanValue) -> (r: bool)
    requires
        map.wf(),
    ensures
        r == spec_is_duplicate(map@, name@, val@),
{
    match map.get(name) {
        Some(last_sent) => last_sent.value_eq(val),
        None => false,
    }
}

/// The unit to report for a decoded value: the DBC's unit string when it is
/// not empty, else "enum" for a text value and "N/A" otherwise.
pub open spec fn spec_signal_unit(unit: Seq<char>, v: ValueModel) -> Seq<char> {
    if unit.len() == 0 {
        if v is Str {
            "enum"@
        } else {
            "N/A"@
        }
    } else {
        unit
    }
}

/// Picks the unit to report for a decoded value.
pub fn signal_unit(s: &SignalSpec, v: &CanValue) -> (r: String)
    ensures
        r@ == spec_signal_unit(s.unit@, v@),
{
    if s.unit.as_str().is_empty() {
        match v {
            CanValue::Str(_) => "enum".to_owned(),
            _ => "N/A".to_owned(),
        }
    } else {
        s.unit.clone()
    }
}

/// The running state of one frame's signal walk: the multiplexor value seen
/// so far, the previous-values map, and the signals emitted so far.
pub struct StepState {
    pub mx: u64,
    pub prev: Map<Seq<char>, ValueModel>,
    pub out: Seq<SigModel>,
}

/// What one signal does to the walk state: a multiplexor records its value
/// and is never emitted; a multiplexed signal is dropped unless its index
/// equals the recorded value; everything else is emitted unless it repeats
/// the last value sent under its name, and an emission records its value.
pub open spec fn spec_step(
    s: SignalSpec,
    data: Seq<u8>,
    exts: Seq<ExtTypeEntry>,
    st: StepState,
) -> StepState {
    match spec_decode(s, data, exts) {
        Option::None => st,
        Option::Some(v) => {
            if s.mux is Multiplexor {
                match v {
                    ValueModel::U64(m) => StepState { mx: m, prev: st.prev, out: st.out },
                    _ => st,
                }
            } else if (match s.mux {
                crate::dbc::MuxRole::Multiplexed(k) => k != st.mx,
                _ => false,
            }) {
                st
            } else if spec_is_duplicate(st.prev, s.name@, v) {
                st
            } else {
                StepState {
                    mx: st.mx,
                    prev: st.prev.insert(s.name@, v),
                    out: st.out.push(
                        SigModel {
                            signal_name: s.name@,
                            unit: spec_signal_unit(s.unit@, v),
                            value: v,
                        },
                    ),
                }
            }
        },
    }
}

/// The walk over a message's signals in declaration order.
pub open spec fn spec_run(
    sigs: Seq<SignalSpec>,
    data: Seq<u8>,
    exts: Seq<ExtTypeEntry>,
    st0: StepState,
) -> StepState
    decreases sigs.len(),
{
    if sigs.len() == 0 {
        st0
    } else {
        spec_step(sigs.last(), data, exts, spec_run(sigs.drop_last(), data, exts, st0))
    }
}

/// The walk state a frame starts from.
pub open spec fn spec_start(prev: Map<Seq<char>, ValueModel>) -> StepState {
    StepState { mx: 0u64, prev, out: Seq::empty() }
}

/// Processes one frame of a message the DBC knows: walks the signals,
/// updates the previous-values map, and returns an envelope exactly when any
/// signal was emitted.
pub fn process_frame(
    bus: &str,
    msg: &MessageSpec,
    data: &[u8],
    dbc: &DbcModel,
    prev: &mut PrevMap,
) -> (r: Option<CanMessage>)
    requires
        old(prev).wf(),
        msg.wf(),
        data@.len() <= 8,
    ensures
        final(prev).wf(),
        ({
            let st = spec_run(msg.signals@, data@, dbc.ext_types@, spec_start(old(prev)@));
            &&& final(prev)@ == st.prev
            &&& (match r {
                Option::None => st.out.len() == 0,
                Option::Some(m) => {
                    &&& st.out.len() > 0
                    &&& m@.bus == bus@
                    &&& (m@.time_stamp is None)
                    &&& m@.signal == st.out
                },
            })
        }),
{
    let ghost init = spec_start(old(prev)@);
    let ghost exts = dbc.ext_types@;
    let mut can_signals: Vec<CanSignal> = Vec::new();
    let mut multiplex_val: u64 = 0;
    let n = msg.signals.len();
    let mut i: usize = 0;
    proof {
        assert(msg.signals@.take(0) =~= Seq::<SignalSpec>::empty());
        assert(can_signals@.map_values(|cs: CanSignal| cs@) =~= Seq::<SigModel>::empty());
    }
    while i < n
        invariant
            prev.wf(),
            msg.wf(),
            data@.len() <= 8,
            n == msg.signals@.len(),
            0 <= i <= n,
            init == spec_start(old(prev)@),
            exts == dbc.ext_types@,
            ({
                let st = spec_run(msg.signals@.take(i as int), data@, exts, init);
                &&& multiplex_val == st.mx
                &&& prev@ == st.prev
                &&& can_signals@.map_values(|cs: CanSignal| cs@) == st.out
            }),
        decreases n - i,
    {
        let ghost st_pre = spec_run(msg.signals@.take(i as int), data@, exts, init);
        proof {
            assert(msg.signals@.take(i as int + 1).drop_last() =~= msg.signals@.take(i as int));
            assert(msg.signals@.take(i as int + 1).last() == msg.signals@[i as int]);
        }
        let s = &msg.signals[i];
        let decoded = get_can_signal_value(data, s, dbc);
        let val = match decoded {
            Some(v) => v,
            None => {
                // A signal that decodes to nothing is silently skipped.
                i += 1;
                continue ;
            },
        };
        if is_multiplexor(s) {
            match &val {
                CanValue::U64(m) => {
                    multiplex_val = *m;
                },
                _ => {},
            }
            i += 1;
            continue ;
        }
        if is_multiplexed(s) {
            if get_multiplex_val(s) != multiplex_val {
                i += 1;
                continue ;
            }
        }
        if is_can_signal_duplicate(prev, s.name.as_str(), &val) {
            i += 1;
            continue ;
        }
        let unit = signal_unit(s, &val);
        let stored = val.clone_value();
        prev.set(s.name.clone(), stored);
        let out_sig = CanSignal { signal_name: s.name.clone(), unit, value: val };
        proof {
            let st_post = spec_step(msg.signals@[i as int], data@, exts, st_pre);
            assert(can_signals@.push(out_sig).map_values(|cs: CanSignal| cs@) =~= can_signals@
                .map_values(|cs: CanSignal| cs@).push(out_sig@));
            assert(out_sig@ == SigModel {
                signal_name: msg.signals@[i as int].name@,
                unit: spec_signal_unit(msg.signals@[i as int].unit@, out_sig.value@),
                value: out_sig.value@,
            });
            assert(st_post.out == st_pre.out.push(out_sig@));
        }
        can_signals.push(out_sig);
        i += 1;
    }
    proof {
        assert(msg.signals@.take(n as int) =~= msg.signals@);
    }
    if can_signals.len() == 0 {
        None
    } else {
        Some(CanMessage { bus: bus.to_owned(), time_stamp: None, signal: can_signals })
    }
}

/// The link settings a CAN interface is brought up with: the configured
/// bitrate or 500000, and listen-only unless the configuration turns it off.
pub fn can_link_settings(port: &crate::config::CanPort) -> (r: (u32, bool))
    ensures
        r.0 == (match port.bitrate {
            Option::Some(b) => b,
            Option::None => 500000u32,
        }),
        r.1 == (match port.listen_only {
            Option::Some(l) => l,
            Option::None => true,
        }),
{
    let bitrate = match port.bitrate {
        Some(b) => b,
        None => 500000,
    };
    let listen_only = match port.listen_only {
        Some(l) => l,
        None => true,
    };
    (bitrate, listen_only)
}

/// The sample a digital-input edge submits: one for a rising edge, zero for
/// a falling one.
pub fn edge_level(rising: bool) -> (level: u8)
    ensures
        level == (if rising {
            1u8
        } else {
            0u8
        }),
{
    if rising {
        1
    } else {
        0
    }
}

/// The in-memory queue of envelopes between the watchers and the sender.
pub struct SendQueue {
    msgs: Vec<CanMessage>,
}

impl View for SendQueue {
    type V = Seq<MsgModel>;

    closed spec fn view(&self) -> Seq<MsgModel> {
        self.msgs@.map_values(|m: CanMessage| m@)
    }
}

impl SendQueue {
    /// An empty queue.
    pub fn new() -> (q: SendQueue)
        ensures
            q@ == Seq::<MsgModel>::empty(),
    {
        let q = SendQueue { msgs: Vec::new() };
        proof {
            assert(q@ =~= Seq::<MsgModel>::empty());
        }
        q
    }

    /// How many envelopes wait.
    pub fn len(&self) -> (n: usize)
        ensures
            n == self@.len(),
    {
        self.msgs.len()
    }

    /// Appends one envelope at the back.
    pub fn push(&mut self, m: CanMessage)
        ensures
            final(self)@ == old(self)@.push(m@),
    {
        let ghost mv = m@;
        self.msgs.push(m);
        proof {
            assert(final(self)@ =~= old(self)@.push(mv));
        }
    }

    /// Takes the next batch off the front, in order: the whole queue when at
    /// most `MAX_MSG_TO_SEND` envelopes wait, else exactly `MAX_MSG_TO_SEND`.
    pub fn drain_batch(&mut self) -> (batch: Vec<CanMessage>)
        ensures
            old(self)@.len() <= MAX_MSG_TO_SEND ==> batch@.len() == old(self)@.len(),
            old(self)@.len() > MAX_MSG_TO_SEND ==> batch@.len() == MAX_MSG_TO_SEND,
            batch@.map_values(|m: CanMessage| m@) == old(self)@.take(batch@.len() as int),
            final(self)@ == old(self)@.skip(batch@.len() as int),
    {
        let n = self.msgs.len();
        let k = if n > MAX_MSG_TO_SEND {
            MAX_MSG_TO_SEND
        } else {
            n
        };
        let mut rest = self.msgs.split_off(k);
        core::mem::swap(&mut self.msgs, &mut rest);
        proof {
            assert(rest@.map_values(|m: CanMessage| m@) =~= old(self)@.take(k as int));
            assert(final(self)@ =~= old(self)@.skip(k as int));
        }
        rest
    }
}

/// How many envelopes the sender takes off a queue of the given length:
/// everything up to `MAX_MSG_TO_SEND`, never more.
pub fn batch_len(queue_len: usize) -> (n: usize)
    ensures
        queue_len <= MAX_MSG_TO_SEND ==> n == queue_len,
        queue_len > MAX_MSG_TO_SEND ==> n == MAX_MSG_TO_SEND,
{
    if queue_len > MAX_MSG_TO_SEND {
        MAX_MSG_TO_SEND
    } else {
        queue_len
    }
}

/// What the map held for a name, as an option.
pub open spec fn opt_of(m: Map<Seq<char>, ValueModel>, k: Seq<char>) -> Option<ValueModel> {
    if m.contains_key(k) {
        Some(m[k])
    } else {
        None
    }
}

/// The value standing for a name just before emission `j`: the latest
/// earlier emission under the same name, else what the map held at the start
/// of the frame.
pub open spec fn prior_value(
    out: Seq<SigModel>,
    j: int,
    name: Seq<char>,
    prev0: Map<Seq<char>, ValueModel>,
) -> Option<ValueModel>
    decreases j,
{
    if j <= 0 {
        opt_of(prev0, name)
    } else if out[j - 1].signal_name == name {
        Some(out[j - 1].value)
    } else {
        prior_value(out, j - 1, name, prev0)
    }
}

/// No emission repeats the value standing for its name.
pub open spec fn no_duplicate_emissions(
    out: Seq<SigModel>,
    prev0: Map<Seq<char>, ValueModel>,
) -> bool {
    forall|j: int|
        0 <= j < out.len() ==> prior_value(out, j, (#[trigger] out[j]).signal_name, prev0)
            != Some(out[j].value)
}

/// Stability of `prior_value` under appending later emissions.
proof fn lemma_prior_value_push(
    out: Seq<SigModel>,
    e: SigModel,
    j: int,
    name: Seq<char>,
    prev0: Map<Seq<char>, ValueModel>,
)
    requires
        j <= out.len(),
    ensures
        prior_value(out.push(e), j, name, prev0) == prior_value(out, j, name, prev0),
    decreases j,
{
    if j > 0 {
        assert(out.push(e)[j - 1] == out[j - 1]);
        lemma_prior_value_push(out, e, j - 1, name, prev0);
    }
}

/// Where no earlier emission carries the name, the value standing for it is
/// what the map carried into the frame.
proof fn lemma_prior_value_no_occurrence(
    out: Seq<SigModel>,
    j: int,
    name: Seq<char>,
    prev0: Map<Seq<char>, ValueModel>,
)
    requires
        0 <= j <= out.len(),
        forall|i: int| 0 <= i < j ==> (#[trigger] out[i]).signal_name != name,
    ensures
        prior_value(out, j, name, prev0) == opt_of(prev0, name),
    decreases j,
{
    if j > 0 {
        lemma_prior_value_no_occurrence(out, j - 1, name, prev0);
    }
}

/// Two successive emissions of one signal name differ, across frames: when
/// the previous-values map carries a value for a name — the last one emitted
/// for it — the next frame's first emission under that name is a different
/// value.
pub proof fn lemma_successive_emissions_differ(
    sigs: Seq<SignalSpec>,
    data: Seq<u8>,
    exts: Seq<ExtTypeEntry>,
    prev: Map<Seq<char>, ValueModel>,
    n: Seq<char>,
    j: int,
)
    requires
        ({
            let st = spec_run(sigs, data, exts, spec_start(prev));
            &&& 0 <= j < st.out.len()
            &&& st.out[j].signal_name == n
            &&& forall|i: int| 0 <= i < j ==> (#[trigger] st.out[i]).signal_name != n
        }),
        prev.contains_key(n),
    ensures
        spec_run(sigs, data, exts, spec_start(prev)).out[j].value != prev[n],
{
    let st = spec_run(sigs, data, exts, spec_start(prev));
    lemma_duplicate_suppression(sigs, data, exts, spec_start(prev));
    lemma_prior_value_no_occurrence(st.out, j, n, prev);
}

/// Duplicate suppression, stated over the whole frame walk: no emission of a
/// frame repeats the value standing for its name — neither an earlier
/// emission of the same frame nor, for the first emission under a name, the
/// value the previous-values map carried in from earlier frames.  Moreover
/// the map leaving the walk holds, under every name, exactly the latest
/// emitted value, or its incoming value where nothing was emitted; so two
/// successive emissions of one signal name always differ, within one frame
/// and across frames.
pub proof fn lemma_duplicate_suppression(
    sigs: Seq<SignalSpec>,
    data: Seq<u8>,
    exts: Seq<ExtTypeEntry>,
    st0: StepState,
)
    requires
        st0.out.len() == 0,
    ensures
        ({
            let st = spec_run(sigs, data, exts, st0);
            &&& no_duplicate_emissions(st.out, st0.prev)
            &&& forall|k: Seq<char>|
                opt_of(st.prev, k) == prior_value(st.out, st.out.len() as int, k, st0.prev)
        }),
    decreases sigs.len(),
{
    if sigs.len() == 0 {
        let st = spec_run(sigs, data, exts, st0);
        assert(st == st0);
    } else {
        let st1 = spec_run(sigs.drop_last(), data, exts, st0);
        lemma_duplicate_suppression(sigs.drop_last(), data, exts, st0);
        let s = sigs.last();
        let st = spec_step(s, data, exts, st1);
        if st.out == st1.out && st.prev == st1.prev {
            // a skipped signal changes nothing that the claim speaks of
            assert(no_duplicate_emissions(st.out, st0.prev));
        } else {
            // the signal was emitted
            let v = spec_decode(s, data, exts)->Some_0;
            let e = SigModel {
                signal_name: s.name@,
                unit: spec_signal_unit(s.unit@, v),
                value: v,
            };
            assert(st.out == st1.out.push(e));
            assert(st.prev == st1.prev.insert(s.name@, v));
            assert(!spec_is_duplicate(st1.prev, s.name@, v));
            let l1 = st1.out.len() as int;
            assert forall|j: int| 0 <= j < st.out.len() implies prior_value(
                st.out,
                j,
                (#[trigger] st.out[j]).signal_name,
                st0.prev,
            ) != Some(st.out[j].value) by {
                if j < l1 {
                    assert(st.out[j] == st1.out[j]);
                    lemma_prior_value_push(st1.out, e, j, st1.out[j].signal_name, st0.prev);
                } else {
                    assert(st.out[j] == e);
                    lemma_prior_value_push(st1.out, e, l1, e.signal_name, st0.prev);
                    assert(prior_value(st.out, l1, e.signal_name, st0.prev) == opt_of(
                        st1.prev,
                        e.signal_name,
                    ));
                }
            }
            assert forall|k: Seq<char>| opt_of(st.prev, k) == prior_value(
                st.out,
                st.out.len() as int,
                k,
                st0.prev,
            ) by {
                assert(st.out.len() == l1 + 1);
                assert(st.out[l1] == e);
                if k == s.name@ {
                    assert(prior_value(st.out, l1 + 1, k, st0.prev) == Some(v));
                    assert(opt_of(st.prev, k) == Some(v));
                } else {
                    assert(e.signal_name != k);
                    assert(prior_value(st.out, l1 + 1, k, st0.prev) == prior_value(
                        st.out,
                        l1,
                        k,
                        st0.prev,
                    ));
                    lemma_prior_value_push(st1.out, e, l1, k, st0.prev);
                    assert(prior_value(st1.out, l1, k, st0.prev) == opt_of(st1.prev, k));
                    assert(opt_of(st.prev, k) == opt_of(st1.prev, k));
                }
            }
        }
    }
}

} // verus!
