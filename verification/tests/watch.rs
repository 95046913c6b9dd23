use host_insight::can::{
    is_can_signal_duplicate, process_frame, signal_unit, CanMessage, CanSignal, PrevMap, SendQueue,
};
use host_insight::dbc::{ByteOrd, DbcModel, MessageSpec, MuxRole, SignalSpec};
use host_insight::values::CanValue;

fn u8_signal(name: &str, start_bit: u64, mux: MuxRole) -> SignalSpec {
    SignalSpec {
        name: name.to_string(),
        start_bit,
        signal_size: 8,
        byte_order: ByteOrd::Little,
        signed: false,
        factor: 1,
        offset: 0,
        fractional_scale: false,
        unit: String::new(),
        mux,
        value_descs: None,
    }
}

fn empty_dbc() -> DbcModel {
    DbcModel { messages: Vec::new(), ext_types: Vec::new() }
}

fn envelope(bus: &str, signals: Vec<CanSignal>) -> CanMessage {
    CanMessage { bus: bus.to_string(), time_stamp: None, signal: signals }
}

#[test]
fn duplicate_frames_enqueue_once() {
    // two identical frames on can0: only the first yields an envelope, with
    // unit "N/A" and value 1
    let msg = MessageSpec { id: 0x100, signals: vec![u8_signal("Door", 0, MuxRole::Plain)] };
    let dbc = empty_dbc();
    let data: Vec<u8> = vec![0x01, 0, 0, 0, 0, 0, 0, 0];
    let mut prev = PrevMap::new();

    let first = process_frame("can0", &msg, &data, &dbc, &mut prev);
    match first {
        Some(m) => {
            assert_eq!(m.bus, "can0");
            assert!(m.time_stamp.is_none());
            assert_eq!(m.signal.len(), 1);
            assert_eq!(m.signal[0].signal_name, "Door");
            assert_eq!(m.signal[0].unit, "N/A");
            assert!(matches!(m.signal[0].value, CanValue::U64(1)));
        }
        None => panic!("the first frame must produce an envelope"),
    }

    let second = process_frame("can0", &msg, &data, &dbc, &mut prev);
    assert!(second.is_none());
}

#[test]
fn changed_value_is_emitted_again() {
    let msg = MessageSpec { id: 0x100, signals: vec![u8_signal("Door", 0, MuxRole::Plain)] };
    let dbc = empty_dbc();
    let mut prev = PrevMap::new();

    let open: Vec<u8> = vec![1];
    let closed: Vec<u8> = vec![0];
    assert!(process_frame("can0", &msg, &open, &dbc, &mut prev).is_some());
    assert!(process_frame("can0", &msg, &closed, &dbc, &mut prev).is_some());
    assert!(process_frame("can0", &msg, &closed, &dbc, &mut prev).is_none());
    assert!(process_frame("can0", &msg, &open, &dbc, &mut prev).is_some());
}

#[test]
fn multiplexed_signals_follow_the_multiplexor() {
    // Mode selects which Temp signal is present
    let msg = MessageSpec {
        id: 0x200,
        signals: vec![
            u8_signal("Mode", 0, MuxRole::Multiplexor),
            u8_signal("TempA", 8, MuxRole::Multiplexed(2)),
            u8_signal("TempB", 16, MuxRole::Multiplexed(1)),
        ],
    };
    let dbc = empty_dbc();
    let mut prev = PrevMap::new();

    // Mode = 2: only TempA appears
    let data: Vec<u8> = vec![2, 10, 20];
    let m = process_frame("can0", &msg, &data, &dbc, &mut prev).expect("envelope expected");
    assert_eq!(m.signal.len(), 1);
    assert_eq!(m.signal[0].signal_name, "TempA");
    assert!(matches!(m.signal[0].value, CanValue::U64(10)));

    // Mode = 1 next: only TempB appears
    let data2: Vec<u8> = vec![1, 11, 21];
    let m2 = process_frame("can0", &msg, &data2, &dbc, &mut prev).expect("envelope expected");
    assert_eq!(m2.signal.len(), 1);
    assert_eq!(m2.signal[0].signal_name, "TempB");
    assert!(matches!(m2.signal[0].value, CanValue::U64(21)));
}

#[test]
fn multiplexor_itself_is_never_emitted() {
    let msg = MessageSpec { id: 0x200, signals: vec![u8_signal("Mode", 0, MuxRole::Multiplexor)] };
    let dbc = empty_dbc();
    let mut prev = PrevMap::new();
    let data: Vec<u8> = vec![3];
    assert!(process_frame("can0", &msg, &data, &dbc, &mut prev).is_none());
}

#[test]
fn empty_signal_list_yields_no_envelope() {
    let msg = MessageSpec { id: 0x300, signals: Vec::new() };
    let dbc = empty_dbc();
    let mut prev = PrevMap::new();
    let data: Vec<u8> = vec![1, 2, 3];
    assert!(process_frame("can0", &msg, &data, &dbc, &mut prev).is_none());
}

#[test]
fn previous_values_map_tracks_last_emission() {
    let mut prev = PrevMap::new();
    assert!(!is_can_signal_duplicate(&prev, "Door", &CanValue::U64(1)));
    prev.set("Door".to_string(), CanValue::U64(1));
    assert!(is_can_signal_duplicate(&prev, "Door", &CanValue::U64(1)));
    assert!(!is_can_signal_duplicate(&prev, "Door", &CanValue::U64(2)));
    assert!(!is_can_signal_duplicate(&prev, "Window", &CanValue::U64(1)));
    prev.set("Door".to_string(), CanValue::U64(2));
    assert!(is_can_signal_duplicate(&prev, "Door", &CanValue::U64(2)));
    assert!(!is_can_signal_duplicate(&prev, "Door", &CanValue::U64(1)));
}

#[test]
fn text_values_compare_by_content() {
    let mut prev = PrevMap::new();
    prev.set("Mode".to_string(), CanValue::Str("On".to_string()));
    assert!(is_can_signal_duplicate(&prev, "Mode", &CanValue::Str("On".to_string())));
    assert!(!is_can_signal_duplicate(&prev, "Mode", &CanValue::Str("Off".to_string())));
    assert!(!is_can_signal_duplicate(&prev, "Mode", &CanValue::U64(1)));
}

#[test]
fn unit_selection() {
    let mut s = u8_signal("Door", 0, MuxRole::Plain);
    assert_eq!(signal_unit(&s, &CanValue::U64(1)), "N/A");
    assert_eq!(signal_unit(&s, &CanValue::Str("On".to_string())), "enum");
    s.unit = "degC".to_string();
    assert_eq!(signal_unit(&s, &CanValue::U64(1)), "degC");
}

#[test]
fn small_queue_drains_whole() {
    let mut q = SendQueue::new();
    for i in 0..3u64 {
        q.push(envelope(&format!("can{}", i), Vec::new()));
    }
    let batch = q.drain_batch();
    assert_eq!(batch.len(), 3);
    assert_eq!(batch[0].bus, "can0");
    assert_eq!(batch[1].bus, "can1");
    assert_eq!(batch[2].bus, "can2");
    assert_eq!(q.len(), 0);
}

#[test]
fn large_queue_drains_exactly_one_batch() {
    // 150 waiting envelopes: one batch takes exactly 100, in order
    let mut q = SendQueue::new();
    for i in 0..150u64 {
        q.push(envelope(&format!("bus{}", i), Vec::new()));
    }
    let batch = q.drain_batch();
    assert_eq!(batch.len(), 100);
    assert_eq!(batch[0].bus, "bus0");
    assert_eq!(batch[99].bus, "bus99");
    assert_eq!(q.len(), 50);
    let rest = q.drain_batch();
    assert_eq!(rest.len(), 50);
    assert_eq!(rest[0].bus, "bus100");
    assert_eq!(rest[49].bus, "bus149");
    assert_eq!(q.len(), 0);
}

#[test]
fn empty_queue_drains_nothing() {
    let mut q = SendQueue::new();
    let batch = q.drain_batch();
    assert_eq!(batch.len(), 0);
}
