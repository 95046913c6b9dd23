use host_insight::config::{DigitalOutConfig, DigitalOutPort};
use host_insight::gpio::{
    clean_up, create_digital_out_map, digital_out_level, restore_defaults_plan, session_step,
    ControlCommand, GpioState, SessionEffect, SessionEvent, SessionState,
};

fn led_port() -> DigitalOutPort {
    DigitalOutPort {
        internal_name: "gpio-led".to_string(),
        external_name: "led".to_string(),
        default_state: 0,
    }
}

fn out_config(ports: Vec<DigitalOutPort>) -> Option<DigitalOutConfig> {
    Some(DigitalOutConfig { ports: Some(ports) })
}

#[test]
fn remote_control_happy_path() {
    // the server grants control, drives "led" active, then closes: the led
    // goes away from its default and the session ends with a restore
    let cfg = out_config(vec![led_port()]);
    let map = create_digital_out_map(&cfg).expect("a configured map");

    let (st, eff) = session_step(SessionState::Idle, SessionEvent::ControlGranted, &map);
    assert_eq!(st, SessionState::Armed);
    assert!(matches!(eff, SessionEffect::OpenStream));

    let (st, eff) = session_step(st, SessionEvent::StreamOpened, &map);
    assert_eq!(st, SessionState::Active);
    assert!(matches!(eff, SessionEffect::Nothing));

    let cmd = ControlCommand { cmd: "led".to_string(), state: GpioState::Active };
    let (st, eff) = session_step(st, SessionEvent::Command(cmd), &map);
    assert_eq!(st, SessionState::Active);
    match eff {
        SessionEffect::Drive { internal_name, level } => {
            assert_eq!(internal_name, "gpio-led");
            assert_eq!(level, 1);  // away from default_state 0
        }
        _ => panic!("expected a drive"),
    }

    let close = ControlCommand { cmd: "Close".to_string(), state: GpioState::Inactive };
    let (st, eff) = session_step(st, SessionEvent::Command(close), &map);
    assert_eq!(st, SessionState::Idle);
    assert!(matches!(eff, SessionEffect::EndSession));
}

#[test]
fn unknown_command_is_ignored() {
    let cfg = out_config(vec![led_port()]);
    let map = create_digital_out_map(&cfg).expect("a configured map");
    let cmd = ControlCommand { cmd: "horn".to_string(), state: GpioState::Active };
    let (st, eff) = session_step(SessionState::Active, SessionEvent::Command(cmd), &map);
    assert_eq!(st, SessionState::Active);
    assert!(matches!(eff, SessionEffect::InvalidCommand));
}

#[test]
fn stream_error_ends_the_session() {
    let cfg = out_config(vec![led_port()]);
    let map = create_digital_out_map(&cfg).expect("a configured map");
    let (st, eff) = session_step(SessionState::Active, SessionEvent::StreamItemError, &map);
    assert_eq!(st, SessionState::Idle);
    assert!(matches!(eff, SessionEffect::EndSession));
}

#[test]
fn stream_end_ends_the_session() {
    let cfg = out_config(vec![led_port()]);
    let map = create_digital_out_map(&cfg).expect("a configured map");
    let (st, eff) = session_step(SessionState::Active, SessionEvent::StreamClosed, &map);
    assert_eq!(st, SessionState::Idle);
    assert!(matches!(eff, SessionEffect::EndSession));
}

#[test]
fn events_out_of_turn_change_nothing() {
    let cfg = out_config(vec![led_port()]);
    let map = create_digital_out_map(&cfg).expect("a configured map");
    let cmd = ControlCommand { cmd: "led".to_string(), state: GpioState::Active };
    let (st, eff) = session_step(SessionState::Idle, SessionEvent::Command(cmd), &map);
    assert_eq!(st, SessionState::Idle);
    assert!(matches!(eff, SessionEffect::Nothing));
    let (st, eff) = session_step(SessionState::Active, SessionEvent::ControlGranted, &map);
    assert_eq!(st, SessionState::Active);
    assert!(matches!(eff, SessionEffect::Nothing));
}

#[test]
fn output_levels_mirror_the_default() {
    let mut p = led_port();
    assert_eq!(digital_out_level(&p, GpioState::Active), 1);
    assert_eq!(digital_out_level(&p, GpioState::Inactive), 0);
    p.default_state = 1;
    assert_eq!(digital_out_level(&p, GpioState::Active), 0);
    assert_eq!(digital_out_level(&p, GpioState::Inactive), 1);
}

#[test]
fn map_lookup_uses_external_names() {
    let mut other = led_port();
    other.internal_name = "gpio-horn".to_string();
    other.external_name = "horn".to_string();
    other.default_state = 1;
    let cfg = out_config(vec![led_port(), other]);
    let map = create_digital_out_map(&cfg).expect("a configured map");
    let cmd = ControlCommand { cmd: "horn".to_string(), state: GpioState::Active };
    let (_, eff) = session_step(SessionState::Active, SessionEvent::Command(cmd), &map);
    match eff {
        SessionEffect::Drive { internal_name, level } => {
            assert_eq!(internal_name, "gpio-horn");
            assert_eq!(level, 0);  // default 1, driven away from it
        }
        _ => panic!("expected a drive"),
    }
}

#[test]
fn later_port_with_same_name_wins() {
    let mut second = led_port();
    second.internal_name = "gpio-led2".to_string();
    let cfg = out_config(vec![led_port(), second]);
    let map = create_digital_out_map(&cfg).expect("a configured map");
    let cmd = ControlCommand { cmd: "led".to_string(), state: GpioState::Inactive };
    let (_, eff) = session_step(SessionState::Active, SessionEvent::Command(cmd), &map);
    match eff {
        SessionEffect::Drive { internal_name, .. } => assert_eq!(internal_name, "gpio-led2"),
        _ => panic!("expected a drive"),
    }
}

#[test]
fn no_digital_out_block_means_no_map() {
    assert!(create_digital_out_map(&None).is_none());
    assert!(clean_up(&None).is_none());
}

#[test]
fn clean_up_restores_every_output() {
    let mut horn = led_port();
    horn.internal_name = "gpio-horn".to_string();
    horn.external_name = "horn".to_string();
    horn.default_state = 1;
    let cfg = out_config(vec![led_port(), horn]);
    let plan = clean_up(&cfg).expect("a restore plan");
    assert_eq!(plan.len(), 2);
    assert_eq!(plan[0], ("gpio-led".to_string(), 0));
    assert_eq!(plan[1], ("gpio-horn".to_string(), 1));
}

#[test]
fn restore_plan_keeps_port_order() {
    let mut a = led_port();
    a.internal_name = "out-a".to_string();
    let mut b = led_port();
    b.internal_name = "out-b".to_string();
    b.default_state = 1;
    let plan = restore_defaults_plan(&vec![a, b]);
    assert_eq!(plan[0].0, "out-a");
    assert_eq!(plan[0].1, 0);
    assert_eq!(plan[1].0, "out-b");
    assert_eq!(plan[1].1, 1);
}
