use host_insight::config::{assess_new_config, choose_config_source, ConfigSource, Identity,
    NewConfigDisposition};
use host_insight::net::{
    backoff_decision, double_sleep, handle_failure, handle_reply, Action, ReplyEffect,
};
use host_insight::utils::{update_client, UpgradeDecision};
use host_insight::ExitCodes;

#[test]
fn carry_on_resets_sleep() {
    let mut s: u64 = 17;
    let e = handle_reply(Action::CarryOn, false, "v1.0.0", &mut s, 1);
    assert!(matches!(e, ReplyEffect::Proceed));
    assert_eq!(s, 1);
}

#[test]
fn exit_action_carries_the_server_code() {
    let mut s: u64 = 5;
    let e = handle_reply(Action::Exit(7), false, "v1.0.0", &mut s, 1);
    assert!(matches!(e, ReplyEffect::ExitProcess { code: 7 }));
}

#[test]
fn control_request_respects_the_gate() {
    let mut s: u64 = 5;
    let e = handle_reply(Action::ControlRequest, false, "v1.0.0", &mut s, 1);
    assert!(matches!(e, ReplyEffect::ReleaseControlGate));
    assert_eq!(s, 1);
    let e2 = handle_reply(Action::ControlRequest, true, "v1.0.0", &mut s, 1);
    assert!(matches!(e2, ReplyEffect::IgnoreControlRequest));
}

#[test]
fn config_update_stages_the_exact_bytes() {
    // afterwards the staged file must hold exactly these bytes
    let bytes: Vec<u8> = b"heartbeat_s = 60".to_vec();
    let mut s: u64 = 9;
    let e = handle_reply(Action::ConfigUpdate(bytes.clone()), false, "v1.0.0", &mut s, 2);
    match e {
        ReplyEffect::WriteNewConfig { contents } => assert_eq!(contents, bytes),
        _ => panic!("expected a staged configuration write"),
    }
    assert_eq!(s, 2);
}

#[test]
fn identity_update_passes_the_record_through() {
    let id = Identity { uid: "unit-1".to_string(), domain: "ops.example.test".to_string() };
    let mut s: u64 = 9;
    let e = handle_reply(Action::IdentityUpdate(id), false, "v1.0.0", &mut s, 2);
    match e {
        ReplyEffect::WriteIdentity { identity } => {
            assert_eq!(identity.uid, "unit-1");
            assert_eq!(identity.domain, "ops.example.test");
        }
        _ => panic!("expected an identity write"),
    }
}

#[test]
fn fetch_resource_resolves_the_target() {
    let mut s: u64 = 9;
    let e = handle_reply(
        Action::FetchResource {
            url: "https://example.test/a/b/archive.tar".to_string(),
            target_location: None,
        },
        false,
        "v1.0.0",
        &mut s,
        2,
    );
    match e {
        ReplyEffect::FetchResource { url, target } => {
            assert_eq!(url, "https://example.test/a/b/archive.tar");
            assert_eq!(target, "archive.tar");
        }
        _ => panic!("expected a fetch"),
    }
    let e2 = handle_reply(
        Action::FetchResource {
            url: "https://example.test/a".to_string(),
            target_location: Some("put-here".to_string()),
        },
        false,
        "v1.0.0",
        &mut s,
        2,
    );
    match e2 {
        ReplyEffect::FetchResource { target, .. } => assert_eq!(target, "put-here"),
        _ => panic!("expected a fetch"),
    }
}

#[test]
fn software_upgrade_request_happy_path() {
    // required 2.3.0 against running v1.0.0: write "2", exit with code 100
    let mut s: u64 = 9;
    let e = handle_reply(Action::SwUpdate("2.3.0".to_string()), false, "v1.0.0", &mut s, 2);
    match e {
        ReplyEffect::TriggerUpgrade { major, file_contents } => {
            assert_eq!(major, 2);
            assert_eq!(file_contents, "2");
        }
        _ => panic!("expected an upgrade trigger"),
    }
    assert_eq!(ExitCodes::SwUpdate.code(), 100);
}

#[test]
fn software_upgrade_not_newer_is_rejected() {
    let mut s: u64 = 9;
    let e = handle_reply(Action::SwUpdate("1.9.9".to_string()), false, "v2.0.0", &mut s, 2);
    assert!(matches!(e, ReplyEffect::UpgradeRejected));
    let e2 = handle_reply(Action::SwUpdate("2.0.0".to_string()), false, "v2.0.0", &mut s, 2);
    assert!(matches!(e2, ReplyEffect::UpgradeRejected));
}

#[test]
fn software_upgrade_malformed_version() {
    let mut s: u64 = 9;
    let e = handle_reply(Action::SwUpdate("new".to_string()), false, "v1.0.0", &mut s, 2);
    assert!(matches!(e, ReplyEffect::UpgradeMalformed));
    let e2 = handle_reply(Action::SwUpdate("2.0.0".to_string()), false, "weird", &mut s, 2);
    assert!(matches!(e2, ReplyEffect::UpgradeMalformed));
}

#[test]
fn update_client_compares_majors() {
    match update_client("v1.0.0", "2.3.0") {
        UpgradeDecision::Upgrade { major, file_contents } => {
            assert_eq!(major, 2);
            assert_eq!(file_contents, "2");
        }
        _ => panic!("expected an upgrade"),
    }
    assert!(matches!(update_client("v3.0.0", "2.3.0"), UpgradeDecision::NotNewer));
    assert!(matches!(update_client("v3.0.0", "3.9.9"), UpgradeDecision::NotNewer));
    assert!(matches!(update_client("vvv", "2.0"), UpgradeDecision::Malformed));
}

#[test]
fn retry_exhaustion_exits_with_etime() {
    // sleep_min 1, sleep_max 4, transport always failing: the sleeps grow
    // 1, 2, 4 and are then clamped at 4; the failure that finds the stored
    // sleep above the maximum fires the timeout exit
    let sleep_max: u64 = 4;
    let mut s: u64 = 1;
    let mut sleeps: Vec<u64> = Vec::new();
    let mut exits = 0;
    for _ in 0..4 {
        let b = handle_failure(&mut s, sleep_max);
        sleeps.push(b.sleep_s);
        if b.etime_exit {
            exits += 1;
        }
    }
    assert_eq!(sleeps, vec![1, 2, 4, 4]);
    assert_eq!(exits, 1);
    assert_eq!(s, 8);
    assert_eq!(ExitCodes::Etime.code(), 62);
}

#[test]
fn backoff_sleep_never_decreases() {
    let mut s: u64 = 3;
    let mut last: u64 = s;
    for _ in 0..10 {
        let _ = handle_failure(&mut s, 1000);
        assert!(s >= last);
        last = s;
    }
}

#[test]
fn backoff_decision_clamps_to_max() {
    let b = backoff_decision(2, 9, 4);
    assert_eq!(b.sleep_s, 4);
    assert!(!b.etime_exit);
    let b2 = backoff_decision(8, 3, 4);
    assert_eq!(b2.sleep_s, 3);
    assert!(b2.etime_exit);
}

#[test]
fn doubling_saturates() {
    assert_eq!(double_sleep(3), 6);
    assert_eq!(double_sleep(0), 0);
    assert_eq!(double_sleep(u64::MAX), u64::MAX);
    assert_eq!(double_sleep(u64::MAX / 2 + 1), u64::MAX);
}

#[test]
fn exit_codes() {
    assert_eq!(ExitCodes::Enoent.code(), 2);
    assert_eq!(ExitCodes::Etime.code(), 62);
    assert_eq!(ExitCodes::SwUpdate.code(), 100);
}

#[test]
fn new_config_disposition() {
    assert!(matches!(assess_new_config(true, true), NewConfigDisposition::Promote));
    assert!(matches!(assess_new_config(true, false), NewConfigDisposition::Discard));
    assert!(matches!(assess_new_config(false, true), NewConfigDisposition::Absent));
    assert!(matches!(assess_new_config(false, false), NewConfigDisposition::Absent));
}

#[test]
fn base_config_choice() {
    assert!(matches!(choose_config_source(true), ConfigSource::Local));
    assert!(matches!(choose_config_source(false), ConfigSource::Fallback));
}
