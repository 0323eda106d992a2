use atx_dispatch::actions::{
    resolve, resolve_with, ActionEntry, Durations, Line, LineRole, SERV1_POWER_LONG,
    SERV1_POWER_SHORT, SERV1_RESET, SERV2_POWER_LONG, SERV2_POWER_SHORT, SERV2_RESET,
    SERV3_POWER_LONG, SERV3_POWER_SHORT, SERV3_RESET, SERV4_POWER_LONG, SERV4_POWER_SHORT,
    SERV4_RESET,
};
use atx_dispatch::TASK_COMPLETE;

fn entry(target: u8, role: LineRole, duration_ms: u32) -> ActionEntry {
    ActionEntry { line: Line { target, role }, duration_ms }
}

#[test]
fn resolve_all_twelve_codes() {
    let cases = [
        (SERV1_RESET, entry(1, LineRole::Reset, 100)),
        (SERV1_POWER_SHORT, entry(1, LineRole::Power, 100)),
        (SERV1_POWER_LONG, entry(1, LineRole::Power, 5000)),
        (SERV2_RESET, entry(2, LineRole::Reset, 100)),
        (SERV2_POWER_SHORT, entry(2, LineRole::Power, 100)),
        (SERV2_POWER_LONG, entry(2, LineRole::Power, 5000)),
        (SERV3_RESET, entry(3, LineRole::Reset, 100)),
        (SERV3_POWER_SHORT, entry(3, LineRole::Power, 100)),
        (SERV3_POWER_LONG, entry(3, LineRole::Power, 5000)),
        (SERV4_RESET, entry(4, LineRole::Reset, 100)),
        (SERV4_POWER_SHORT, entry(4, LineRole::Power, 100)),
        (SERV4_POWER_LONG, entry(4, LineRole::Power, 5000)),
    ];
    for (code, expected) in cases {
        assert_eq!(resolve(code), Some(expected));
    }
}

#[test]
fn resolve_codes_match_ascii_tags() {
    assert_eq!(SERV1_RESET, u32::from_be_bytes(*b"S1RS"));
    assert_eq!(SERV1_POWER_SHORT, u32::from_be_bytes(*b"S1PS"));
    assert_eq!(SERV1_POWER_LONG, u32::from_be_bytes(*b"S1PL"));
    assert_eq!(SERV2_RESET, u32::from_be_bytes(*b"S2RS"));
    assert_eq!(SERV2_POWER_SHORT, u32::from_be_bytes(*b"S2PS"));
    assert_eq!(SERV2_POWER_LONG, u32::from_be_bytes(*b"S2PL"));
    assert_eq!(SERV3_RESET, u32::from_be_bytes(*b"S3RS"));
    assert_eq!(SERV3_POWER_SHORT, u32::from_be_bytes(*b"S3PS"));
    assert_eq!(SERV3_POWER_LONG, u32::from_be_bytes(*b"S3PL"));
    assert_eq!(SERV4_RESET, u32::from_be_bytes(*b"S4RS"));
    assert_eq!(SERV4_POWER_SHORT, u32::from_be_bytes(*b"S4PS"));
    assert_eq!(SERV4_POWER_LONG, u32::from_be_bytes(*b"S4PL"));
}

#[test]
fn resolve_unknown_codes() {
    assert_eq!(resolve(u32::from_be_bytes(*b"ZZZZ")), None);
    assert_eq!(resolve(0), None);
    assert_eq!(resolve(u32::MAX), None);
    // One byte off a recognized tag is unknown.
    assert_eq!(resolve(u32::from_be_bytes(*b"S5RS")), None);
    assert_eq!(resolve(u32::from_be_bytes(*b"s1rs")), None);
}

#[test]
fn ack_token_is_reserved() {
    assert_eq!(TASK_COMPLETE, 0xEE);
    assert_eq!(resolve(TASK_COMPLETE), None);
}

#[test]
fn durations_are_configuration() {
    let d = Durations { reset_ms: 50, power_short_ms: 200, power_long_ms: 9000 };
    assert_eq!(resolve_with(&d, SERV1_RESET), Some(entry(1, LineRole::Reset, 50)));
    assert_eq!(resolve_with(&d, SERV3_POWER_SHORT), Some(entry(3, LineRole::Power, 200)));
    assert_eq!(resolve_with(&d, SERV4_POWER_LONG), Some(entry(4, LineRole::Power, 9000)));
    assert_eq!(resolve_with(&d, u32::from_be_bytes(*b"ZZZZ")), None);
}

#[test]
fn default_durations_are_stock() {
    let d = Durations::default();
    assert_eq!(d.reset_ms, 100);
    assert_eq!(d.power_short_ms, 100);
    assert_eq!(d.power_long_ms, 5000);
}
