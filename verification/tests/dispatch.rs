use atx_dispatch::actions::{Durations, Line, LineRole, SERV4_POWER_LONG};
use atx_dispatch::protocol::{ActuatorPhase, Dispatcher, GatewayPhase};
use atx_dispatch::TASK_COMPLETE;

fn fresh() -> Dispatcher {
    Dispatcher::new(Durations::default())
}

#[test]
fn new_dispatcher_is_quiescent() {
    let p = fresh();
    assert_eq!(p.gateway, GatewayPhase::Listening);
    assert_eq!(p.actuator, ActuatorPhase::Idle);
    assert!(!p.indicator);
    assert_eq!(p.req_slot, None);
    assert_eq!(p.ack_slot, None);
    assert_eq!(p.dispatched, 0);
    assert_eq!(p.acked, 0);
    assert_eq!(p.now_ms, 0);
    assert!(p.log.is_empty());
}

#[test]
fn scenario_reset_target_one() {
    // "s1rs" normalizes to "S1RS", resolves to reset of target 1, pulses
    // the line for 100 ms, is acknowledged, and the frame is echoed.
    let mut p = fresh();
    let echo = p.process_chunk(&b"s1rs".to_vec());
    assert_eq!(echo, b"S1RS".to_vec());
    assert_eq!(p.log.len(), 1);
    assert_eq!(p.log[0].line, Line { target: 1, role: LineRole::Reset });
    assert_eq!(p.log[0].duration_ms, 100);
    assert_eq!(p.log[0].start_ms, 0);
    assert_eq!(p.now_ms, 100);
    assert_eq!(p.gateway, GatewayPhase::Listening);
    assert_eq!((p.dispatched, p.acked), (1, 1));
}

#[test]
fn scenario_power_long_target_four() {
    let mut p = fresh();
    let echo = p.process_chunk(&b"S4PL".to_vec());
    assert_eq!(echo, b"S4PL".to_vec());
    assert_eq!(p.log.len(), 1);
    assert_eq!(p.log[0].line, Line { target: 4, role: LineRole::Power });
    assert_eq!(p.log[0].duration_ms, 5000);
    assert_eq!(p.now_ms, 5000);
    // The gateway was unavailable from the dispatch to the acknowledgment:
    // that window is exactly the hold duration.
    assert_eq!(p.now_ms - p.dispatch_ms, 5000);
    assert_eq!((p.dispatched, p.acked), (1, 1));
}

#[test]
fn scenario_unknown_code_acked_without_actuation() {
    let mut p = fresh();
    let echo = p.process_chunk(&b"ZZZZ".to_vec());
    assert_eq!(echo, b"ZZZZ".to_vec());
    assert!(p.log.is_empty());
    assert_eq!(p.now_ms, 0);
    assert_eq!(p.gateway, GatewayPhase::Listening);
    // The word was dispatched and acknowledged all the same.
    assert_eq!((p.dispatched, p.acked), (1, 1));
}

#[test]
fn scenario_two_byte_chunk_changes_nothing() {
    let mut p = fresh();
    let echo = p.process_chunk(&b"s1".to_vec());
    assert_eq!(echo, b"S1".to_vec());
    assert!(p.log.is_empty());
    assert_eq!((p.dispatched, p.acked), (0, 0));
    assert_eq!(p.gateway, GatewayPhase::Listening);
}

#[test]
fn boundary_three_and_five_bytes_echo_without_actuation() {
    let mut p = fresh();
    let echo3 = p.process_chunk(&b"s1r".to_vec());
    assert_eq!(echo3, b"S1R".to_vec());
    let echo5 = p.process_chunk(&b"s1rsx".to_vec());
    assert_eq!(echo5, b"S1RSX".to_vec());
    assert!(p.log.is_empty());
    assert_eq!((p.dispatched, p.acked), (0, 0));
}

#[test]
fn idempotent_double_dispatch() {
    let mut p = fresh();
    p.process_chunk(&b"S2PS".to_vec());
    p.process_chunk(&b"S2PS".to_vec());
    assert_eq!(p.log.len(), 2);
    assert_eq!(p.log[0].line, p.log[1].line);
    assert_eq!(p.log[0].duration_ms, 100);
    assert_eq!(p.log[1].duration_ms, 100);
    // The second pulse started where the first ended: two independent,
    // complete cycles of identical duration.
    assert_eq!(p.log[0].start_ms, 0);
    assert_eq!(p.log[1].start_ms, 100);
    assert_eq!(p.gateway, GatewayPhase::Listening);
    assert_eq!((p.dispatched, p.acked), (2, 2));
}

#[test]
fn one_ack_per_dispatch_step_by_step() {
    let mut p = fresh();
    p.gateway_dispatch(SERV4_POWER_LONG);
    assert_eq!(p.gateway, GatewayPhase::AwaitingAck);
    assert_eq!(p.req_slot, Some(SERV4_POWER_LONG));
    assert_eq!(p.ack_slot, None);

    let code = p.actuator_accept();
    assert_eq!(code, SERV4_POWER_LONG);
    assert_eq!(p.req_slot, None);
    assert_eq!(p.actuator, ActuatorPhase::Busy { code });
    // While the actuation is in flight the status indicator is asserted,
    // the gateway is still blocked, and both slots are empty: no second
    // frame can enter the protocol.
    assert!(p.indicator);
    assert_eq!(p.gateway, GatewayPhase::AwaitingAck);

    p.actuator_run(code);
    assert_eq!(p.actuator, ActuatorPhase::Idle);
    assert!(!p.indicator);
    assert_eq!(p.ack_slot, Some(TASK_COMPLETE));
    assert_eq!(p.log.len(), 1);

    let ack = p.gateway_take_ack();
    assert_eq!(ack, TASK_COMPLETE);
    assert_eq!(p.gateway, GatewayPhase::Listening);
    assert_eq!(p.ack_slot, None);
    assert_eq!((p.dispatched, p.acked), (1, 1));
}

#[test]
fn dispatch_cycle_returns_the_token() {
    let mut p = fresh();
    let ack = p.dispatch_cycle(u32::from_be_bytes(*b"ZZZZ"));
    assert_eq!(ack, TASK_COMPLETE);
    let ack2 = p.dispatch_cycle(SERV4_POWER_LONG);
    assert_eq!(ack2, TASK_COMPLETE);
    assert_eq!(p.log.len(), 1);
}

#[test]
fn overridden_durations_reach_the_log() {
    let d = Durations { reset_ms: 30, power_short_ms: 40, power_long_ms: 70 };
    let mut p = Dispatcher::new(d);
    p.process_chunk(&b"s3pl".to_vec());
    assert_eq!(p.log.len(), 1);
    assert_eq!(p.log[0].line, Line { target: 3, role: LineRole::Power });
    assert_eq!(p.log[0].duration_ms, 70);
    assert_eq!(p.now_ms, 70);
}
