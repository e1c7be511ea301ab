use lean_link::config::{DataBits, FlowControl, Parity, SerialPortConfig, StopBits};
use lean_link::group::{AckOutcome, Group, TransportError};
use lean_link::link::{
    DataParserEvent, FromPortEvent, Link, LinkAction, LinkEvent, ReconnectAction,
    reconnect_decision, RECONNECT_INTERVAL_MS,
};
use lean_link::registry::Registry;

fn config(path: &str, timeout_ms: u64) -> SerialPortConfig {
    SerialPortConfig {
        path: path.to_string(),
        baud_rate: 9600,
        data_bits: DataBits::Eight,
        stop_bits: StopBits::One,
        parity: Parity::Off,
        flow_control: FlowControl::Off,
        timeout_ms,
    }
}

#[test]
fn test_zero_timeout_write_never_waits() {
    // A port with no timeout window: writes return as soon as the bytes are
    // out, whether or not an acknowledgement was requested.
    let mut link = Link::new(config("/dev/ttyUSB0", 0), false, 30_000);
    link.handle(LinkEvent::Reconnected);
    link.handle(LinkEvent::Wrote { need_ack: true, ok: true });
    assert!(!link.state.awaiting_ack);
    link.handle(LinkEvent::Wrote { need_ack: false, ok: true });
    assert!(!link.state.awaiting_ack);
}

#[test]
fn test_write_with_timeout_waits_and_resolves() {
    let mut link = Link::new(config("/dev/ttyUSB0", 100), false, 30_000);
    link.handle(LinkEvent::Reconnected);
    link.handle(LinkEvent::Wrote { need_ack: true, ok: true });
    assert!(link.state.awaiting_ack);
    let actions = link.handle(LinkEvent::AckResolved { timed_out: false });
    assert!(matches!(
        actions[..],
        [LinkAction::EmitEvent { event: FromPortEvent::Ack }]
    ));
    assert!(!link.state.awaiting_ack);
}

#[test]
fn test_link_timeout_then_next_request_succeeds() {
    // One member with a 100 ms window: the write times out, the aggregate
    // aborts, and the next acknowledgement-requiring write is accepted
    // rather than rejected as busy.
    let mut group = Group::new();
    group.add_config(&config("/dev/ttyUSB0", 100));
    let plan = group.write_need_ack(&vec![0xAA]).unwrap();
    assert!(plan.need_ack);
    assert_eq!(plan.targets, vec!["/dev/ttyUSB0".to_string()]);

    let mut link = Link::new(config("/dev/ttyUSB0", 100), false, 30_000);
    link.handle(LinkEvent::Reconnected);
    link.handle(LinkEvent::Wrote { need_ack: true, ok: true });
    let actions = link.handle(LinkEvent::AckResolved { timed_out: true });
    assert!(matches!(
        actions[..],
        [LinkAction::EmitEvent { event: FromPortEvent::Timeout }]
    ));

    assert_eq!(group.on_link_event(FromPortEvent::Timeout), AckOutcome::Aborted);
    assert!(group.write_need_ack(&vec![0xAB]).is_ok());
}

#[test]
fn test_group_two_members_finish_at_second_ack() {
    // Both members require acknowledgement: the aggregate finishes at the
    // second member's acknowledgement, never at the first.
    let mut group = Group::new();
    group.add_config(&config("/dev/ttyUSB0", 100));
    group.add_config(&config("/dev/ttyUSB1", 100));
    group.write_need_ack(&vec![0x01]).unwrap();

    assert_eq!(group.on_link_event(FromPortEvent::Ack), AckOutcome::Counting);
    assert_eq!(group.on_link_event(FromPortEvent::Ack), AckOutcome::Finished);
    // a straggler after completion is ignored, not a second completion
    assert_eq!(group.on_link_event(FromPortEvent::Ack), AckOutcome::LateAck);
}

#[test]
fn test_busy_until_resolved() {
    let mut group = Group::new();
    group.add_config(&config("/dev/ttyUSB0", 100));
    assert!(group.write_need_ack(&vec![0x01]).is_ok());
    assert_eq!(
        group.write_need_ack(&vec![0x02]).unwrap_err(),
        TransportError::Busy
    );
    assert_eq!(group.on_link_event(FromPortEvent::Ack), AckOutcome::Finished);
    assert!(group.write_need_ack(&vec![0x03]).is_ok());
}

#[test]
fn test_fire_and_forget_write_ignores_busy() {
    let mut group = Group::new();
    group.add_config(&config("/dev/ttyUSB0", 100));
    group.write_need_ack(&vec![0x01]).unwrap();
    // the plain write still succeeds and completes the aggregate at once
    let plan = group.write(&vec![0x02]).unwrap();
    assert!(!plan.need_ack);
    assert_eq!(group.ack_counter, -1);
}

#[test]
fn test_add_config_twice_keeps_one_member() {
    let mut group = Group::new();
    group.add_config(&config("/dev/ttyUSB0", 100));
    group.add_config(&config("/dev/ttyUSB0", 250));
    assert_eq!(group.members.len(), 1);
    assert_eq!(group.members[0].timeout_ms, 250);

    group.remove_config(&config("/dev/ttyUSB0", 250));
    assert!(group.members.is_empty());
}

#[test]
fn test_empty_group_reports_not_found() {
    let mut group = Group::new();
    assert_eq!(group.write(&vec![0x01]).unwrap_err(), TransportError::NotFound);
    assert_eq!(
        group.write_need_ack(&vec![0x01]).unwrap_err(),
        TransportError::NotFound
    );
}

#[test]
fn test_heartbeat_timeout_without_device() {
    // Heartbeat enabled, nothing attached: the heartbeat write goes out,
    // its window elapses, a heartbeat timeout is emitted, no data is ever
    // forwarded to the parser, and an application write may proceed.
    let mut link = Link::new(config("/dev/ttyUSB0", 500), true, 1000);
    let mut all_actions: Vec<LinkAction> = Vec::new();

    all_actions.extend(link.handle(LinkEvent::Reconnected));
    assert!(link.heartbeat_ready());
    all_actions.extend(link.handle(LinkEvent::HeartbeatWrote { ok: true }));
    assert!(!link.heartbeat_ready());
    let resolution = link.handle(LinkEvent::AckResolved { timed_out: true });
    assert!(matches!(
        resolution[..],
        [LinkAction::EmitEvent { event: FromPortEvent::HeartbeatTimeout }]
    ));
    all_actions.extend(resolution);

    for action in &all_actions {
        assert!(!matches!(action, LinkAction::ForwardParser { event: DataParserEvent::Data { .. } }));
    }
    // the wait is cleared: an application write proceeds immediately
    link.handle(LinkEvent::Wrote { need_ack: false, ok: true });
    assert!(!link.state.awaiting_ack);
}

#[test]
fn test_stop_emits_close_both_ways_once() {
    let mut link = Link::new(config("/dev/ttyUSB0", 100), false, 30_000);
    link.handle(LinkEvent::Reconnected);
    let actions = link.handle(LinkEvent::StopCommand);
    assert!(matches!(
        actions[..],
        [
            LinkAction::EmitEvent { event: FromPortEvent::Close },
            LinkAction::ForwardParser { event: DataParserEvent::Close },
        ]
    ));
    assert!(link.state.stopped);
}

#[test]
fn test_read_paths() {
    let mut link = Link::new(config("/dev/ttyUSB0", 100), false, 30_000);
    link.handle(LinkEvent::Reconnected);
    let actions = link.handle(LinkEvent::Received { data: vec![1, 2, 3], is_ack: false });
    assert!(matches!(
        &actions[..],
        [LinkAction::ForwardParser { event: DataParserEvent::Data { data } }] if data == &vec![1, 2, 3]
    ));
    // an acknowledgement frame also wakes the single waiter, directly
    let actions = link.handle(LinkEvent::Received { data: vec![6], is_ack: true });
    assert!(matches!(
        actions[..],
        [LinkAction::ForwardParser { .. }, LinkAction::NotifyWaiter]
    ));
    let actions = link.handle(LinkEvent::ReadFailed);
    assert!(matches!(actions[..], [LinkAction::DropHandle]));
    assert!(!link.state.connected);
}

#[test]
fn test_reconnect_loop_decisions() {
    assert_eq!(reconnect_decision(false, false), ReconnectAction::AttemptOpen);
    assert_eq!(reconnect_decision(false, true), ReconnectAction::SleepOnly);
    assert_eq!(reconnect_decision(true, false), ReconnectAction::Exit);
    assert_eq!(reconnect_decision(true, true), ReconnectAction::Exit);
    assert_eq!(RECONNECT_INTERVAL_MS, 5000);
}

#[test]
fn test_registry_routes_by_name() {
    let mut registry = Registry::new();
    let name = "meter".to_string();
    registry.add_config(&name, &config("/dev/ttyUSB0", 100));
    registry.add_config(&name, &config("/dev/ttyUSB1", 0));

    let plan = registry.write(&name, &vec![0x10]).unwrap();
    assert_eq!(
        plan.targets,
        vec!["/dev/ttyUSB0".to_string(), "/dev/ttyUSB1".to_string()]
    );

    let missing = "boiler".to_string();
    assert_eq!(
        registry.write(&missing, &vec![0x10]).unwrap_err(),
        TransportError::NotFound
    );
    assert_eq!(
        registry.write_need_ack(&missing, &vec![0x10]).unwrap_err(),
        TransportError::NotFound
    );
}

#[test]
fn test_registry_add_config_replaces_same_path() {
    let mut registry = Registry::new();
    let name = "meter".to_string();
    registry.add_config(&name, &config("/dev/ttyUSB0", 100));
    registry.add_config(&name, &config("/dev/ttyUSB0", 300));
    assert_eq!(registry.entries.len(), 1);
    assert_eq!(registry.entries[0].group.members.len(), 1);
    assert_eq!(registry.entries[0].group.members[0].timeout_ms, 300);

    registry.remove_config(&name, &config("/dev/ttyUSB0", 300));
    assert!(registry.entries[0].group.members.is_empty());
}

#[test]
fn test_registry_add_group_replaces() {
    let mut registry = Registry::new();
    let name = "meter".to_string();
    registry.add_config(&name, &config("/dev/ttyUSB0", 100));
    registry.add_group(&name);
    assert_eq!(registry.entries.len(), 1);
    assert!(registry.entries[0].group.members.is_empty());
}

#[test]
fn test_available_ports_is_best_effort() {
    let registry = Registry::new();
    // the platform query may find nothing here; it must still answer
    let ports = registry.available_ports();
    for port in &ports {
        assert!(!port.is_empty());
    }
}

#[test]
fn test_need_ack_with_no_acknowledging_member() {
    // No member has an acknowledgement window: the aggregate completes at
    // once and the next request is accepted immediately.
    let mut group = Group::new();
    group.add_config(&config("/dev/ttyUSB0", 0));
    assert!(group.write_need_ack(&vec![0x01]).is_ok());
    assert_eq!(group.ack_counter, -1);
    assert!(group.write_need_ack(&vec![0x02]).is_ok());
}

#[test]
fn test_need_ack_counts_only_acknowledging_members() {
    // One member acknowledges, one never will: the aggregate finishes at
    // the first acknowledgement.
    let mut group = Group::new();
    group.add_config(&config("/dev/ttyUSB0", 100));
    group.add_config(&config("/dev/ttyUSB1", 0));
    assert_eq!(group.need_ack_members(), 1);
    group.write_need_ack(&vec![0x01]).unwrap();
    assert_eq!(group.on_link_event(FromPortEvent::Ack), AckOutcome::Finished);
}
