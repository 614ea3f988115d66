use serial_bridge::bridge::{
    BridgeAction, BridgeEvent, BridgeState, PortSettings, Reaction, StreamBridge, BUFFER_CAPACITY,
    DEFAULT_BAUD_RATE, FAILURE_STATUS,
};
use serial_bridge::failure::{Failure, IoErrorKind};

fn io_failure(kind: IoErrorKind, reason: &str) -> Failure {
    Failure::Io { kind, reason: reason.to_string() }
}

fn connected(path: &str) -> StreamBridge {
    let mut bridge = StreamBridge::new(PortSettings::new(path.to_string()));
    bridge.handle(BridgeEvent::Opened);
    bridge
}

/// Feeds the events one by one and collects what goes to the sink and to the
/// diagnostic stream.
fn drive(bridge: &mut StreamBridge, events: Vec<BridgeEvent>) -> (Vec<u8>, Vec<String>) {
    let mut sink = Vec::new();
    let mut lines = Vec::new();
    for event in events {
        match bridge.handle(event) {
            Reaction::Quiet => {}
            Reaction::Announce(line) => lines.push(line),
            Reaction::Forward(bytes) => sink.extend_from_slice(&bytes),
        }
    }
    (sink, lines)
}

#[test]
fn settings_default_to_fixed_rate_and_unbounded_wait() {
    let settings = PortSettings::new("/dev/ttyUSB0".to_string());
    assert_eq!(settings.path, "/dev/ttyUSB0");
    assert_eq!(settings.baud_rate, 9600);
    assert_eq!(settings.read_timeout_ms, None);
    assert_eq!(DEFAULT_BAUD_RATE, 9600);
    assert_eq!(BUFFER_CAPACITY, 1024 * 1024);
    assert_eq!(FAILURE_STATUS, 1);
}

#[test]
fn new_bridge_asks_for_the_first_open() {
    let bridge = StreamBridge::new(PortSettings::new("/dev/ttyUSB0".to_string()));
    assert_eq!(bridge.state(), &BridgeState::Opening);
    assert_eq!(bridge.next_action(), BridgeAction::Open);
    assert_eq!(bridge.exit_status(), None);
    assert_eq!(bridge.failure(), None);
    assert_eq!(bridge.settings().path, "/dev/ttyUSB0");
}

#[test]
fn explicit_path_connects_copies_loses_and_resumes() {
    let mut bridge = StreamBridge::new(PortSettings::new("/dev/ttyUSB0".to_string()));
    assert_eq!(bridge.next_action(), BridgeAction::Open);

    let reaction = bridge.handle(BridgeEvent::Opened);
    assert_eq!(reaction, Reaction::Announce("Connected to /dev/ttyUSB0".to_string()));
    assert_eq!(bridge.state(), &BridgeState::Connected);
    assert_eq!(bridge.next_action(), BridgeAction::Read);

    let reaction = bridge.handle(BridgeEvent::Data(b"temp=21\r\n".to_vec()));
    assert_eq!(reaction, Reaction::Forward(b"temp=21\r\n".to_vec()));
    assert_eq!(bridge.next_action(), BridgeAction::Read);

    let gone = io_failure(IoErrorKind::NotFound, "No such file or directory (os error 2)");
    let reaction = bridge.handle(BridgeEvent::Failed(gone));
    assert_eq!(
        reaction,
        Reaction::Announce(
            "Lost connection to /dev/ttyUSB0: No such file or directory (os error 2)".to_string()
        )
    );
    assert_eq!(bridge.state(), &BridgeState::WaitingForDevice);
    assert_eq!(bridge.next_action(), BridgeAction::CloseAndWait);
    assert_eq!(bridge.exit_status(), None);

    let reaction = bridge.handle(BridgeEvent::DeviceAppeared);
    assert_eq!(reaction, Reaction::Announce("Reconnected to /dev/ttyUSB0".to_string()));
    assert_eq!(bridge.state(), &BridgeState::Reopening);
    assert_eq!(bridge.next_action(), BridgeAction::Open);

    let reaction = bridge.handle(BridgeEvent::Opened);
    assert_eq!(reaction, Reaction::Quiet);
    assert_eq!(bridge.state(), &BridgeState::Connected);
    assert_eq!(bridge.next_action(), BridgeAction::Read);

    let reaction = bridge.handle(BridgeEvent::Data(b"temp=22\r\n".to_vec()));
    assert_eq!(reaction, Reaction::Forward(b"temp=22\r\n".to_vec()));
}

#[test]
fn every_disconnect_starts_the_wait_and_sets_no_exit_status() {
    for kind in [IoErrorKind::NotFound, IoErrorKind::BrokenPipe] {
        let mut bridge = connected("/dev/ttyACM0");
        let reaction = bridge.handle(BridgeEvent::Failed(io_failure(kind, "unplugged")));
        assert_eq!(
            reaction,
            Reaction::Announce("Lost connection to /dev/ttyACM0: unplugged".to_string())
        );
        assert_eq!(bridge.state(), &BridgeState::WaitingForDevice);
        assert_eq!(bridge.next_action(), BridgeAction::CloseAndWait);
        assert_eq!(bridge.exit_status(), None);
        assert_eq!(bridge.failure(), None);
    }
}

#[test]
fn the_reconnect_cycle_repeats_without_limit() {
    let mut bridge = connected("/dev/ttyACM0");
    for round in 0..50 {
        let chunk = vec![round as u8; 3];
        assert_eq!(bridge.handle(BridgeEvent::Data(chunk.clone())), Reaction::Forward(chunk));
        bridge.handle(BridgeEvent::Failed(io_failure(IoErrorKind::BrokenPipe, "hangup")));
        assert_eq!(bridge.state(), &BridgeState::WaitingForDevice);
        bridge.handle(BridgeEvent::DeviceAppeared);
        assert_eq!(bridge.handle(BridgeEvent::Opened), Reaction::Quiet);
        assert_eq!(bridge.state(), &BridgeState::Connected);
    }
}

#[test]
fn other_io_failure_terminates_with_nonzero_status_and_no_reconnect() {
    let mut bridge = connected("/dev/ttyUSB0");
    let failure = io_failure(IoErrorKind::Other, "Input/output error (os error 5)");
    let reaction = bridge.handle(BridgeEvent::Failed(failure.clone()));
    assert_eq!(reaction, Reaction::Quiet);
    assert_eq!(bridge.state(), &BridgeState::Terminated { failure: failure.clone() });
    assert_eq!(bridge.next_action(), BridgeAction::Stop);
    assert_eq!(bridge.exit_status(), Some(1));
    assert_ne!(bridge.exit_status(), Some(0));
    assert_eq!(bridge.failure(), Some(&failure));
    assert_eq!(failure.cause(), "Input/output error (os error 5)");
}

#[test]
fn terminated_bridge_ignores_whatever_arrives() {
    let mut bridge = connected("/dev/ttyUSB0");
    let failure = io_failure(IoErrorKind::Other, "bad");
    bridge.handle(BridgeEvent::Failed(failure.clone()));
    let events = vec![
        BridgeEvent::DeviceAppeared,
        BridgeEvent::Opened,
        BridgeEvent::Data(vec![1, 2, 3]),
        BridgeEvent::Failed(io_failure(IoErrorKind::NotFound, "gone")),
        BridgeEvent::Failed(Failure::WatchExhausted),
    ];
    let (sink, lines) = drive(&mut bridge, events);
    assert!(sink.is_empty());
    assert!(lines.is_empty());
    assert_eq!(bridge.state(), &BridgeState::Terminated { failure });
    assert_eq!(bridge.next_action(), BridgeAction::Stop);
}

// The read only times out where the device is opened with a finite wait.
#[test]
fn timeout_under_a_finite_wait_changes_nothing() {
    let settings = PortSettings {
        path: "/dev/ttyUSB0".to_string(),
        baud_rate: DEFAULT_BAUD_RATE,
        read_timeout_ms: Some(250),
    };
    let mut bridge = StreamBridge::new(settings.clone());
    bridge.handle(BridgeEvent::Opened);
    let reaction = bridge.handle(BridgeEvent::Failed(io_failure(IoErrorKind::TimedOut, "timed out")));
    assert_eq!(reaction, Reaction::Quiet);
    assert_eq!(bridge.state(), &BridgeState::Connected);
    assert_eq!(bridge.next_action(), BridgeAction::Read);
    assert_eq!(bridge.settings(), &settings);
}

#[test]
fn first_open_failure_is_fatal_and_announces_nothing() {
    let mut bridge = StreamBridge::new(PortSettings::new("/dev/ttyUSB9".to_string()));
    let failure = Failure::PortOpen { reason: "Permission denied".to_string() };
    let reaction = bridge.handle(BridgeEvent::Failed(failure.clone()));
    assert_eq!(reaction, Reaction::Quiet);
    assert_eq!(bridge.state(), &BridgeState::Terminated { failure });
    assert_eq!(bridge.exit_status(), Some(FAILURE_STATUS));
}

#[test]
fn reopen_failure_after_the_wait_is_fatal() {
    let mut bridge = connected("/dev/ttyUSB0");
    bridge.handle(BridgeEvent::Failed(io_failure(IoErrorKind::NotFound, "gone")));
    let reaction = bridge.handle(BridgeEvent::DeviceAppeared);
    assert_eq!(reaction, Reaction::Announce("Reconnected to /dev/ttyUSB0".to_string()));
    let failure = Failure::PortOpen { reason: "Device or resource busy".to_string() };
    assert_eq!(bridge.handle(BridgeEvent::Failed(failure.clone())), Reaction::Quiet);
    assert_eq!(bridge.state(), &BridgeState::Terminated { failure });
    assert_eq!(bridge.next_action(), BridgeAction::Stop);
}

#[test]
fn watch_failures_end_the_waiting_bridge() {
    let failures = [
        Failure::WatchSetup { reason: "no such directory".to_string() },
        Failure::WatchSource { reason: "poll failed".to_string() },
        Failure::WatchExhausted,
    ];
    for failure in failures {
        let mut bridge = connected("/dev/ttyUSB0");
        bridge.handle(BridgeEvent::Failed(io_failure(IoErrorKind::NotFound, "gone")));
        assert_eq!(bridge.handle(BridgeEvent::Failed(failure.clone())), Reaction::Quiet);
        assert_eq!(bridge.state(), &BridgeState::Terminated { failure });
        assert_eq!(bridge.exit_status(), Some(1));
    }
}

#[test]
fn reopening_uses_identical_parameters() {
    let settings = PortSettings {
        path: "/dev/cu.usbmodem14101".to_string(),
        baud_rate: 9600,
        read_timeout_ms: None,
    };
    let mut bridge = StreamBridge::new(settings.clone());
    assert_eq!(bridge.settings(), &settings);
    let events = vec![
        BridgeEvent::Opened,
        BridgeEvent::Data(vec![0x55]),
        BridgeEvent::Failed(io_failure(IoErrorKind::NotFound, "gone")),
        BridgeEvent::DeviceAppeared,
    ];
    drive(&mut bridge, events);
    assert_eq!(bridge.next_action(), BridgeAction::Open);
    assert_eq!(bridge.settings(), &settings);
}

#[test]
fn bytes_of_one_session_arrive_unchanged_and_in_order() {
    let mut bridge = connected("/dev/ttyUSB0");
    let all: Vec<u8> = (0..=255).collect();
    let events = vec![
        BridgeEvent::Data(all[..100].to_vec()),
        BridgeEvent::Data(Vec::new()),
        BridgeEvent::Data(all[100..101].to_vec()),
        BridgeEvent::Data(all[101..].to_vec()),
    ];
    let (sink, lines) = drive(&mut bridge, events);
    assert_eq!(sink, all);
    assert!(lines.is_empty());
    assert_eq!(bridge.state(), &BridgeState::Connected);
}

#[test]
fn bytes_before_and_after_an_outage_arrive_separately_and_unmerged() {
    let mut bridge = connected("/dev/ttyUSB0");
    let (before, lines) = drive(
        &mut bridge,
        vec![
            BridgeEvent::Data(vec![0x00, 0xff, 0x0a]),
            BridgeEvent::Data(vec![0x0d, 0x7f]),
            BridgeEvent::Failed(io_failure(IoErrorKind::BrokenPipe, "Broken pipe")),
        ],
    );
    assert_eq!(before, vec![0x00, 0xff, 0x0a, 0x0d, 0x7f]);
    assert_eq!(lines, vec!["Lost connection to /dev/ttyUSB0: Broken pipe".to_string()]);

    let (during, lines) = drive(&mut bridge, vec![BridgeEvent::DeviceAppeared, BridgeEvent::Opened]);
    assert!(during.is_empty());
    assert_eq!(lines, vec!["Reconnected to /dev/ttyUSB0".to_string()]);

    let (after, lines) = drive(
        &mut bridge,
        vec![BridgeEvent::Data(vec![0x80, 0x01]), BridgeEvent::Data(vec![0x02])],
    );
    assert_eq!(after, vec![0x80, 0x01, 0x02]);
    assert!(lines.is_empty());
}

#[test]
fn transient_failure_between_chunks_loses_nothing() {
    let mut bridge = connected("/dev/ttyUSB0");
    let (sink, lines) = drive(
        &mut bridge,
        vec![
            BridgeEvent::Data(vec![1, 2]),
            BridgeEvent::Failed(io_failure(IoErrorKind::TimedOut, "timed out")),
            BridgeEvent::Data(vec![3]),
        ],
    );
    assert_eq!(sink, vec![1, 2, 3]);
    assert!(lines.is_empty());
}

#[test]
fn events_that_answer_no_pending_action_change_nothing() {
    let mut bridge = StreamBridge::new(PortSettings::new("/dev/ttyUSB0".to_string()));
    assert_eq!(bridge.handle(BridgeEvent::Data(vec![9])), Reaction::Quiet);
    assert_eq!(bridge.handle(BridgeEvent::DeviceAppeared), Reaction::Quiet);
    let stray = io_failure(IoErrorKind::NotFound, "gone");
    assert_eq!(bridge.handle(BridgeEvent::Failed(stray)), Reaction::Quiet);
    assert_eq!(bridge.state(), &BridgeState::Opening);

    let mut bridge = connected("/dev/ttyUSB0");
    assert_eq!(bridge.handle(BridgeEvent::Opened), Reaction::Quiet);
    assert_eq!(bridge.handle(BridgeEvent::DeviceAppeared), Reaction::Quiet);
    assert_eq!(bridge.state(), &BridgeState::Connected);

    bridge.handle(BridgeEvent::Failed(io_failure(IoErrorKind::NotFound, "gone")));
    assert_eq!(bridge.handle(BridgeEvent::Data(vec![9])), Reaction::Quiet);
    assert_eq!(bridge.handle(BridgeEvent::Opened), Reaction::Quiet);
    let again = io_failure(IoErrorKind::BrokenPipe, "again");
    assert_eq!(bridge.handle(BridgeEvent::Failed(again)), Reaction::Quiet);
    assert_eq!(bridge.state(), &BridgeState::WaitingForDevice);
}
