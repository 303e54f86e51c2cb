//! Driver-side behavior: port binding, the start protocol, and the state
//! machine's tick-and-report loop over real channels.
use control_panel::event::Event;
use control_panel::tasks::driver_task::{
    DataBits, Driver, DriverError, DriverEvent, DriverState, DriverTask, FlowControl, Parity,
    StopBits,
};

fn ports(names: &[&str]) -> Vec<String> {
    names.iter().map(|s| s.to_string()).collect()
}

/// Binding COM3 when the machine offers COM1 and COM2 fails with
/// `InvalidPort`.
#[test]
fn bind_rejects_an_unknown_port() {
    let r = control_panel::tasks::driver_task::DriverPort::bind(
        "COM3".to_string(),
        &ports(&["COM1", "COM2"]),
    );
    assert!(matches!(r, Err(DriverError::InvalidPort)));
}

#[test]
fn bind_accepts_a_listed_port_with_default_settings() {
    let r = control_panel::tasks::driver_task::DriverPort::bind(
        "COM2".to_string(),
        &ports(&["COM1", "COM2"]),
    );
    match r {
        Ok(p) => {
            assert_eq!(p.port, "COM2");
            assert_eq!(p.baud, 115200);
            assert_eq!(p.data_bits, DataBits::Eight);
            assert_eq!(p.flow_control, FlowControl::NoFlowControl);
            assert_eq!(p.parity, Parity::NoParity);
            assert_eq!(p.stop_bits, StopBits::One);
        }
        Err(e) => panic!("expected a bound port, found {:?}", e),
    }
}

#[test]
fn with_baud_replaces_only_the_rate() {
    let p = control_panel::tasks::driver_task::DriverPort::bind(
        "COM1".to_string(),
        &ports(&["COM1"]),
    )
    .unwrap()
    .with_baud(9600);
    assert_eq!(p.baud, 9600);
    assert_eq!(p.port, "COM1");
}

/// A driver task with no bound port fails to start with `NoPortConfigured`,
/// and nothing ever arrives on the event channel.
#[test]
fn start_without_port_fails_and_spawns_nothing() {
    let (sender, mut receiver) = tokio::sync::mpsc::unbounded_channel::<Event>();
    let mut task = DriverTask::new();
    task.set_sender(sender);
    let r = task.start_driver();
    assert!(matches!(r, Err(DriverError::NoPortConfigured)));
    assert!(!task.running);
    assert!(matches!(
        receiver.try_recv(),
        Err(tokio::sync::mpsc::error::TryRecvError::Empty)
    ));
}

#[test]
fn start_without_sink_fails() {
    let mut task = DriverTask::new();
    task.set_port("COM1".to_string(), &ports(&["COM1"])).unwrap();
    let r = task.start_driver();
    assert!(matches!(r, Err(DriverError::NoEventSinkConfigured)));
    assert!(!task.running);
}

#[test]
fn set_port_rejects_an_unknown_name() {
    let mut task = DriverTask::new();
    let r = task.set_port("COM9".to_string(), &ports(&["COM1"]));
    assert!(matches!(r, Err(DriverError::InvalidPort)));
    assert!(task.port.is_none());
}

/// A configured task starts exactly once; a second start is a no-op.
#[test]
fn start_hands_out_one_launch_and_is_then_idempotent() {
    let (sender, _receiver) = tokio::sync::mpsc::unbounded_channel::<Event>();
    let mut task = DriverTask::new();
    task.set_port("COM1".to_string(), &ports(&["COM1"])).unwrap();
    task.set_sender(sender);
    let first = task.start_driver();
    match first {
        Ok(Some(launch)) => assert_eq!(launch.port.port, "COM1"),
        other => panic!("expected a launch, found {:?}", other),
    }
    assert!(task.running);
    let second = task.start_driver();
    assert!(matches!(second, Ok(None)));
}

/// A state request queued through the task comes out of the launch's command
/// receiver.
#[test]
fn request_state_reaches_the_command_channel() {
    let (sender, _receiver) = tokio::sync::mpsc::unbounded_channel::<Event>();
    let mut task = DriverTask::new();
    task.set_port("COM1".to_string(), &ports(&["COM1"])).unwrap();
    task.set_sender(sender);
    let mut launch = match task.start_driver() {
        Ok(Some(l)) => l,
        other => panic!("expected a launch, found {:?}", other),
    };
    assert!(task.request_state(DriverState::Enabled));
    match launch.receiver.try_recv() {
        Ok(DriverEvent::StateChange(DriverState::Enabled)) => {}
        other => panic!("expected the queued state change, found {:?}", other),
    }
}

/// A started driver reports its state on the very first tick, and the
/// reported state equals the most recently requested one.
#[test]
fn tick_reports_the_latest_requested_state() {
    let (cmd_sender, cmd_receiver) = tokio::sync::mpsc::unbounded_channel::<DriverEvent>();
    let (evt_sender, mut evt_receiver) = tokio::sync::mpsc::unbounded_channel::<Event>();
    let mut driver = Driver::new(cmd_receiver, evt_sender);
    assert_eq!(driver.state, DriverState::Active);

    assert!(driver.tick());
    match evt_receiver.try_recv() {
        Ok(Event::Driver(DriverEvent::StateReport(DriverState::Active))) => {}
        other => panic!("expected an Active report, found {:?}", other),
    }

    cmd_sender.send(DriverEvent::StateChange(DriverState::Connected)).unwrap();
    cmd_sender.send(DriverEvent::StateChange(DriverState::Disabled)).unwrap();
    assert!(driver.tick());
    assert_eq!(driver.state, DriverState::Disabled);
    match evt_receiver.try_recv() {
        Ok(Event::Driver(DriverEvent::StateReport(DriverState::Disabled))) => {}
        other => panic!("expected a Disabled report, found {:?}", other),
    }

    // the loop keeps reporting even without new commands
    assert!(driver.tick());
    match evt_receiver.try_recv() {
        Ok(Event::Driver(DriverEvent::StateReport(DriverState::Disabled))) => {}
        other => panic!("expected a repeated Disabled report, found {:?}", other),
    }
}

#[test]
fn apply_commands_ignores_everything_but_the_last_state_change() {
    let (_cmd_sender, cmd_receiver) = tokio::sync::mpsc::unbounded_channel::<DriverEvent>();
    let (evt_sender, _evt_receiver) = tokio::sync::mpsc::unbounded_channel::<Event>();
    let mut driver = Driver::new(cmd_receiver, evt_sender);
    let cmds = vec![
        DriverEvent::StateChange(DriverState::Enabled),
        DriverEvent::SetPort("COM1".to_string()),
        DriverEvent::StateChange(DriverState::Connected),
        DriverEvent::StateReport(DriverState::Disabled),
    ];
    driver.apply_commands(&cmds);
    assert_eq!(driver.state, DriverState::Connected);
    let report = driver.state_report();
    assert!(matches!(report, DriverEvent::StateReport(DriverState::Connected)));
}

#[test]
fn list_ports_builds_a_selectable_port_menu() {
    let (w, r) = DriverTask::list_ports(&ports(&["COM1", "COM2"]));
    assert!(r.is_none());
    assert_eq!(w.name, "Available ports");
    assert_eq!(w.content.len(), 2);
    assert_eq!(w.content[0].get_short_text(), "COM1");
    assert_eq!(w.content[1].get_short_text(), "COM2");
}

/// A failed port scan surfaces as `PortEnumerationFailed` with its message.
#[test]
fn failed_scan_becomes_a_port_enumeration_error() {
    let r = control_panel::tasks::driver_task::DriverPort::get_ports(Err("no bus".to_string()));
    match r {
        Err(DriverError::PortEnumerationFailed(cause)) => assert_eq!(cause, "no bus"),
        other => panic!("expected the enumeration failure, found {:?}", other),
    }
    let r = control_panel::tasks::driver_task::DriverPort::new(
        "COM1".to_string(),
        Err("no bus".to_string()),
    );
    assert!(matches!(r, Err(DriverError::PortEnumerationFailed(_))));
}

#[test]
fn new_binds_against_a_successful_scan() {
    let r = control_panel::tasks::driver_task::DriverPort::new(
        "COM1".to_string(),
        Ok(ports(&["COM1"])),
    );
    match r {
        Ok(p) => assert_eq!(p.port, "COM1"),
        other => panic!("expected a bound port, found {:?}", other),
    }
    let r = control_panel::tasks::driver_task::DriverPort::new(
        "COM3".to_string(),
        Ok(ports(&["COM1"])),
    );
    assert!(matches!(r, Err(DriverError::InvalidPort)));
}

#[test]
fn driver_telem_keeps_the_latest_report_only() {
    let mut telem = control_panel::pages::DriverTelem::new();
    assert!(telem.message.is_none());
    telem.add_telem(DriverEvent::StateReport(DriverState::Connected));
    assert_eq!(telem.message, Some(DriverState::Connected));
    telem.add_telem(DriverEvent::SetPort("COM1".to_string()));
    assert_eq!(telem.message, Some(DriverState::Connected));
    telem.add_telem(DriverEvent::StateReport(DriverState::Enabled));
    assert_eq!(telem.message, Some(DriverState::Enabled));
}
