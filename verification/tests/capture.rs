//! Capture task behavior: arming a session at most once, identity
//! resolution, and the forwarding filter.
use control_panel::event::{ControllerEvent, Event};
use control_panel::tasks::controller_task::ControllerTask;

fn names(list: &[&str]) -> Vec<String> {
    list.iter().map(|s| s.to_string()).collect()
}

/// Two arm requests with different identities while one session is live:
/// the second is a no-op and no second launch is handed out, so only the
/// first identity is ever captured.
#[test]
fn second_arm_request_is_a_no_op() {
    let (sender, _receiver) = tokio::sync::mpsc::unbounded_channel::<Event>();
    let mut task = ControllerTask::new();
    task.add_sender(&sender);
    task.add_controller("pad-1".to_string());
    let first = task.add_task();
    match first {
        Some(launch) => assert_eq!(launch.controller, "pad-1"),
        None => panic!("expected a capture launch for the first arm request"),
    }
    assert!(task.running);

    task.add_controller("pad-2".to_string());
    let second = task.add_task();
    assert!(second.is_none());
    assert!(task.running);
}

#[test]
fn arm_without_sink_or_identity_is_dropped() {
    let (sender, _receiver) = tokio::sync::mpsc::unbounded_channel::<Event>();
    let mut task = ControllerTask::new();
    assert!(task.add_task().is_none());
    assert!(!task.running);
    task.add_sender(&sender);
    assert!(task.add_task().is_none());
    assert!(!task.running);
    task.add_controller("pad-1".to_string());
    assert!(task.add_task().is_some());
    assert!(task.running);
}

#[test]
fn resolve_controller_finds_the_first_match() {
    let devices = names(&["padA", "padB", "padA"]);
    assert_eq!(
        ControllerTask::resolve_controller(&"padA".to_string(), &devices),
        Some(0)
    );
    assert_eq!(
        ControllerTask::resolve_controller(&"padB".to_string(), &devices),
        Some(1)
    );
    assert_eq!(ControllerTask::resolve_controller(&"padC".to_string(), &devices), None);
}

#[test]
fn forwarding_filter_matches_the_bound_identity() {
    assert!(ControllerTask::should_forward(
        &"pad-1".to_string(),
        &"pad-1".to_string()
    ));
    assert!(!ControllerTask::should_forward(
        &"pad-1".to_string(),
        &"pad-2".to_string()
    ));
}

#[test]
fn controller_telem_keeps_reportable_events_only() {
    let mut telem = control_panel::pages::ControllerTelem::new();
    assert!(telem.message.is_none());
    telem.add_telem(ControllerEvent::AxisChanged {
        axis: "LeftStickX".to_string(),
        value: "0.5".to_string(),
    });
    assert!(matches!(
        telem.message,
        Some(ControllerEvent::AxisChanged { .. })
    ));
    telem.add_telem(ControllerEvent::ButtonReleased);
    assert!(matches!(
        telem.message,
        Some(ControllerEvent::AxisChanged { .. })
    ));
    telem.add_telem(ControllerEvent::Connected);
    assert!(matches!(telem.message, Some(ControllerEvent::Connected)));
}
