//! Whole-application flows: session lifecycle, event handling, and routing
//! of committed selections to the page and the background tasks.
use control_panel::app::{App, Mode};
use control_panel::event::{ControllerEvent, Event};
use control_panel::pages::controlpanel::{ActionEnv, ConfigOption};
use control_panel::pages::Page;
use control_panel::tasks::driver_task::{DriverEvent, DriverState};

fn env(controllers: &[&str], port_list: Option<&[&str]>) -> ActionEnv {
    ActionEnv {
        controllers: controllers.iter().map(|s| s.to_string()).collect(),
        ports: match port_list {
            Some(ps) => Ok(ps.iter().map(|s| s.to_string()).collect()),
            None => Err("port scan failed".to_string()),
        },
    }
}

#[test]
fn a_fresh_app_runs_on_the_startup_page() {
    let app = App::new();
    assert_eq!(app.mode, Mode::Running);
    assert_eq!(app.page, Page::Startup);
    assert!(app.is_running());
    assert_eq!(app.get_x(), None);
    assert_eq!(app.get_y(), None);
}

#[test]
fn quit_stops_the_session() {
    let mut app = App::new();
    app.quit();
    assert_eq!(app.mode, Mode::Quit);
    assert!(!app.is_running());
}

#[test]
fn pointer_position_is_remembered() {
    let mut app = App::new();
    app.set_x_y(11, 22);
    assert_eq!(app.get_x(), Some(11));
    assert_eq!(app.get_y(), Some(22));
}

#[test]
fn controller_events_land_on_the_telemetry_page() {
    let mut app = App::new();
    app.handle_controller_event(ControllerEvent::Connected);
    assert!(matches!(
        app.controller_telem.message,
        Some(ControllerEvent::Connected)
    ));
    app.handle_controller_event(ControllerEvent::ButtonChanged);
    assert!(matches!(
        app.controller_telem.message,
        Some(ControllerEvent::Connected)
    ));
}

#[test]
fn driver_reports_land_on_the_telemetry_page() {
    let mut app = App::new();
    app.handle_driver_event(DriverEvent::StateReport(DriverState::Enabled));
    assert_eq!(app.driver_telem.message, Some(DriverState::Enabled));
    app.handle_driver_event(DriverEvent::Error("gone".to_string()));
    assert_eq!(app.driver_telem.message, Some(DriverState::Enabled));
}

/// Selecting a controller from the connect menu arms the capture task and
/// hands a launch for exactly that identity.
#[test]
fn connect_controller_flow_arms_the_capture_task() {
    let (sender, _receiver) = tokio::sync::mpsc::unbounded_channel::<Event>();
    let catalog = env(&["padA", "padB"], None);
    let mut app = App::new();
    app.add_sender(&sender);

    // cursor to "Connect Controller" and commit: the controller menu appears
    app.control_panel_next_item();
    let launch = app.control_panel_select(&catalog);
    assert!(launch.is_none());
    match &app.control_panel.main_window.content[1].option {
        ConfigOption::Window(sub) => {
            assert_eq!(sub.name, "Controllers");
            assert_eq!(sub.content.len(), 2);
        }
        other => panic!("expected the controller menu, found {:?}", other),
    }

    // focus the menu, pick padB
    app.control_panel_next_window();
    app.control_panel_next_item();
    let launch = app.control_panel_select(&catalog);
    match launch {
        Some(l) => assert_eq!(l.controller, "padB"),
        None => panic!("expected a capture launch for padB"),
    }
    assert!(app.controller_task.running);

    // a second selection while the session is live is a no-op
    let launch = app.control_panel_select(&catalog);
    assert!(launch.is_none());
}

/// Selecting a port from the port menu routes the name to the driver task,
/// which binds it against the same catalog.
#[test]
fn driver_port_flow_binds_the_port() {
    let (sender, _receiver) = tokio::sync::mpsc::unbounded_channel::<Event>();
    let catalog = env(&[], Some(&["COM1", "COM2"]));
    let mut app = App::new();
    app.add_sender(&sender);

    // cursor to "Driver Port Control" and commit: the port menu appears
    app.control_panel_next_item();
    app.control_panel_next_item();
    app.control_panel_next_item();
    let launch = app.control_panel_select(&catalog);
    assert!(launch.is_none());

    // focus the menu, pick COM2
    app.control_panel_next_window();
    app.control_panel_next_item();
    let launch = app.control_panel_select(&catalog);
    assert!(launch.is_none());
    match &app.driver_task.port {
        Some(p) => assert_eq!(p.port, "COM2"),
        None => panic!("expected the driver port to be bound"),
    }
}

/// Selecting a page entry switches the displayed page.
#[test]
fn page_selection_switches_the_page() {
    let catalog = env(&[], None);
    let mut app = App::new();
    app.control_panel_next_item();
    app.control_panel_next_item();
    let _ = app.control_panel_select(&catalog);
    app.control_panel_next_window();
    app.control_panel_next_item();
    let launch = app.control_panel_select(&catalog);
    assert!(launch.is_none());
    assert_eq!(app.page, Page::ControllerTelem);
}

/// With a failed port enumeration the port menu comes up empty and nothing
/// is bound.
#[test]
fn failed_port_enumeration_yields_an_empty_menu() {
    let catalog = env(&[], None);
    let mut app = App::new();
    app.control_panel_next_item();
    app.control_panel_next_item();
    app.control_panel_next_item();
    let _ = app.control_panel_select(&catalog);
    match &app.control_panel.main_window.content[3].option {
        ConfigOption::Window(sub) => {
            assert_eq!(sub.name, "Available ports");
            assert_eq!(sub.content.len(), 0);
        }
        other => panic!("expected an empty port menu, found {:?}", other),
    }
    assert!(app.driver_task.port.is_none());
}

#[test]
fn terminal_page_pieces_assemble() {
    let t = control_panel::pages::terminal::Terminal::new();
    assert_eq!(t.description, "Terminal Config!");
    assert_eq!(t.main_window.configs.len(), 1);
    assert_eq!(t.main_window.configs[0].text, "List Controllers");
    let pane = control_panel::pages::terminal::Pane {
        content: control_panel::pages::terminal::PaneContent::PlaceHolder,
    };
    assert_eq!(pane.content, control_panel::pages::terminal::PaneContent::PlaceHolder);
    let startup = control_panel::pages::StartupPage::new();
    assert_eq!(startup.row_index, 0);
}
