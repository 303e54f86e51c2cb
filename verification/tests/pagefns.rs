//! The menu actions as free functions: page and controller list building and
//! the per-item selection effects.
use control_panel::page_functions::{page, stick};
use control_panel::pages::controlpanel::{Config, ConfigFnOptions, ControlResult};
use control_panel::pages::Page;
use control_panel::tasks::driver_task::DriverEvent;

fn names(list: &[&str]) -> Vec<String> {
    list.iter().map(|s| s.to_string()).collect()
}

#[test]
fn list_pages_names_every_page() {
    let (w, r) = page::list_pages();
    assert!(r.is_none());
    assert_eq!(w.name, "Available Pages");
    assert_eq!(w.content.len(), 3);
    assert_eq!(w.content[0].get_short_text(), "Startup");
    assert_eq!(w.content[1].get_short_text(), "ControllerTelem");
    assert_eq!(w.content[2].get_short_text(), "DriverTelem");
}

#[test]
fn selecting_a_page_item_switches_to_it() {
    let c = Config::new("DriverTelem".to_string());
    let r = page::select_this_controller(&c);
    assert!(matches!(r, Some(ControlResult::ChangePage(Page::DriverTelem))));
    let c = Config::new("NoSuchPage".to_string());
    let r = page::select_this_controller(&c);
    assert!(r.is_none());
}

#[test]
fn selecting_a_controller_item_arms_it() {
    let c = Config::new("padX".to_string());
    let r = stick::select_this_controller(&c);
    match r {
        Some(ControlResult::SetController(name)) => assert_eq!(name, "padX"),
        other => panic!("expected an arm request, found {:?}", other),
    }
}

#[test]
fn controller_windows_differ_only_in_their_bindings() {
    let devices = names(&["padA", "padB"]);
    let (browse, r) = stick::list_controllers_window(&devices);
    assert!(r.is_none());
    assert_eq!(browse.name, "Controllers");
    assert_eq!(browse.content.len(), 2);
    assert!(browse.content[0].on_select.is_none());

    let (pick, r) = stick::select_controller_window(&devices);
    assert!(r.is_none());
    assert_eq!(pick.content.len(), 2);
    assert!(matches!(
        pick.content[1].on_select,
        Some(ConfigFnOptions::ConfigToNone(_))
    ));
    assert_eq!(pick.content[1].get_short_text(), "padB");
}

#[test]
fn port_items_forward_the_port_name() {
    let c = Config::new("COM7".to_string());
    let r = control_panel::pages::controlpanel::run_config_action(
        &control_panel::pages::controlpanel::ConfigAction::PickPort,
        &c,
    );
    match r {
        Some(ControlResult::DriverChange(DriverEvent::SetPort(name))) => {
            assert_eq!(name, "COM7")
        }
        other => panic!("expected a forwarded port name, found {:?}", other),
    }
}
