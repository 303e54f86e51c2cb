//! Navigation engine behavior: cursor movement, committing selections, and
//! focus hops across the committed chain.
use control_panel::pages::controlpanel::{
    ActionEnv, Config, ConfigFnOptions, ConfigOption, ControlPanel, ControlResult, PresetWindow,
    Window, WindowAction, WindowToWindowAction,
};
use control_panel::pages::Page;

fn plain_env() -> ActionEnv {
    ActionEnv { controllers: Vec::new(), ports: Ok(Vec::new()) }
}

fn abc_window() -> Window {
    let configs = vec![
        Config::new("A".to_string()),
        Config::new("B".to_string()),
        Config::new("C".to_string()),
    ];
    Window::new("root".to_string()).with_configs(configs).as_selected()
}

#[test]
fn cursor_cycles_over_all_items() {
    let mut w = abc_window();
    assert_eq!(w.highlighted_content, 0);
    w.next_item();
    w.next_item();
    w.next_item();
    assert_eq!(w.highlighted_content, 0);
}

#[test]
fn cursor_wraps_forward_at_the_end() {
    let mut w = abc_window();
    w.next_item();
    w.next_item();
    assert_eq!(w.highlighted_content, 2);
    w.next_item();
    assert_eq!(w.highlighted_content, 0);
}

#[test]
fn cursor_wraps_backward_at_the_start() {
    let mut w = abc_window();
    assert_eq!(w.highlighted_content, 0);
    w.previous_item();
    assert_eq!(w.highlighted_content, 2);
    w.previous_item();
    assert_eq!(w.highlighted_content, 1);
}

#[test]
fn empty_window_cursor_stays_at_zero() {
    let mut w = Window::new("empty".to_string()).as_selected();
    w.next_item();
    assert_eq!(w.highlighted_content, 0);
    w.previous_item();
    assert_eq!(w.highlighted_content, 0);
    let r = w.select(&plain_env());
    assert!(r.is_none());
    assert!(w.selected_content.is_none());
}

#[test]
fn select_without_binding_only_commits() {
    let mut w = abc_window();
    w.next_item();
    let r = w.select(&plain_env());
    assert!(r.is_none());
    assert_eq!(w.selected_content, Some(1));
    assert!(matches!(w.content[1].option, ConfigOption::Text));
}

/// Root window with items A, B, C, focused, cursor at 0: two cursor steps
/// land on C; selecting it with a window-producing binding commits index 2,
/// installs the produced window, and reports the binding's declared result.
#[test]
fn select_installs_preset_window_and_reports_result() {
    let preset = PresetWindow {
        title: "Sub".to_string(),
        labels: vec!["X".to_string(), "Y".to_string()],
        result: Some(ControlResult::ChangePage(Page::DriverTelem)),
    };
    let configs = vec![
        Config::new("A".to_string()),
        Config::new("B".to_string()),
        Config::new("C".to_string())
            .with_on_select(ConfigFnOptions::NoneToWindow(WindowAction::Preset(preset))),
    ];
    let mut w = Window::new("root".to_string()).with_configs(configs).as_selected();
    w.next_item();
    w.next_item();
    assert_eq!(w.highlighted_content, 2);
    let r = w.select(&plain_env());
    assert_eq!(w.selected_content, Some(2));
    match &w.content[2].option {
        ConfigOption::Window(sub) => {
            assert_eq!(sub.name, "Sub");
            assert_eq!(sub.content.len(), 2);
            assert_eq!(sub.content[0].get_short_text(), "X");
            assert_eq!(sub.content[1].get_short_text(), "Y");
            assert!(!sub.window_selected);
        }
        other => panic!("expected an installed sub-window, found {:?}", other),
    }
    assert!(matches!(r, Some(ControlResult::ChangePage(Page::DriverTelem))));
}

/// A window-producing binding replaces whatever the item held before, here a
/// toggle.
#[test]
fn select_replaces_prior_content_with_window() {
    let preset = PresetWindow {
        title: "Fresh".to_string(),
        labels: vec!["only".to_string()],
        result: None,
    };
    let configs = vec![Config::new("A".to_string())
        .with_configoption(ConfigOption::CheckBox(true))
        .with_on_select(ConfigFnOptions::NoneToWindow(WindowAction::Preset(preset)))];
    let mut w = Window::new("root".to_string()).with_configs(configs).as_selected();
    let r = w.select(&plain_env());
    assert!(r.is_none());
    assert!(matches!(w.content[0].option, ConfigOption::Window(_)));
}

#[test]
fn mirror_action_lists_the_sibling_labels() {
    let configs = vec![
        Config::new("first".to_string())
            .with_on_select(ConfigFnOptions::WindowToWindow(WindowToWindowAction::MirrorItems)),
        Config::new("second".to_string()),
    ];
    let mut w = Window::new("panel".to_string()).with_configs(configs).as_selected();
    let r = w.select(&plain_env());
    assert!(r.is_none());
    match &w.content[0].option {
        ConfigOption::Window(sub) => {
            assert_eq!(sub.name, "panel");
            assert_eq!(sub.content.len(), 2);
            assert_eq!(sub.content[0].get_short_text(), "first");
            assert_eq!(sub.content[1].get_short_text(), "second");
        }
        other => panic!("expected a mirror sub-window, found {:?}", other),
    }
}

#[test]
fn detail_action_shows_the_full_text() {
    let configs = vec![Config::new("entry".to_string())
        .with_fulltext("the long story".to_string())
        .with_on_select(ConfigFnOptions::ConfigToWindow(
            control_panel::pages::controlpanel::ConfigWindowAction::DetailWindow,
        ))];
    let mut w = Window::new("root".to_string()).with_configs(configs).as_selected();
    let r = w.select(&plain_env());
    assert!(r.is_none());
    match &w.content[0].option {
        ConfigOption::Window(sub) => {
            assert_eq!(sub.name, "entry");
            assert_eq!(sub.content.len(), 1);
            assert_eq!(sub.content[0].get_short_text(), "the long story");
        }
        other => panic!("expected a detail sub-window, found {:?}", other),
    }
}

#[test]
fn get_fulltext_falls_back_to_the_label() {
    let c = Config::new("bare".to_string());
    assert_eq!(c.get_fulltext(), "bare");
    let c = Config::new("bare".to_string()).with_fulltext("rich".to_string());
    assert_eq!(c.get_fulltext(), "rich");
}

/// One focus hop down and one hop back restore the original focused window.
#[test]
fn focus_hop_down_and_back_restores_focus() {
    let preset = PresetWindow {
        title: "Sub".to_string(),
        labels: vec!["X".to_string()],
        result: None,
    };
    let configs = vec![Config::new("A".to_string())
        .with_on_select(ConfigFnOptions::NoneToWindow(WindowAction::Preset(preset)))];
    let mut panel = ControlPanel {
        description: "test".to_string(),
        main_window: Window::new("root".to_string()).with_configs(configs).as_selected(),
        selected_window: 0,
    };
    let env = plain_env();
    let r = panel.select(&env);
    assert!(r.is_none());
    panel.next_window();
    assert_eq!(panel.selected_window, 1);
    assert!(!panel.main_window.window_selected);
    match &panel.main_window.content[0].option {
        ConfigOption::Window(sub) => assert!(sub.window_selected),
        other => panic!("expected the installed sub-window, found {:?}", other),
    }
    panel.prev_window();
    assert_eq!(panel.selected_window, 0);
    assert!(panel.main_window.window_selected);
    match &panel.main_window.content[0].option {
        ConfigOption::Window(sub) => assert!(!sub.window_selected),
        other => panic!("expected the installed sub-window, found {:?}", other),
    }
}

/// A committed item without a sub-window is a dead end: the focus clamps to
/// the window that holds it.
#[test]
fn focus_hop_clamps_at_a_dead_end() {
    let mut panel = ControlPanel {
        description: "test".to_string(),
        main_window: abc_window(),
        selected_window: 0,
    };
    let env = plain_env();
    let r = panel.select(&env);
    assert!(r.is_none());
    panel.next_window();
    assert_eq!(panel.selected_window, 0);
    assert!(panel.main_window.window_selected);
}

#[test]
fn main_menu_holds_the_four_entries() {
    let panel = ControlPanel::new();
    assert_eq!(panel.main_window.name, "Main menu");
    assert!(panel.main_window.window_selected);
    assert_eq!(panel.main_window.content.len(), 4);
    assert_eq!(panel.main_window.content[0].get_short_text(), "List Controllers");
    assert_eq!(panel.main_window.content[1].get_short_text(), "Connect Controller");
    assert_eq!(panel.main_window.content[2].get_short_text(), "Select Page");
    assert_eq!(panel.main_window.content[3].get_short_text(), "Driver Port Control");
}

#[test]
fn list_pages_builds_the_page_menu() {
    let panel_env = plain_env();
    let mut panel = ControlPanel::new();
    panel.next_item();
    panel.next_item();
    let r = panel.select(&panel_env);
    assert!(r.is_none());
    match &panel.main_window.content[2].option {
        ConfigOption::Window(sub) => {
            assert_eq!(sub.name, "Available Pages");
            assert_eq!(sub.content.len(), 3);
            assert_eq!(sub.content[0].get_short_text(), "Startup");
            assert_eq!(sub.content[1].get_short_text(), "ControllerTelem");
            assert_eq!(sub.content[2].get_short_text(), "DriverTelem");
        }
        other => panic!("expected the page menu, found {:?}", other),
    }
}

/// Selecting a page entry in the page menu reports a page change.
#[test]
fn selecting_a_page_entry_reports_the_change() {
    let env = plain_env();
    let mut panel = ControlPanel::new();
    panel.next_item();
    panel.next_item();
    let _ = panel.select(&env);
    panel.next_window();
    panel.next_item();
    panel.next_item();
    let r = panel.select(&env);
    assert!(matches!(r, Some(ControlResult::ChangePage(Page::DriverTelem))));
}

#[test]
fn page_names_round_trip() {
    assert_eq!(Page::Startup.name(), "Startup");
    assert_eq!(Page::ControllerTelem.name(), "ControllerTelem");
    assert_eq!(Page::DriverTelem.name(), "DriverTelem");
    assert_eq!(Page::from_name("Startup"), Some(Page::Startup));
    assert_eq!(Page::from_name("ControllerTelem"), Some(Page::ControllerTelem));
    assert_eq!(Page::from_name("DriverTelem"), Some(Page::DriverTelem));
    assert_eq!(Page::from_name("NoSuchPage"), None);
}

#[test]
fn all_pages_in_fixed_order() {
    let pages = Page::all();
    assert_eq!(pages, vec![Page::Startup, Page::ControllerTelem, Page::DriverTelem]);
}
