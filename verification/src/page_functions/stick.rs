//! Controller selection: the controller list as a sub-window, browsable or
//! selectable, and the action its entries bind.
#![allow(unused_imports)]
use vstd::prelude::*;

use crate::pages::controlpanel::{
    build_label_window, config_action_result, plain_label_window, run_config_action, Config,
    ConfigAction, ControlResult, Window,
};

verus! {

/// The controller list as a browsable sub-window (entries do nothing when
/// selected).
pub fn list_controllers_window(controllers: &Vec<String>) -> (out: (
    Window,
    Option<ControlResult>,
))
    requires
        controllers@.len() <= u16::MAX,
    ensures
        plain_label_window(out.0, "Controllers"@, controllers.deep_view(), None),
        out.0.wf(),
        out.1 is None,
{
    get_controllers_to_window(false, controllers)
}

/// The controller list as a selectable sub-window (selecting an entry arms a
/// capture session for that controller).
pub fn select_controller_window(controllers: &Vec<String>) -> (out: (
    Window,
    Option<ControlResult>,
))
    requires
        controllers@.len() <= u16::MAX,
    ensures
        plain_label_window(
            out.0,
            "Controllers"@,
            controllers.deep_view(),
            Some(ConfigAction::PickController),
        ),
        out.0.wf(),
        out.1 is None,
{
    get_controllers_to_window(true, controllers)
}

/// The controller list as a sub-window, with selectable entries when asked
/// for.
pub fn get_controllers_to_window(select: bool, controllers: &Vec<String>) -> (out: (
    Window,
    Option<ControlResult>,
))
    requires
        controllers@.len() <= u16::MAX,
    ensures
        plain_label_window(
            out.0,
            "Controllers"@,
            controllers.deep_view(),
            if select {
                Some(ConfigAction::PickController)
            } else {
                None
            },
        ),
        out.0.wf(),
        out.1 is None,
{
    let action = if select {
        Some(ConfigAction::PickController)
    } else {
        None
    };
    (build_label_window("Controllers".to_owned(), controllers, action), None)
}

/// What selecting a controller entry reports: arm a capture session for the
/// controller the item names.
pub fn select_this_controller(config: &Config) -> (r: Option<ControlResult>)
    ensures
        r == config_action_result(ConfigAction::PickController, *config),
{
    run_config_action(&ConfigAction::PickController, config)
}

} // verus!
