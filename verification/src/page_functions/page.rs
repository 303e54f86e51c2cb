//! Page selection: the page list as a sub-window and the action its entries
//! bind.
#![allow(unused_imports)]
use vstd::prelude::*;

use crate::pages::controlpanel::{
    build_label_window, config_action_result, plain_label_window, run_config_action, Config,
    ConfigAction, ControlResult, Window,
};
use crate::pages::{page_name_list, page_names};

verus! {

/// The selectable page list as a sub-window: one entry per page, each bound
/// to switch to the page it names.
pub fn list_pages() -> (out: (Window, Option<ControlResult>))
    ensures
        plain_label_window(out.0, "Available Pages"@, page_names(), Some(ConfigAction::PickPage)),
        out.0.wf(),
        out.1 is None,
{
    let names = page_name_list();
    (build_label_window("Available Pages".to_owned(), &names, Some(ConfigAction::PickPage)), None)
}

/// What selecting a page entry reports: a change to the page the item names,
/// or nothing for a name that is no page.
pub fn select_this_controller(config: &Config) -> (r: Option<ControlResult>)
    ensures
        r == config_action_result(ConfigAction::PickPage, *config),
{
    run_config_action(&ConfigAction::PickPage, config)
}

} // verus!
