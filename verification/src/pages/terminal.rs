//! An earlier, simpler pane layout kept for the plain terminal page: a flat
//! window of items and placeholder panes.
#![allow(unused_imports)]
use vstd::prelude::*;

verus! {

/// What an item of the plain terminal window holds.
#[derive(Debug)]
pub enum ConfigOption {
    CheckBox(bool),
    Window(Window),
    Pane(Pane),
}

impl Default for ConfigOption {
    /// An unchecked toggle by default.
    fn default() -> (r: ConfigOption)
        ensures
            r matches ConfigOption::CheckBox(b) && b == false,
    {
        ConfigOption::CheckBox(false)
    }
}

/// One item of the plain terminal window.
#[derive(Debug)]
pub struct Config {
    pub text: String,
    pub option: ConfigOption,
}

impl Config {
    /// A fresh item: the given label over an unchecked toggle.
    pub fn new(name: String) -> (r: Config)
        ensures
            r.text == name,
            r.option matches ConfigOption::CheckBox(b) && b == false,
    {
        Config { text: name, option: ConfigOption::CheckBox(false) }
    }

    /// Replace the item's content slot.
    pub fn with_configoption(self, option: ConfigOption) -> (r: Config)
        ensures
            r == (Config { option, ..self }),
    {
        Config { option, ..self }
    }
}

/// A flat, ordered window of terminal items with one selected slot.
#[derive(Debug)]
pub struct Window {
    pub name: String,
    pub configs: Vec<Config>,
    pub selected_option: u16,
}

impl Window {
    /// A fresh, empty window with the given title.
    pub fn new(name: String) -> (r: Window)
        ensures
            r.name == name,
            r.configs@.len() == 0,
            r.selected_option == 0,
    {
        Window { name, configs: Vec::new(), selected_option: 0 }
    }

    /// Append the given items, in order, after the ones already held.
    pub fn with_configs(self, configs: Vec<Config>) -> (r: Window)
        ensures
            r.name == self.name,
            r.selected_option == self.selected_option,
            r.configs@.len() == self.configs@.len() + configs@.len(),
            forall|k: int|
                0 <= k < self.configs@.len() ==> r.configs@[k] == self.configs@[k],
            forall|k: int|
                0 <= k < configs@.len() ==> r.configs@[self.configs@.len() + k] == configs@[k],
    {
        let ghost base = self;
        let ghost given = configs@;
        let mut merged = self;
        let mut rest = configs;
        while rest.len() > 0
            invariant
                merged.name == base.name,
                merged.selected_option == base.selected_option,
                rest@.len() <= given.len(),
                merged.configs@.len() == base.configs@.len() + given.len() - rest@.len(),
                forall|k: int|
                    0 <= k < base.configs@.len() ==> merged.configs@[k] == base.configs@[k],
                forall|k: int|
                    0 <= k < (given.len() - rest@.len()) ==> merged.configs@[base.configs@.len()
                        + k] == given[k],
                rest@ =~= given.subrange(
                    given.len() - rest@.len(),
                    given.len() as int,
                ),
            decreases rest@.len(),
        {
            let c = rest.remove(0);
            merged.configs.push(c);
        }
        merged
    }
}

/// What a placeholder pane shows.
#[derive(Debug, Clone, Copy, PartialEq, Eq, Structural)]
pub enum PaneContent {
    PlaceHolder,
}

/// A pane of the terminal page.
#[derive(Debug, Clone, Copy, PartialEq, Eq, Structural)]
pub struct Pane {
    pub content: PaneContent,
}

/// The plain terminal page: a description and its main window.
#[derive(Debug)]
pub struct Terminal {
    pub description: String,
    pub main_window: Window,
    pub selected_pane: u16,
}

impl Terminal {
    /// The fixed plain terminal page.
    pub fn new() -> (r: Terminal)
        ensures
            r.description@ == "Terminal Config!"@,
            r.selected_pane == 0,
            r.main_window.configs@.len() == 1,
            r.main_window.configs@[0].text@ == "List Controllers"@,
    {
        let mut configs: Vec<Config> = Vec::new();
        configs.push(
            Config::new("List Controllers".to_owned()).with_configoption(
                ConfigOption::CheckBox(false),
            ),
        );
        let ghost given = configs@;
        let window = Window::new("Main menu".to_owned()).with_configs(configs);
        proof {
            assert(window.configs@[0] == given[0]);
        }
        Terminal {
            description: "Terminal Config!".to_owned(),
            main_window: window,
            selected_pane: 0,
        }
    }
}

} // verus!
