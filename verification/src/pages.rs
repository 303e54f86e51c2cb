//! The selectable pages of the control panel and the page registry.
#![allow(unused_imports)]
use vstd::prelude::*;

pub mod controllertelem;
pub mod controlpanel;
pub mod drivertelem;
pub mod startup;
pub mod terminal;

pub use controllertelem::ControllerTelem;
pub use controlpanel::{
    ActionEnv, Config, ConfigAction, ConfigFnOptions, ConfigOption, ConfigWindowAction,
    ControlPanel, ControlResult, PlainAction, PresetWindow, Window, WindowAction,
    WindowToWindowAction,
};
pub use drivertelem::DriverTelem;
pub use startup::StartupPage;

verus! {

/// A telemetry page that the session can display.
#[derive(Debug, Clone, Copy, PartialEq, Eq, Structural)]
pub enum Page {
    Startup,
    ControllerTelem,
    DriverTelem,
}

/// The display names of all pages, in their fixed order.
pub open spec fn page_names() -> Seq<Seq<char>> {
    seq!["Startup"@, "ControllerTelem"@, "DriverTelem"@]
}

/// The page a display name selects, if any.
pub open spec fn page_of_name(s: Seq<char>) -> Option<Page> {
    if s == "Startup"@ {
        Some(Page::Startup)
    } else if s == "ControllerTelem"@ {
        Some(Page::ControllerTelem)
    } else if s == "DriverTelem"@ {
        Some(Page::DriverTelem)
    } else {
        None
    }
}

impl Default for Page {
    /// The session starts on the startup page.
    fn default() -> (r: Page)
        ensures
            r == Page::Startup,
    {
        Page::Startup
    }
}

impl Page {
    /// The display name of the page, also used to select it by name.
    pub open spec fn spec_name(self) -> Seq<char> {
        match self {
            Page::Startup => "Startup"@,
            Page::ControllerTelem => "ControllerTelem"@,
            Page::DriverTelem => "DriverTelem"@,
        }
    }

    /// The display name of the page.
    pub fn name(&self) -> (r: String)
        ensures
            r@ == self.spec_name(),
    {
        match self {
            Page::Startup => "Startup".to_owned(),
            Page::ControllerTelem => "ControllerTelem".to_owned(),
            Page::DriverTelem => "DriverTelem".to_owned(),
        }
    }

    /// Look a page up by its display name; an unknown name yields nothing.
    pub fn from_name(name: &str) -> (r: Option<Page>)
        ensures
            r == page_of_name(name@),
    {
        let n = name.to_owned();
        if n == "Startup".to_owned() {
            Some(Page::Startup)
        } else if n == "ControllerTelem".to_owned() {
            Some(Page::ControllerTelem)
        } else if n == "DriverTelem".to_owned() {
            Some(Page::DriverTelem)
        } else {
            None
        }
    }

    /// All pages, in the order of [`page_names`].
    pub fn all() -> (v: Vec<Page>)
        ensures
            v@ == seq![Page::Startup, Page::ControllerTelem, Page::DriverTelem],
    {
        let mut v: Vec<Page> = Vec::new();
        v.push(Page::Startup);
        v.push(Page::ControllerTelem);
        v.push(Page::DriverTelem);
        proof {
            assert(v@ =~= seq![Page::Startup, Page::ControllerTelem, Page::DriverTelem]);
        }
        v
    }
}

/// Every page's display name selects that page back: the page registry is
/// consistent in both directions.
pub proof fn lemma_page_name_round_trip(p: Page)
    ensures
        page_of_name(p.spec_name()) == Some(p),
{
    reveal_strlit("Startup");
    reveal_strlit("ControllerTelem");
    reveal_strlit("DriverTelem");
    assert("Startup"@.len() == 7);
    assert("ControllerTelem"@.len() == 15);
    assert("DriverTelem"@.len() == 11);
    match p {
        Page::Startup => {
            assert(page_of_name("Startup"@) == Some(Page::Startup));
        },
        Page::ControllerTelem => {
            assert(page_of_name("ControllerTelem"@) == Some(Page::ControllerTelem));
        },
        Page::DriverTelem => {
            assert(page_of_name("DriverTelem"@) == Some(Page::DriverTelem));
        },
    }
}

/// The display names of the pages, as owned strings, in their fixed order.
pub fn page_name_list() -> (v: Vec<String>)
    ensures
        v.deep_view() == page_names(),
        v@.len() == 3,
{
    let mut v: Vec<String> = Vec::new();
    v.push("Startup".to_owned());
    v.push("ControllerTelem".to_owned());
    v.push("DriverTelem".to_owned());
    proof {
        assert(v.deep_view() =~= page_names());
    }
    v
}

} // verus!
