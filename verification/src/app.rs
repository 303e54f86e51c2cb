//! The application state the interactive session drives: the displayed page,
//! the control panel, the two background tasks, and the event sink.
#![allow(unused_imports)]
use vstd::prelude::*;

use crate::event::{clone_event_sender, ControllerEvent, Event};
use crate::pages::controlpanel::{ActionEnv, ControlPanel, ControlResult, Window};
use crate::pages::{ControllerTelem, DriverTelem, Page, StartupPage};
use crate::tasks::controller_task::{CaptureLaunch, ControllerTask};
use crate::tasks::driver_task::{DriverEvent, DriverTask};

verus! {

/// Whether the session keeps running.
#[derive(Debug, Clone, Copy, PartialEq, Eq, Structural)]
pub enum Mode {
    Running,
    Destroy,
    Quit,
}

impl Default for Mode {
    /// A fresh session is running.
    fn default() -> (r: Mode)
        ensures
            r == Mode::Running,
    {
        Mode::Running
    }
}

/// The application: everything the foreground loop owns.
#[derive(Debug)]
pub struct App {
    pub mode: Mode,
    pub counter: u32,
    pub display_x: Option<u16>,
    pub display_y: Option<u16>,
    pub page: Page,
    pub startup_page: StartupPage,
    pub controller_telem: ControllerTelem,
    pub driver_telem: DriverTelem,
    pub control_panel: ControlPanel,
    pub controller_task: ControllerTask,
    pub driver_task: DriverTask,
    pub sender: Option<tokio::sync::mpsc::UnboundedSender<Event>>,
}

impl Default for App {
    /// A fresh application, as [`App::new`] builds it.
    fn default() -> (r: App)
        ensures
            r.wf(),
            r.mode == Mode::Running,
            r.page == Page::Startup,
            r.sender is None,
    {
        App::new()
    }
}

impl App {
    /// The application's invariant: the control panel's and the driver
    /// task's own invariants.
    pub open spec fn wf(self) -> bool {
        &&& self.control_panel.wf()
        &&& self.driver_task.wf()
    }

    /// A fresh application: running, on the startup page, with the fixed
    /// main menu, fresh tasks, and no event sink yet.
    pub fn new() -> (r: App)
        ensures
            r.wf(),
            r.mode == Mode::Running,
            r.counter == 0,
            r.display_x is None,
            r.display_y is None,
            r.page == Page::Startup,
            r.controller_telem.message is None,
            r.driver_telem.message is None,
            r.controller_task.running == false,
            r.driver_task.running == false,
            r.driver_task.port is None,
            r.sender is None,
    {
        App {
            mode: Mode::Running,
            counter: 0,
            display_x: None,
            display_y: None,
            page: Page::Startup,
            startup_page: StartupPage::new(),
            controller_telem: ControllerTelem::new(),
            driver_telem: DriverTelem::new(),
            control_panel: ControlPanel::new(),
            controller_task: ControllerTask::new(),
            driver_task: DriverTask::new(),
            sender: None,
        }
    }

    /// Attach the outbound event sink, for the application itself and for
    /// the driver task.
    pub fn add_sender(&mut self, sender: &tokio::sync::mpsc::UnboundedSender<Event>)
        requires
            old(self).wf(),
        ensures
            final(self).wf(),
            final(self).sender is Some,
            final(self).driver_task.event_sender is Some,
            final(self).driver_task.running == old(self).driver_task.running,
            final(self).driver_task.port == old(self).driver_task.port,
            final(self).control_panel == old(self).control_panel,
            final(self).mode == old(self).mode,
            final(self).page == old(self).page,
    {
        self.sender = Some(clone_event_sender(sender));
        self.driver_task.set_sender(clone_event_sender(sender));
    }

    /// One timer tick of the session; the application itself has nothing to
    /// do on it.
    pub fn tick(&self) {
    }

    /// Whether the session should keep polling for input.
    pub fn is_running(&self) -> (r: bool)
        ensures
            r == (self.mode != Mode::Quit),
    {
        match self.mode {
            Mode::Quit => false,
            _ => true,
        }
    }

    /// Ask the session to stop.
    pub fn quit(&mut self)
        ensures
            *final(self) == (App { mode: Mode::Quit, ..*old(self) }),
    {
        self.mode = Mode::Quit;
    }

    /// Remember the latest pointer position reported by the terminal.
    pub fn set_x_y(&mut self, x: u16, y: u16)
        ensures
            *final(self) == (App { display_x: Some(x), display_y: Some(y), ..*old(self) }),
    {
        self.display_x = Some(x);
        self.display_y = Some(y);
    }

    /// The latest pointer column, if one was reported.
    pub fn get_x(&self) -> (r: Option<u16>)
        ensures
            r == self.display_x,
    {
        self.display_x
    }

    /// The latest pointer row, if one was reported.
    pub fn get_y(&self) -> (r: Option<u16>)
        ensures
            r == self.display_y,
    {
        self.display_y
    }

    /// Move the control panel's cursor one item forward.
    pub fn control_panel_next_item(&mut self)
        requires
            old(self).wf(),
        ensures
            final(self).wf(),
            Window::cursor_step_rel(
                old(self).control_panel.main_window,
                final(self).control_panel.main_window,
            ),
            final(self).page == old(self).page,
            final(self).mode == old(self).mode,
    {
        self.control_panel.next_item();
    }

    /// Move the control panel's cursor one item backward.
    pub fn control_panel_previous_item(&mut self)
        requires
            old(self).wf(),
        ensures
            final(self).wf(),
            Window::cursor_back_rel(
                old(self).control_panel.main_window,
                final(self).control_panel.main_window,
            ),
            final(self).page == old(self).page,
            final(self).mode == old(self).mode,
    {
        self.control_panel.previous_item();
    }

    /// Move the control panel's focus one pane deeper.
    pub fn control_panel_next_window(&mut self)
        requires
            old(self).wf(),
        ensures
            final(self).wf(),
            Window::focus_rel(
                old(self).control_panel.main_window,
                if old(self).control_panel.selected_window < u16::MAX {
                    (old(self).control_panel.selected_window + 1) as u16
                } else {
                    u16::MAX
                },
                final(self).control_panel.main_window,
                final(self).control_panel.selected_window,
            ),
            final(self).page == old(self).page,
            final(self).mode == old(self).mode,
    {
        self.control_panel.next_window();
    }

    /// Move the control panel's focus one pane back toward the root menu.
    pub fn control_panel_prev_window(&mut self)
        requires
            old(self).wf(),
        ensures
            final(self).wf(),
            Window::focus_rel(
                old(self).control_panel.main_window,
                if old(self).control_panel.selected_window == 0 {
                    0u16
                } else {
                    (old(self).control_panel.selected_window - 1) as u16
                },
                final(self).control_panel.main_window,
                final(self).control_panel.selected_window,
            ),
            final(self).page == old(self).page,
            final(self).mode == old(self).mode,
    {
        self.control_panel.prev_window();
    }

    /// How a committed selection is routed: the dispatched effect either
    /// switches the page, arms the capture task (handing out a launch when
    /// none was live), or forwards a command to the driver task.
    pub open spec fn route_rel(
        pre: App,
        env: ActionEnv,
        post: App,
        res: Option<ControlResult>,
        launch: Option<CaptureLaunch>,
    ) -> bool {
        &&& Window::select_rel(pre.control_panel.main_window, env, post.control_panel.main_window, res)
        &&& match res {
            None => post.page == pre.page && post.controller_task == pre.controller_task
                && post.driver_task.port == pre.driver_task.port && launch is None,
            Some(cr) => match cr {
                ControlResult::ChangePage(p) => post.page == p && post.controller_task
                    == pre.controller_task && post.driver_task.port == pre.driver_task.port
                    && launch is None,
                ControlResult::SetController(c) => {
                    &&& post.page == pre.page
                    &&& post.driver_task.port == pre.driver_task.port
                    &&& (pre.sender is None ==> launch is None && post.controller_task
                        == pre.controller_task)
                    &&& (pre.sender is Some ==> {
                        &&& post.controller_task.controller == Some(c)
                        &&& (pre.controller_task.running ==> launch is None
                            && post.controller_task.running)
                        &&& (!pre.controller_task.running ==> {
                            &&& launch matches Some(l)
                            &&& l.controller == c
                            &&& post.controller_task.running == true
                        })
                    })
                },
                ControlResult::DriverChange(ev) => {
                    &&& post.page == pre.page
                    &&& post.controller_task == pre.controller_task
                    &&& launch is None
                    &&& match ev {
                        DriverEvent::SetPort(name) => match env.ports {
                            Ok(ps) => {
                                &&& ((exists|k: int|
                                    0 <= k < ps@.len() && (#[trigger] ps@[k])@ == name@)
                                    ==> (post.driver_task.port matches Some(p) && p.port@
                                        == name@))
                                &&& (!(exists|k: int|
                                    0 <= k < ps@.len() && (#[trigger] ps@[k])@ == name@)
                                    ==> post.driver_task.port == pre.driver_task.port)
                            },
                            Err(_) => post.driver_task.port == pre.driver_task.port,
                        },
                        _ => post.driver_task.port == pre.driver_task.port,
                    }
                },
            },
        }
    }

    /// Commit the control panel's selection against the hardware catalog and
    /// route the dispatched effect; a capture launch, when one is handed
    /// out, is for the caller's background context to run.
    pub fn control_panel_select(&mut self, env: &ActionEnv) -> (launch: Option<CaptureLaunch>)
        requires
            old(self).wf(),
            env.wf(),
        ensures
            final(self).wf(),
            final(self).mode == old(self).mode,
            exists|res: Option<ControlResult>|
                #[trigger] Self::route_rel(*old(self), *env, *final(self), res, launch),
    {
        let result = self.control_panel.select(env);
        let ghost res = result;
        let launch: Option<CaptureLaunch> = match result {
            Some(ControlResult::ChangePage(page)) => {
                self.change_page(page);
                None
            },
            Some(ControlResult::SetController(controller)) => {
                let cloned = match &self.sender {
                    Some(s) => Some(clone_event_sender(s)),
                    None => None,
                };
                match cloned {
                    Some(s) => {
                        self.controller_task.add_sender(&s);
                        self.controller_task.add_controller(controller);
                        self.controller_task.add_task()
                    },
                    None => None,
                }
            },
            Some(ControlResult::DriverChange(event)) => {
                match event {
                    DriverEvent::SetPort(name) => {
                        match &env.ports {
                            Ok(ps) => {
                                let _ = self.driver_task.set_port(name, ps);
                            },
                            Err(_) => {},
                        }
                    },
                    DriverEvent::StateChange(state) => {
                        let _ = self.driver_task.request_state(state);
                    },
                    _ => {},
                }
                None
            },
            None => None,
        };
        proof {
            assert(Self::route_rel(*old(self), *env, *self, res, launch));
        }
        launch
    }

    /// Switch the displayed page.
    fn change_page(&mut self, page: Page)
        ensures
            *final(self) == (App { page, ..*old(self) }),
    {
        self.page = page;
    }

    /// Show a controller event on the controller telemetry page.
    pub fn handle_controller_event(&mut self, event: ControllerEvent)
        requires
            old(self).wf(),
        ensures
            final(self).wf(),
            crate::pages::controllertelem::reportable(event) ==> final(self).controller_telem.message
                == Some(event),
            !crate::pages::controllertelem::reportable(event) ==> final(self).controller_telem.message
                == old(self).controller_telem.message,
            final(self).page == old(self).page,
            final(self).mode == old(self).mode,
    {
        self.controller_telem.add_telem(event);
    }

    /// Show a driver event on the driver telemetry page.
    pub fn handle_driver_event(&mut self, event: DriverEvent)
        requires
            old(self).wf(),
        ensures
            final(self).wf(),
            (event matches DriverEvent::StateReport(st) ==> final(self).driver_telem.message
                == Some(st)),
            !(event is StateReport) ==> final(self).driver_telem.message == old(self).driver_telem.message,
            final(self).page == old(self).page,
            final(self).mode == old(self).mode,
    {
        self.driver_telem.add_telem(event);
    }
}

} // verus!
