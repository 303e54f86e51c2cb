//! The controller telemetry page: holds the most recent reportable
//! controller event, and nothing older.
#![allow(unused_imports)]
use vstd::prelude::*;

use crate::event::ControllerEvent;

verus! {

/// The page state: a scroll position and the latest reportable message.
#[derive(Debug)]
pub struct ControllerTelem {
    pub row_index: usize,
    pub message: Option<ControllerEvent>,
}

/// Whether a controller event is shown on the telemetry page: axis motion,
/// button presses and connection changes are; the rest is dropped.
pub open spec fn reportable(e: ControllerEvent) -> bool {
    match e {
        ControllerEvent::AxisChanged { .. } => true,
        ControllerEvent::ButtonPressed { .. } => true,
        ControllerEvent::Connected => true,
        ControllerEvent::Disconnected => true,
        _ => false,
    }
}

impl ControllerTelem {
    /// A fresh page with no message yet.
    pub fn new() -> (r: ControllerTelem)
        ensures
            r.row_index == 0,
            r.message is None,
    {
        ControllerTelem { row_index: 0, message: None }
    }

    /// Take one controller event: a reportable event replaces the shown
    /// message; any other event leaves it as it was.
    pub fn add_telem(&mut self, event: ControllerEvent)
        ensures
            final(self).row_index == old(self).row_index,
            reportable(event) ==> final(self).message == Some(event),
            !reportable(event) ==> final(self).message == old(self).message,
    {
        match event {
            ControllerEvent::AxisChanged { axis, value } => {
                self.message = Some(ControllerEvent::AxisChanged { axis, value });
            },
            ControllerEvent::ButtonPressed { button, code } => {
                self.message = Some(ControllerEvent::ButtonPressed { button, code });
            },
            ControllerEvent::Connected => {
                self.message = Some(ControllerEvent::Connected);
            },
            ControllerEvent::Disconnected => {
                self.message = Some(ControllerEvent::Disconnected);
            },
            _ => {},
        }
    }
}

} // verus!
