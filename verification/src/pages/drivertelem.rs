//! The driver telemetry page: holds the most recently reported driver state,
//! and nothing older.
#![allow(unused_imports)]
use vstd::prelude::*;

use crate::tasks::driver_task::{DriverEvent, DriverState};

verus! {

/// The page state: a scroll position and the latest reported driver state.
#[derive(Debug)]
pub struct DriverTelem {
    pub row_index: usize,
    pub message: Option<DriverState>,
}

impl DriverTelem {
    /// A fresh page with no message yet.
    pub fn new() -> (r: DriverTelem)
        ensures
            r.row_index == 0,
            r.message is None,
    {
        DriverTelem { row_index: 0, message: None }
    }

    /// Take one driver event: a state report replaces the shown state; any
    /// other event leaves it as it was.
    pub fn add_telem(&mut self, event: DriverEvent)
        ensures
            final(self).row_index == old(self).row_index,
            (event matches DriverEvent::StateReport(st) ==> final(self).message == Some(st)),
            !(event is StateReport) ==> final(self).message == old(self).message,
    {
        match event {
            DriverEvent::StateReport(state) => {
                self.message = Some(state);
            },
            _ => {},
        }
    }
}

} // verus!
