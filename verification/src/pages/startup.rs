//! The startup page shown before any telemetry arrives.
#![allow(unused_imports)]
use vstd::prelude::*;

verus! {

/// The page state: only a scroll position.
#[derive(Debug, Clone, Copy, PartialEq, Eq, Structural)]
pub struct StartupPage {
    pub row_index: usize,
}

impl StartupPage {
    /// A fresh startup page.
    pub fn new() -> (r: StartupPage)
        ensures
            r.row_index == 0,
    {
        StartupPage { row_index: 0 }
    }
}

} // verus!
