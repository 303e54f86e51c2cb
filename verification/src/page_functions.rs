//! The actions the main menu binds to its items: building selectable lists
//! of pages and controllers.
#![allow(unused_imports)]

pub mod page;
pub mod stick;
