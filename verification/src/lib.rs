//! A terminal control panel core: a hierarchical navigation menu with
//! action dispatch, plus the task bridge that connects background hardware
//! drivers to the interactive session through event channels.
#![allow(unused_imports)]

pub mod app;
pub mod event;
pub mod page_functions;
pub mod pages;
pub mod tasks;
