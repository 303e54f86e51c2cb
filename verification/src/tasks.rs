//! Background task bridge: the capture task for one input controller and the
//! driver task that owns the serial driver state machine.
#![allow(unused_imports)]

pub mod controller_task;
pub mod driver_task;

pub use controller_task::{CaptureLaunch, ControllerTask};
pub use driver_task::{
    Driver, DriverError, DriverEvent, DriverLaunch, DriverPort, DriverState, DriverTask,
};
