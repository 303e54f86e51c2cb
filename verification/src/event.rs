//! Events flowing from the background tasks to the interactive session, and
//! the channel plumbing they travel on.
#![allow(unused_imports)]
use vstd::prelude::*;

use crate::tasks::driver_task::DriverEvent;

verus! {

/// A controller's native input, modelled as plain values: axis, button and
/// code identities and the axis reading arrive as text prepared at the edge.
#[derive(Debug)]
pub enum ControllerEvent {
    AxisChanged { axis: String, value: String },
    ButtonPressed { button: String, code: String },
    ButtonReleased,
    ButtonChanged,
    ButtonRepeated,
    Connected,
    Disconnected,
    Other,
}

/// An event from a background task to the session.
#[derive(Debug)]
pub enum Event {
    Controller(ControllerEvent),
    Driver(DriverEvent),
}

#[verifier::external_type_specification]
#[verifier::external_body]
#[verifier::reject_recursive_types(T)]
pub struct ExUnboundedSender<T>(tokio::sync::mpsc::UnboundedSender<T>);

#[verifier::external_type_specification]
#[verifier::external_body]
#[verifier::reject_recursive_types(T)]
pub struct ExUnboundedReceiver<T>(tokio::sync::mpsc::UnboundedReceiver<T>);

/// What one poll of the command channel yielded: a command, nothing yet, or
/// a channel whose senders are all gone.
#[derive(Debug)]
pub enum CommandPoll {
    Msg(DriverEvent),
    Empty,
    Closed,
}

/// Relies on tokio's `mpsc::unbounded_channel`: a connected sender/receiver
/// pair for driver commands.
#[verifier::external_body]
pub(crate) fn command_channel() -> (
    tokio::sync::mpsc::UnboundedSender<DriverEvent>,
    tokio::sync::mpsc::UnboundedReceiver<DriverEvent>,
) {
    tokio::sync::mpsc::unbounded_channel()
}

/// Relies on `UnboundedSender::send`: queues the event without blocking;
/// the send fails only when the receiving half is gone.
#[verifier::external_body]
pub(crate) fn send_event(s: &tokio::sync::mpsc::UnboundedSender<Event>, e: Event) -> (ok: bool) {
    s.send(e).is_ok()
}

/// Relies on `UnboundedSender::send`: queues the driver command without
/// blocking; the send fails only when the receiving half is gone.
#[verifier::external_body]
pub(crate) fn send_command(
    s: &tokio::sync::mpsc::UnboundedSender<DriverEvent>,
    e: DriverEvent,
) -> (ok: bool) {
    s.send(e).is_ok()
}

/// Relies on `UnboundedReceiver::try_recv`: one queued command if any is
/// waiting, without blocking.
#[verifier::external_body]
pub(crate) fn poll_command(r: &mut tokio::sync::mpsc::UnboundedReceiver<DriverEvent>) -> (p:
    CommandPoll) {
    match r.try_recv() {
        Ok(e) => CommandPoll::Msg(e),
        Err(tokio::sync::mpsc::error::TryRecvError::Empty) => CommandPoll::Empty,
        Err(tokio::sync::mpsc::error::TryRecvError::Disconnected) => CommandPoll::Closed,
    }
}

/// Relies on `UnboundedReceiver::len`: how many messages are queued right
/// now.
#[verifier::external_body]
pub(crate) fn pending_commands(r: &tokio::sync::mpsc::UnboundedReceiver<DriverEvent>) -> usize {
    r.len()
}

/// Relies on `UnboundedSender::clone`: another handle to the same channel.
#[verifier::external_body]
pub(crate) fn clone_event_sender(
    s: &tokio::sync::mpsc::UnboundedSender<Event>,
) -> tokio::sync::mpsc::UnboundedSender<Event> {
    s.clone()
}

} // verus!
