//! The capture task: binds one input-controller identity and forwards its
//! native events to the session's event channel.
#![allow(unused_imports)]
use vstd::prelude::*;

use crate::event::{clone_event_sender, Event};

verus! {

/// What an armed capture session hands to the background context: the event
/// sender to forward on and the controller identity to capture.
#[derive(Debug)]
pub struct CaptureLaunch {
    pub sender: tokio::sync::mpsc::UnboundedSender<Event>,
    pub controller: String,
}

/// The capture task: the outbound event sender, the controller identity to
/// bind, and the knowledge of whether a capture session is already live.
#[derive(Debug)]
pub struct ControllerTask {
    pub sender: Option<tokio::sync::mpsc::UnboundedSender<Event>>,
    pub controller: Option<String>,
    pub running: bool,
}

impl ControllerTask {
    /// Both task values agree on every field.
    pub open spec fn unchanged(pre: ControllerTask, post: ControllerTask) -> bool {
        &&& post.sender == pre.sender
        &&& post.controller == pre.controller
        &&& post.running == pre.running
    }

    /// A fresh capture task: no sink, no controller, nothing running.
    pub fn new() -> (r: ControllerTask)
        ensures
            r.sender is None,
            r.controller is None,
            r.running == false,
    {
        ControllerTask { sender: None, controller: None, running: false }
    }

    /// Attach the outbound event sink.
    pub fn add_sender(&mut self, sender: &tokio::sync::mpsc::UnboundedSender<Event>)
        ensures
            final(self).sender is Some,
            final(self).controller == old(self).controller,
            final(self).running == old(self).running,
    {
        self.sender = Some(clone_event_sender(sender));
    }

    /// Choose the controller identity to capture.
    pub fn add_controller(&mut self, controller: String)
        ensures
            final(self).controller == Some(controller),
            final(self).sender == old(self).sender,
            final(self).running == old(self).running,
    {
        self.controller = Some(controller);
    }

    /// Arm the capture session: a no-op while one is already live or while
    /// the sink or the identity is missing (the request is dropped);
    /// otherwise hands out what the background context needs, exactly once,
    /// and remembers that the session runs.
    pub fn add_task(&mut self) -> (r: Option<CaptureLaunch>)
        ensures
            old(self).running ==> r is None && Self::unchanged(*old(self), *final(self)),
            !old(self).running && (old(self).sender is None || old(self).controller is None) ==> r
                is None && Self::unchanged(*old(self), *final(self)),
            !old(self).running && old(self).sender is Some && old(self).controller is Some ==> {
                &&& r matches Some(l)
                &&& l.controller == old(self).controller->0
                &&& final(self).controller == old(self).controller
                &&& final(self).sender == old(self).sender
                &&& final(self).running == true
            },
    {
        if self.running {
            return None;
        }
        let sender = match &self.sender {
            Some(s) => clone_event_sender(s),
            None => {
                return None;
            },
        };
        let controller = match &self.controller {
            Some(c) => c.clone(),
            None => {
                return None;
            },
        };
        self.running = true;
        Some(CaptureLaunch { sender, controller })
    }

    /// The forwarding filter of the capture loop: an event is forwarded
    /// exactly when it came from the bound controller.
    pub fn should_forward(bound: &String, source: &String) -> (r: bool)
        ensures
            r == (bound@ == source@),
    {
        *bound == *source
    }

    /// Resolve a controller identity against the identities the machine
    /// offers: the first index bearing the name, or nothing when no device
    /// matches (the arm request is then dropped).
    pub fn resolve_controller(name: &String, available: &Vec<String>) -> (r: Option<usize>)
        ensures
            r matches Some(k) ==> {
                &&& 0 <= (k as int) < available@.len()
                &&& available@[k as int]@ == name@
                &&& forall|j: int| 0 <= j < k as int ==> (#[trigger] available@[j])@ != name@
            },
            r is None ==> forall|j: int|
                0 <= j < available@.len() ==> (#[trigger] available@[j])@ != name@,
    {
        let mut k: usize = 0;
        while k < available.len()
            invariant
                k <= available@.len(),
                forall|j: int| 0 <= j < k as int ==> (#[trigger] available@[j])@ != name@,
            decreases available@.len() - k,
        {
            if available[k] == *name {
                return Some(k);
            }
            k = k + 1;
        }
        None
    }
}

} // verus!
