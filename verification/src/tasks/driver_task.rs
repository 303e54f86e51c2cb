//! The serial driver: port binding, the driver state machine, and the task
//! that runs it behind a command channel.
#![allow(unused_imports)]
use vstd::prelude::*;

use crate::event::{
    command_channel, pending_commands, poll_command, send_command, send_event, CommandPoll, Event,
};

verus! {

/// The residency states of the driver state machine.
#[derive(Debug, Clone, Copy, PartialEq, Eq, Structural)]
pub enum DriverState {
    Active,
    Connected,
    Disabled,
    Enabled,
}

/// Configuration and enumeration failures of the driver side. They are
/// returned as values and never end the session.
#[derive(Debug)]
pub enum DriverError {
    /// The requested port name is not among the ports the machine offers.
    InvalidPort,
    /// `start` was asked to run the driver before a port was bound.
    NoPortConfigured,
    /// `start` was asked to run the driver before an event sink was attached.
    NoEventSinkConfigured,
    /// Listing the serial ports itself failed; the cause is kept as text.
    PortEnumerationFailed(String),
}

/// A message into or out of the driver: commands it consumes and the reports
/// and errors it emits.
#[derive(Debug)]
pub enum DriverEvent {
    StateChangeError(String),
    StateChange(DriverState),
    SetPort(String),
    StateReport(DriverState),
    Error(String),
}

impl Clone for DriverEvent {
    /// A clone carries exactly the same message.
    fn clone(&self) -> (r: Self)
        ensures
            r == *self,
    {
        match self {
            DriverEvent::StateChangeError(s) => DriverEvent::StateChangeError(s.clone()),
            DriverEvent::StateChange(st) => DriverEvent::StateChange(*st),
            DriverEvent::SetPort(s) => DriverEvent::SetPort(s.clone()),
            DriverEvent::StateReport(st) => DriverEvent::StateReport(*st),
            DriverEvent::Error(s) => DriverEvent::Error(s.clone()),
        }
    }
}


/// Word size of one serial frame.
#[derive(Debug, Clone, Copy, PartialEq, Eq, Structural)]
pub enum DataBits {
    Five,
    Six,
    Seven,
    Eight,
}

/// Flow control of the serial line.
#[derive(Debug, Clone, Copy, PartialEq, Eq, Structural)]
pub enum FlowControl {
    NoFlowControl,
    Software,
    Hardware,
}

/// Parity of one serial frame.
#[derive(Debug, Clone, Copy, PartialEq, Eq, Structural)]
pub enum Parity {
    NoParity,
    Odd,
    Even,
}

/// Stop bits of one serial frame.
#[derive(Debug, Clone, Copy, PartialEq, Eq, Structural)]
pub enum StopBits {
    One,
    Two,
}

/// A validated port configuration: the port name that passed enumeration and
/// the line settings the transport will be opened with.
#[derive(Debug)]
pub struct DriverPort {
    pub port: String,
    pub baud: u32,
    pub data_bits: DataBits,
    pub flow_control: FlowControl,
    pub parity: Parity,
    pub stop_bits: StopBits,
}

impl Clone for DriverPort {
    /// A clone carries exactly the same configuration.
    fn clone(&self) -> (r: Self)
        ensures
            r == *self,
    {
        DriverPort {
            port: self.port.clone(),
            baud: self.baud,
            data_bits: self.data_bits,
            flow_control: self.flow_control,
            parity: self.parity,
            stop_bits: self.stop_bits,
        }
    }
}

impl DriverPort {
    /// Bind a port name against the list of ports the machine offers:
    /// succeeds, with the default line settings, exactly when the name is in
    /// the list, and fails with `InvalidPort` otherwise.
    pub fn bind(port: String, available: &Vec<String>) -> (r: Result<DriverPort, DriverError>)
        ensures
            (exists|k: int| 0 <= k < available@.len() && (#[trigger] available@[k])@ == port@)
                <==> r is Ok,
            r matches Ok(p) ==> {
                &&& p.port == port
                &&& p.baud == 115200
                &&& p.data_bits == DataBits::Eight
                &&& p.flow_control == FlowControl::NoFlowControl
                &&& p.parity == Parity::NoParity
                &&& p.stop_bits == StopBits::One
            },
            r matches Err(e) ==> e is InvalidPort,
    {
        let mut k: usize = 0;
        let mut found = false;
        while k < available.len() && !found
            invariant
                k <= available@.len(),
                found ==> exists|j: int|
                    0 <= j < available@.len() && (#[trigger] available@[j])@ == port@,
                !found ==> forall|j: int| 0 <= j < k as int ==> (#[trigger] available@[j])@
                    != port@,
            decreases available@.len() - k,
        {
            if available[k] == port {
                found = true;
                proof {
                    assert(available@[k as int]@ == port@);
                }
            }
            k = k + 1;
        }
        if found {
            Ok(
                DriverPort {
                    port,
                    baud: 115200,
                    data_bits: DataBits::Eight,
                    flow_control: FlowControl::NoFlowControl,
                    parity: Parity::NoParity,
                    stop_bits: StopBits::One,
                },
            )
        } else {
            Err(DriverError::InvalidPort)
        }
    }

    /// Bind a port by name against the outcome of a port scan: a scan that
    /// failed becomes `PortEnumerationFailed` with the scanner's message, and
    /// an unlisted name fails with `InvalidPort`, as in [`DriverPort::bind`].
    pub fn new(port: String, scan: Result<Vec<String>, String>) -> (r: Result<
        DriverPort,
        DriverError,
    >)
        ensures
            scan matches Err(m) ==> (r matches Err(e) && e matches
                DriverError::PortEnumerationFailed(c) && c == m),
            scan matches Ok(ps) ==> {
                &&& ((exists|k: int| 0 <= k < ps@.len() && (#[trigger] ps@[k])@ == port@) <==> r
                    is Ok)
                &&& (r matches Ok(p) ==> p.port == port && p.baud == 115200)
                &&& (r matches Err(e) ==> e is InvalidPort)
            },
    {
        match scan {
            Ok(ps) => DriverPort::bind(port, &ps),
            Err(m) => Err(DriverError::PortEnumerationFailed(m)),
        }
    }

    /// The outcome of a port scan as the port list: a scan that failed
    /// becomes `PortEnumerationFailed` carrying the scanner's message.
    pub fn get_ports(scan: Result<Vec<String>, String>) -> (r: Result<Vec<String>, DriverError>)
        ensures
            scan matches Ok(ps) ==> (r matches Ok(qs) && qs == ps),
            scan matches Err(m) ==> (r matches Err(e) && e matches
                DriverError::PortEnumerationFailed(c) && c == m),
    {
        match scan {
            Ok(ps) => Ok(ps),
            Err(m) => Err(DriverError::PortEnumerationFailed(m)),
        }
    }

    /// Replace the baud rate.
    pub fn with_baud(self, baud: u32) -> (r: DriverPort)
        ensures
            r == (DriverPort { baud, ..self }),
    {
        DriverPort { baud, ..self }
    }
}

/// The state the driver settles into after honoring the given commands: the
/// last state-change request wins, and without one the state stays.
pub open spec fn last_requested(s: DriverState, cmds: Seq<DriverEvent>) -> DriverState
    decreases cmds.len(),
{
    if cmds.len() == 0 {
        s
    } else {
        match cmds.last() {
            DriverEvent::StateChange(t) => t,
            _ => last_requested(s, cmds.drop_last()),
        }
    }
}

/// The driver state machine: the current state, the command channel it
/// consumes, and the event channel it reports on. The transport itself is a
/// collaborator concern; the driver's job is state residency and continuous
/// reporting.
#[derive(Debug)]
pub struct Driver {
    pub state: DriverState,
    pub receiver: tokio::sync::mpsc::UnboundedReceiver<DriverEvent>,
    pub sender: tokio::sync::mpsc::UnboundedSender<Event>,
}

impl Driver {
    /// A fresh driver: it starts in `Active`.
    pub fn new(
        receiver: tokio::sync::mpsc::UnboundedReceiver<DriverEvent>,
        sender: tokio::sync::mpsc::UnboundedSender<Event>,
    ) -> (r: Driver)
        ensures
            r.state == DriverState::Active,
            r.sender == sender,
    {
        Driver { state: DriverState::Active, receiver, sender }
    }

    /// Honor a batch of commands: the last state-change request wins; every
    /// other command is ignored.
    pub fn apply_commands(&mut self, cmds: &Vec<DriverEvent>)
        ensures
            final(self).state == last_requested(old(self).state, cmds@),
            final(self).receiver == old(self).receiver,
            final(self).sender == old(self).sender,
    {
        let mut k: usize = 0;
        while k < cmds.len()
            invariant
                k <= cmds@.len(),
                self.state == last_requested(old(self).state, cmds@.subrange(0, k as int)),
                self.receiver == old(self).receiver,
                self.sender == old(self).sender,
            decreases cmds@.len() - k,
        {
            match &cmds[k] {
                DriverEvent::StateChange(t) => {
                    self.state = *t;
                },
                _ => {},
            }
            proof {
                assert(cmds@.subrange(0, k as int + 1).drop_last() =~= cmds@.subrange(
                    0,
                    k as int,
                ));
                assert(cmds@.subrange(0, k as int + 1).last() == cmds@[k as int]);
            }
            k = k + 1;
        }
        proof {
            assert(cmds@.subrange(0, cmds@.len() as int) =~= cmds@);
        }
    }

    /// Drain the commands that are queued right now: reads the queue length
    /// once and receives at most that many messages, so a tick never chases
    /// a producer. Also reports whether the command channel is still open.
    pub fn poll_commands(&mut self) -> (out: (Vec<DriverEvent>, bool))
        ensures
            final(self).state == old(self).state,
            final(self).sender == old(self).sender,
    {
        let n = pending_commands(&self.receiver);
        let mut cmds: Vec<DriverEvent> = Vec::new();
        let mut alive = true;
        let mut done = false;
        let mut k: usize = 0;
        while k < n && !done
            invariant
                self.state == old(self).state,
                self.sender == old(self).sender,
            decreases n - k,
        {
            match poll_command(&mut self.receiver) {
                CommandPoll::Msg(e) => {
                    cmds.push(e);
                },
                CommandPoll::Empty => {
                    done = true;
                },
                CommandPoll::Closed => {
                    alive = false;
                    done = true;
                },
            }
            k = k + 1;
        }
        (cmds, alive)
    }

    /// One polling tick: drain the pending commands, honor the last
    /// state-change request among them, and emit a report of the resulting
    /// state. Returns false when a channel end is gone and the task should
    /// stop; the state update holds either way.
    pub fn tick(&mut self) -> (alive: bool)
        ensures
            exists|cmds: Seq<DriverEvent>|
                final(self).state == last_requested(old(self).state, cmds),
            final(self).sender == old(self).sender,
    {
        let (cmds, alive_in) = self.poll_commands();
        self.apply_commands(&cmds);
        let report = DriverEvent::StateReport(self.state);
        let sent = send_event(&self.sender, Event::Driver(report));
        alive_in && sent
    }

    /// The report the driver emits every tick: its current state.
    pub fn state_report(&self) -> (e: DriverEvent)
        ensures
            e == DriverEvent::StateReport(self.state),
    {
        DriverEvent::StateReport(self.state)
    }
}

/// What a successful start hands to the background context: the command
/// receiver, the event sender, and the bound port configuration.
#[derive(Debug)]
pub struct DriverLaunch {
    pub receiver: tokio::sync::mpsc::UnboundedReceiver<DriverEvent>,
    pub sender: tokio::sync::mpsc::UnboundedSender<Event>,
    pub port: DriverPort,
}

/// The driver task: owns the command channel into the driver, the bound port
/// configuration, and the knowledge of whether a background context already
/// runs the driver.
#[derive(Debug)]
pub struct DriverTask {
    pub event_sender: Option<tokio::sync::mpsc::UnboundedSender<Event>>,
    pub to_driver_sender: tokio::sync::mpsc::UnboundedSender<DriverEvent>,
    pub to_driver_receiver: Option<tokio::sync::mpsc::UnboundedReceiver<DriverEvent>>,
    pub running: bool,
    pub port: Option<DriverPort>,
}

impl DriverTask {
    /// The command receiver is held until the task starts, and given up
    /// exactly then.
    pub open spec fn wf(self) -> bool {
        self.running <==> self.to_driver_receiver is None
    }

    /// The two task values agree on every field.
    pub open spec fn unchanged(pre: DriverTask, post: DriverTask) -> bool {
        &&& post.event_sender == pre.event_sender
        &&& post.to_driver_sender == pre.to_driver_sender
        &&& post.to_driver_receiver == pre.to_driver_receiver
        &&& post.running == pre.running
        &&& post.port == pre.port
    }

    /// A fresh task: a new command channel, no event sink, no port, and no
    /// background context yet.
    pub fn new() -> (r: DriverTask)
        ensures
            r.event_sender is None,
            r.to_driver_receiver is Some,
            r.running == false,
            r.port is None,
            r.wf(),
    {
        let (to_driver_sender, to_driver_receiver) = command_channel();
        DriverTask {
            event_sender: None,
            to_driver_sender,
            to_driver_receiver: Some(to_driver_receiver),
            running: false,
            port: None,
        }
    }

    /// Bind a port by name against the list of ports the machine offers:
    /// stores the configuration exactly when the name is in the list, and
    /// fails with `InvalidPort` (leaving the task untouched) otherwise.
    pub fn set_port(&mut self, name: String, available: &Vec<String>) -> (r: Result<
        (),
        DriverError,
    >)
        ensures
            (exists|k: int| 0 <= k < available@.len() && (#[trigger] available@[k])@ == name@)
                <==> r is Ok,
            r is Ok ==> {
                &&& final(self).port matches Some(p) && p.port == name
                &&& final(self).event_sender == old(self).event_sender
                &&& final(self).to_driver_sender == old(self).to_driver_sender
                &&& final(self).to_driver_receiver == old(self).to_driver_receiver
                &&& final(self).running == old(self).running
            },
            r matches Err(e) ==> e is InvalidPort && Self::unchanged(*old(self), *final(self)),
            final(self).wf() == old(self).wf(),
    {
        match DriverPort::bind(name, available) {
            Ok(p) => {
                self.port = Some(p);
                Ok(())
            },
            Err(e) => Err(e),
        }
    }

    /// Queue a state-change request for the driver. The send fails only when
    /// the driver has gone away with its receiver.
    pub fn request_state(&mut self, state: DriverState) -> (sent: bool)
        ensures
            Self::unchanged(*old(self), *final(self)),
    {
        send_command(&self.to_driver_sender, DriverEvent::StateChange(state))
    }

    /// Attach the outbound event sink the driver will report on.
    pub fn set_sender(&mut self, event_sender: tokio::sync::mpsc::UnboundedSender<Event>)
        ensures
            final(self).event_sender == Some(event_sender),
            final(self).to_driver_sender == old(self).to_driver_sender,
            final(self).to_driver_receiver == old(self).to_driver_receiver,
            final(self).running == old(self).running,
            final(self).port == old(self).port,
    {
        self.event_sender = Some(event_sender);
    }

    /// Decide whether the driver may start: fails with `NoPortConfigured`
    /// without a bound port and `NoEventSinkConfigured` without an event
    /// sink, is a no-op (`Ok(None)`) once a context already runs, and
    /// otherwise hands out everything the background context needs, exactly
    /// once.
    pub fn start_driver(&mut self) -> (r: Result<Option<DriverLaunch>, DriverError>)
        requires
            old(self).wf(),
        ensures
            final(self).wf(),
            old(self).port is None ==> {
                &&& r matches Err(e)
                &&& e is NoPortConfigured
                &&& Self::unchanged(*old(self), *final(self))
            },
            old(self).port is Some && old(self).running ==> {
                &&& r matches Ok(l)
                &&& l is None
                &&& Self::unchanged(*old(self), *final(self))
            },
            old(self).port is Some && !old(self).running && old(self).event_sender is None ==> {
                &&& r matches Err(e)
                &&& e is NoEventSinkConfigured
                &&& Self::unchanged(*old(self), *final(self))
            },
            old(self).port is Some && old(self).event_sender is Some && !old(self).running ==> {
                &&& r matches Ok(ol)
                &&& ol matches Some(l)
                &&& l.receiver == old(self).to_driver_receiver->0
                &&& l.sender == old(self).event_sender->0
                &&& l.port == old(self).port->0
                &&& final(self).running == true
                &&& final(self).to_driver_receiver is None
                &&& final(self).event_sender is None
                &&& final(self).port == old(self).port
                &&& final(self).to_driver_sender == old(self).to_driver_sender
            },
    {
        if self.port.is_none() {
            return Err(DriverError::NoPortConfigured);
        }
        if self.running {
            return Ok(None);
        }
        if self.event_sender.is_none() {
            return Err(DriverError::NoEventSinkConfigured);
        }
        let receiver = self.to_driver_receiver.take().unwrap();
        let sender = self.event_sender.take().unwrap();
        let port = match &self.port {
            Some(p) => p.clone(),
            None => {
                proof {
                    assert(false);
                }
                DriverPort {
                    port: String::new(),
                    baud: 115200,
                    data_bits: DataBits::Eight,
                    flow_control: FlowControl::NoFlowControl,
                    parity: Parity::NoParity,
                    stop_bits: StopBits::One,
                }
            },
        };
        self.running = true;
        Ok(Some(DriverLaunch { receiver, sender, port }))
    }

    /// The selectable port list as a sub-window, one entry per available
    /// port; selecting an entry forwards that port name as a driver command.
    pub fn list_ports(ports: &Vec<String>) -> (out: (
        crate::pages::controlpanel::Window,
        Option<crate::pages::controlpanel::ControlResult>,
    ))
        requires
            ports@.len() <= u16::MAX,
        ensures
            crate::pages::controlpanel::plain_label_window(
                out.0,
                "Available ports"@,
                ports.deep_view(),
                Some(crate::pages::controlpanel::ConfigAction::PickPort),
            ),
            out.0.wf(),
            out.1 is None,
    {
        (
            crate::pages::controlpanel::build_label_window(
                "Available ports".to_owned(),
                ports,
                Some(crate::pages::controlpanel::ConfigAction::PickPort),
            ),
            None,
        )
    }
}

} // verus!
