//! The steps of one control command.
//!
//! A command opens the selected device, reads the names of its controls,
//! resolves the requested control among them and writes the value. The
//! device work is done by the caller; what to do next is decided here.
//! The caller performs each action it is handed and reports what came of
//! it as the next event, until it is handed `Finish`. The device is held
//! from the moment it reports as opened until `Finish`, and never longer.

use crate::device::SelectedDevice;
use crate::resolver::{names_of, position_of, resolve, title_of};
use vstd::prelude::*;
use vstd::string::*;

verus! {

/// The error condition that a command records.
#[derive(Clone, Copy, Debug, PartialEq, Eq, Structural)]
pub enum Failure {
    /// The device could not be opened.
    Open,
    /// The device was opened, but its controls could not be read.
    ControlList,
    /// The device reports no control of the requested name.
    ControlNotFound,
    /// The driver rejected the value.
    SetControl,
}

/// How far a command has come.
#[derive(Clone, Copy, Debug, PartialEq, Eq, Structural)]
pub enum Phase {
    /// Waiting for the device to be opened.
    Opening,
    /// The device is open; waiting for the names of its controls.
    Listing,
    /// The device is open; waiting for the value to be written.
    Setting,
    /// The command is over.
    Finished,
}

impl Phase {
    /// Whether the device is held open in this phase.
    pub open spec fn holds_device(self) -> bool {
        self == Phase::Listing || self == Phase::Setting
    }

    /// The number of events that can still be accepted from this phase on.
    pub open spec fn remaining(self) -> nat {
        match self {
            Phase::Opening => 3,
            Phase::Listing => 2,
            Phase::Setting => 1,
            Phase::Finished => 0,
        }
    }
}

/// What the caller reports of the action it performed.
#[derive(Clone, Debug, PartialEq, Eq)]
pub enum Event {
    /// The device is open.
    Opened,
    /// The device could not be opened; the driver's message.
    OpenFailed(String),
    /// The names of the controls that the device reports.
    ControlsListed(Vec<String>),
    /// The controls of the device could not be read.
    ControlsFailed,
    /// The driver accepted the value.
    ValueSet,
    /// The driver rejected the value.
    SetFailed,
}

/// What the caller is to do next.
#[derive(Clone, Debug, PartialEq, Eq)]
pub enum Action {
    /// Open the device of this index, requesting no particular format.
    Open { index: u32 },
    /// Read the names of the controls that the open device reports.
    ListControls,
    /// Write `value` to the control reported at `position`.
    SetControl { position: usize, value: i64 },
    /// Release the device if it is open, record `failure` if there is one,
    /// and answer the command with `reply`.
    Finish { reply: String, failure: Option<Failure> },
}

/// An event as proofs see it.
pub ghost enum EventView {
    Opened,
    OpenFailed(Seq<char>),
    ControlsListed(Seq<Seq<char>>),
    ControlsFailed,
    ValueSet,
    SetFailed,
}

/// An action as proofs see it.
pub ghost enum ActionView {
    Open { index: u32 },
    ListControls,
    SetControl { position: int, value: i64 },
    Finish { reply: Seq<char>, failure: Option<Failure> },
}

impl View for Event {
    type V = EventView;

    open spec fn view(&self) -> EventView {
        match *self {
            Event::Opened => EventView::Opened,
            Event::OpenFailed(message) => EventView::OpenFailed(message@),
            Event::ControlsListed(names) => EventView::ControlsListed(names_of(names@)),
            Event::ControlsFailed => EventView::ControlsFailed,
            Event::ValueSet => EventView::ValueSet,
            Event::SetFailed => EventView::SetFailed,
        }
    }
}

impl View for Action {
    type V = ActionView;

    open spec fn view(&self) -> ActionView {
        match *self {
            Action::Open { index } => ActionView::Open { index },
            Action::ListControls => ActionView::ListControls,
            Action::SetControl { position, value } => ActionView::SetControl {
                position: position as int,
                value,
            },
            Action::Finish { reply, failure } => ActionView::Finish { reply: reply@, failure },
        }
    }
}

/// One command in progress: the control it names, the value it is to
/// write, and how far it has come.
#[derive(Debug)]
pub struct ControlSession {
    method: String,
    value: i64,
    phase: Phase,
}

/// A command in progress as proofs see it.
pub ghost struct SessionView {
    pub method: Seq<char>,
    pub value: i64,
    pub phase: Phase,
}

impl View for ControlSession {
    type V = SessionView;

    closed spec fn view(&self) -> SessionView {
        SessionView { method: self.method@, value: self.value, phase: self.phase }
    }
}

/// The answer to a command whose device could not be opened.
pub open spec fn open_failure_text(message: Seq<char>) -> Seq<char> {
    "Cannot fetch devices: "@ + message
}

/// The action that ends a command without an answer text.
pub open spec fn silent_finish(failure: Option<Failure>) -> ActionView {
    ActionView::Finish { reply: Seq::<char>::empty(), failure }
}

/// The phase that follows and the action that answers event `e` in the
/// command `s`, or `None` where `s` is not waiting for `e`.
pub open spec fn transition(s: SessionView, e: EventView) -> Option<(Phase, ActionView)> {
    match (s.phase, e) {
        (Phase::Opening, EventView::Opened) => Some((Phase::Listing, ActionView::ListControls)),
        (Phase::Opening, EventView::OpenFailed(message)) => Some(
            (
                Phase::Finished,
                ActionView::Finish {
                    reply: open_failure_text(message),
                    failure: Some(Failure::Open),
                },
            ),
        ),
        (Phase::Listing, EventView::ControlsListed(names)) => match position_of(
            names,
            title_of(s.method),
        ) {
            Some(position) => Some(
                (Phase::Setting, ActionView::SetControl { position, value: s.value }),
            ),
            None => Some((Phase::Finished, silent_finish(Some(Failure::ControlNotFound)))),
        },
        (Phase::Listing, EventView::ControlsFailed) => Some(
            (Phase::Finished, silent_finish(Some(Failure::ControlList))),
        ),
        (Phase::Setting, EventView::ValueSet) => Some((Phase::Finished, silent_finish(None))),
        (Phase::Setting, EventView::SetFailed) => Some(
            (Phase::Finished, silent_finish(Some(Failure::SetControl))),
        ),
        _ => None,
    }
}

/// Builds the answer to a command whose device could not be opened.
pub fn open_failure_reply(message: &str) -> (reply: String)
    ensures
        reply@ == open_failure_text(message@),
{
    let mut reply = String::from_str("Cannot fetch devices: ");
    reply.append(message);
    reply
}

/// Begins the command that writes `value` to the control that `method`
/// names, on the device selected in `device`. The first action is to open
/// that device.
pub fn control(device: &SelectedDevice, method: String, value: i64) -> (r: (ControlSession, Action))
    ensures
        r.0@ == (SessionView { method: method@, value, phase: Phase::Opening }),
        r.1@ == (ActionView::Open { index: device.index() }),
{
    let index = device.get();
    (ControlSession { method, value, phase: Phase::Opening }, Action::Open { index })
}

impl ControlSession {
    /// Reads how far the command has come.
    pub fn phase(&self) -> (phase: Phase)
        ensures
            phase == self@.phase,
    {
        self.phase
    }

    /// Whether the command is over.
    pub fn finished(&self) -> (b: bool)
        ensures
            b == (self@.phase == Phase::Finished),
    {
        match self.phase {
            Phase::Finished => true,
            _ => false,
        }
    }

    /// Whether the caller holds the device open for this command.
    pub fn holds_device(&self) -> (b: bool)
        ensures
            b == self@.phase.holds_device(),
    {
        match self.phase {
            Phase::Listing => true,
            Phase::Setting => true,
            _ => false,
        }
    }

    /// Takes the event that the caller reports and decides the next
    /// action. An event that the command is not waiting for changes
    /// nothing and is answered with `None`.
    pub fn step(&mut self, event: Event) -> (action: Option<Action>)
        ensures
            match transition(old(self)@, event@) {
                Some((phase, expected)) => {
                    &&& final(self)@ == (SessionView { phase, ..old(self)@ })
                    &&& action matches Some(a) && a@ == expected
                },
                None => final(self)@ == old(self)@ && action is None,
            },
    {
        match self.phase {
            Phase::Opening => match event {
                Event::Opened => {
                    self.phase = Phase::Listing;
                    Some(Action::ListControls)
                },
                Event::OpenFailed(message) => {
                    self.phase = Phase::Finished;
                    Some(
                        Action::Finish {
                            reply: open_failure_reply(message.as_str()),
                            failure: Some(Failure::Open),
                        },
                    )
                },
                _ => None,
            },
            Phase::Listing => match event {
                Event::ControlsListed(names) => match resolve(self.method.as_str(), &names) {
                    Some(position) => {
                        self.phase = Phase::Setting;
                        Some(Action::SetControl { position, value: self.value })
                    },
                    None => {
                        self.phase = Phase::Finished;
                        Some(
                            Action::Finish {
                                reply: String::new(),
                                failure: Some(Failure::ControlNotFound),
                            },
                        )
                    },
                },
                Event::ControlsFailed => {
                    self.phase = Phase::Finished;
                    Some(
                        Action::Finish { reply: String::new(), failure: Some(Failure::ControlList) },
                    )
                },
                _ => None,
            },
            Phase::Setting => match event {
                Event::ValueSet => {
                    self.phase = Phase::Finished;
                    Some(Action::Finish { reply: String::new(), failure: None })
                },
                Event::SetFailed => {
                    self.phase = Phase::Finished;
                    Some(
                        Action::Finish { reply: String::new(), failure: Some(Failure::SetControl) },
                    )
                },
                _ => None,
            },
            Phase::Finished => None,
        }
    }
}

/// Every accepted event brings the command nearer to its end; the command
/// is handed `Finish` exactly when it enters its last phase, in which the
/// device is not held; and the device is held after an event only if the
/// device was held before it or the event reported it as opened.
pub proof fn lemma_command_releases_device(s: SessionView, e: EventView)
    ensures
        match transition(s, e) {
            Some((phase, action)) => {
                &&& phase.remaining() < s.phase.remaining()
                &&& action is Finish <==> phase == Phase::Finished
                &&& phase == Phase::Finished ==> !phase.holds_device()
                &&& phase.holds_device() ==> s.phase.holds_device() || e is Opened
            },
            None => true,
        },
{
}

/// A command whose control the device does not report is abandoned: the
/// names are answered with `Finish`, which records that the control was
/// not found and carries an empty reply, and with no request to write.
/// A write is requested only for a control that the device reports, at
/// the position at which it reports it.
pub proof fn lemma_unknown_control_is_abandoned(s: SessionView, names: Seq<Seq<char>>)
    requires
        s.phase == Phase::Listing,
    ensures
        position_of(names, title_of(s.method)) is None ==> transition(
            s,
            EventView::ControlsListed(names),
        ) == Some((Phase::Finished, silent_finish(Some(Failure::ControlNotFound)))),
        position_of(names, title_of(s.method)) is Some ==> transition(
            s,
            EventView::ControlsListed(names),
        ) == Some(
            (
                Phase::Setting,
                ActionView::SetControl {
                    position: position_of(names, title_of(s.method))->0,
                    value: s.value,
                },
            ),
        ),
{
}

} // verus!
