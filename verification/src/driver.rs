//! The lifecycle of one run as a state machine.
//!
//! The driver decides; its caller acts. Each [`Driver::step`] takes what came
//! of the previous action and answers with the next one, until it hands out
//! the final [`Report`]:
//!
//! ```text
//! Start -> Connecting -> Connected -> Probing -> Disconnecting -> Evaluated -> Exit
//!              |                                       |
//!              +--------------> Exit <-----------------+
//! ```
//!
//! A failed open leaves `Connecting` for `Exit` at once. A failed query still
//! passes through `Disconnecting`, so that an opened connection is always
//! closed, and then skips the evaluation.

use vstd::prelude::*;
use crate::encoding::Encoding;
use crate::error::{
    ConnectionError,
    ConnectionErrorView,
    ProbeError,
    ProbeErrorView,
    RunError,
    RunErrorView,
};
use crate::policy::{ConnectPolicy, Settings, SettingsView};
use crate::report::{failure_report, verdict_report, Report, ReportView};
use crate::verdict::{evaluate, verdict_of, ServerInfo, ServerInfoView, Verdict, VerdictView};

verus! {

/// Where a run stands.
#[derive(Debug, PartialEq, Eq)]
pub enum Phase {
    /// Nothing has been asked of the transport yet.
    Start,
    /// The connection is being opened.
    Connecting,
    /// The connection is open and idle.
    Connected,
    /// The status query is under way.
    Probing,
    /// The connection is being closed; the outcome of the query is kept
    /// until the close has been reported.
    Disconnecting(Result<ServerInfo, ProbeError>),
    /// The connection is closed and the verdict is known.
    Evaluated(Verdict),
    /// The run is over and its report has been handed out.
    Exit,
}

/// The mathematical value of [`Phase`].
pub enum PhaseView {
    Start,
    Connecting,
    Connected,
    Probing,
    Disconnecting(Result<ServerInfoView, ProbeErrorView>),
    Evaluated(VerdictView),
    Exit,
}

impl View for Phase {
    type V = PhaseView;

    open spec fn view(&self) -> PhaseView {
        match self {
            Phase::Start => PhaseView::Start,
            Phase::Connecting => PhaseView::Connecting,
            Phase::Connected => PhaseView::Connected,
            Phase::Probing => PhaseView::Probing,
            Phase::Disconnecting(Ok(info)) => PhaseView::Disconnecting(Ok(info@)),
            Phase::Disconnecting(Err(error)) => PhaseView::Disconnecting(Err(error@)),
            Phase::Evaluated(verdict) => PhaseView::Evaluated(verdict@),
            Phase::Exit => PhaseView::Exit,
        }
    }
}

/// What the caller reports back to the driver.
#[derive(Clone, Debug, PartialEq, Eq)]
pub enum Event {
    /// There was nothing to wait for: the previous step asked for no outside
    /// work, or the run is only beginning.
    Advance,
    /// The connection has been established.
    Opened,
    /// The connection could not be established.
    OpenFailed(ConnectionError),
    /// The node answered the status query.
    Replied(ServerInfo),
    /// The status query failed.
    ProbeFailed(ProbeError),
    /// The connection has been closed.
    Closed,
    /// Closing the connection failed. The driver treats this as [`Event::Closed`].
    CloseFailed,
}

/// The mathematical value of [`Event`].
pub enum EventView {
    Advance,
    Opened,
    OpenFailed(ConnectionErrorView),
    Replied(ServerInfoView),
    ProbeFailed(ProbeErrorView),
    Closed,
    CloseFailed,
}

impl View for Event {
    type V = EventView;

    open spec fn view(&self) -> EventView {
        match self {
            Event::Advance => EventView::Advance,
            Event::Opened => EventView::Opened,
            Event::OpenFailed(error) => EventView::OpenFailed(error@),
            Event::Replied(info) => EventView::Replied(info@),
            Event::ProbeFailed(error) => EventView::ProbeFailed(error@),
            Event::Closed => EventView::Closed,
            Event::CloseFailed => EventView::CloseFailed,
        }
    }
}

/// What the driver asks of its caller.
#[derive(Clone, Debug, PartialEq, Eq)]
pub enum Action {
    /// Open a connection to `target` with `encoding` under `policy`, then
    /// report [`Event::Opened`] or [`Event::OpenFailed`].
    Open { target: String, encoding: Encoding, policy: ConnectPolicy },
    /// Nothing to perform: report [`Event::Advance`].
    Advance,
    /// Send the status query and wait for the response, then report
    /// [`Event::Replied`] or [`Event::ProbeFailed`].
    Query,
    /// Close the connection, then report [`Event::Closed`] or
    /// [`Event::CloseFailed`].
    Close,
    /// The run is over: emit the report's lines and exit with its code.
    Finish(Report),
}

/// The mathematical value of [`Action`].
pub enum ActionView {
    Open { target: Seq<char>, encoding: Encoding, policy: ConnectPolicy },
    Advance,
    Query,
    Close,
    Finish(ReportView),
}

impl View for Action {
    type V = ActionView;

    open spec fn view(&self) -> ActionView {
        match self {
            Action::Open { target, encoding, policy } => ActionView::Open {
                target: target@,
                encoding: *encoding,
                policy: *policy,
            },
            Action::Advance => ActionView::Advance,
            Action::Query => ActionView::Query,
            Action::Close => ActionView::Close,
            Action::Finish(report) => ActionView::Finish(report@),
        }
    }
}

/// The value of an optional action.
pub open spec fn action_view(action: Option<Action>) -> Option<ActionView> {
    match action {
        Some(action) => Some(action@),
        None => None,
    }
}

/// The state of a run: its settings, which never change, and its phase.
#[derive(Debug)]
pub struct Driver {
    settings: Settings,
    phase: Phase,
}

/// The mathematical value of [`Driver`].
pub struct DriverView {
    pub settings: SettingsView,
    pub phase: PhaseView,
}

impl View for Driver {
    type V = DriverView;

    closed spec fn view(&self) -> DriverView {
        DriverView { settings: self.settings@, phase: self.phase@ }
    }
}

/// The state in which every run begins.
pub open spec fn initial_state(settings: SettingsView) -> DriverView {
    DriverView { settings, phase: PhaseView::Start }
}

/// Whether `event` is what a run in `phase` is waiting for.
pub open spec fn accepts(phase: PhaseView, event: EventView) -> bool {
    match phase {
        PhaseView::Start => event is Advance,
        PhaseView::Connecting => event is Opened || event is OpenFailed,
        PhaseView::Connected => event is Advance,
        PhaseView::Probing => event is Replied || event is ProbeFailed,
        PhaseView::Disconnecting(_) => event is Closed || event is CloseFailed,
        PhaseView::Evaluated(_) => event is Advance,
        PhaseView::Exit => false,
    }
}

/// The step relation of the run: the state after `event` and the action
/// asked for. An event the phase is not waiting for changes nothing and
/// yields no action.
pub open spec fn transition(state: DriverView, event: EventView) -> (DriverView, Option<ActionView>) {
    let settings = state.settings;
    match (state.phase, event) {
        (PhaseView::Start, EventView::Advance) => (
            DriverView { settings, phase: PhaseView::Connecting },
            Some(
                ActionView::Open {
                    target: settings.target,
                    encoding: settings.encoding,
                    policy: settings.policy,
                },
            ),
        ),
        (PhaseView::Connecting, EventView::Opened) => (
            DriverView { settings, phase: PhaseView::Connected },
            Some(ActionView::Advance),
        ),
        (PhaseView::Connecting, EventView::OpenFailed(error)) => (
            DriverView { settings, phase: PhaseView::Exit },
            Some(ActionView::Finish(failure_report(RunErrorView::Connection(error)))),
        ),
        (PhaseView::Connected, EventView::Advance) => (
            DriverView { settings, phase: PhaseView::Probing },
            Some(ActionView::Query),
        ),
        (PhaseView::Probing, EventView::Replied(info)) => (
            DriverView { settings, phase: PhaseView::Disconnecting(Ok(info)) },
            Some(ActionView::Close),
        ),
        (PhaseView::Probing, EventView::ProbeFailed(error)) => (
            DriverView { settings, phase: PhaseView::Disconnecting(Err(error)) },
            Some(ActionView::Close),
        ),
        (PhaseView::Disconnecting(Ok(info)), EventView::Closed)
        | (PhaseView::Disconnecting(Ok(info)), EventView::CloseFailed) => (
            DriverView { settings, phase: PhaseView::Evaluated(verdict_of(info, settings.verbose)) },
            Some(ActionView::Advance),
        ),
        (PhaseView::Disconnecting(Err(error)), EventView::Closed)
        | (PhaseView::Disconnecting(Err(error)), EventView::CloseFailed) => (
            DriverView { settings, phase: PhaseView::Exit },
            Some(ActionView::Finish(failure_report(RunErrorView::Probe(error)))),
        ),
        (PhaseView::Evaluated(verdict), EventView::Advance) => (
            DriverView { settings, phase: PhaseView::Exit },
            Some(ActionView::Finish(verdict_report(verdict))),
        ),
        _ => (state, None),
    }
}

impl Driver {
    /// A run with the given settings, at its start.
    pub fn new(settings: Settings) -> (driver: Driver)
        ensures
            driver@ == initial_state(settings@),
    {
        Driver { settings, phase: Phase::Start }
    }

    /// The phase the run is in.
    pub fn phase(&self) -> (phase: &Phase)
        ensures
            phase@ == self@.phase,
    {
        &self.phase
    }

    /// The settings of the run.
    pub fn settings(&self) -> (settings: &Settings)
        ensures
            settings@ == self@.settings,
    {
        &self.settings
    }

    /// Takes what came of the previous action and answers with the next one.
    ///
    /// The result is `Some` exactly when the run was waiting for `event`; an
    /// event it was not waiting for leaves the run as it was.
    pub fn step(&mut self, event: Event) -> (action: Option<Action>)
        ensures
            (final(self)@, action_view(action)) == transition(old(self)@, event@),
            action.is_some() <==> accepts(old(self)@.phase, event@),
    {
        let mut phase = Phase::Exit;
        core::mem::swap(&mut self.phase, &mut phase);
        match phase {
            Phase::Start => match event {
                Event::Advance => {
                    self.phase = Phase::Connecting;
                    Some(
                        Action::Open {
                            target: self.settings.target.clone(),
                            encoding: self.settings.encoding,
                            policy: self.settings.policy,
                        },
                    )
                },
                _ => {
                    self.phase = Phase::Start;
                    None
                },
            },
            Phase::Connecting => match event {
                Event::Opened => {
                    self.phase = Phase::Connected;
                    Some(Action::Advance)
                },
                Event::OpenFailed(error) => {
                    let failure = RunError::Connection(error);
                    self.phase = Phase::Exit;
                    Some(Action::Finish(Report::from_failure(&failure)))
                },
                _ => {
                    self.phase = Phase::Connecting;
                    None
                },
            },
            Phase::Connected => match event {
                Event::Advance => {
                    self.phase = Phase::Probing;
                    Some(Action::Query)
                },
                _ => {
                    self.phase = Phase::Connected;
                    None
                },
            },
            Phase::Probing => match event {
                Event::Replied(info) => {
                    self.phase = Phase::Disconnecting(Ok(info));
                    Some(Action::Close)
                },
                Event::ProbeFailed(error) => {
                    self.phase = Phase::Disconnecting(Err(error));
                    Some(Action::Close)
                },
                _ => {
                    self.phase = Phase::Probing;
                    None
                },
            },
            Phase::Disconnecting(outcome) => match event {
                Event::Closed | Event::CloseFailed => match outcome {
                    Ok(info) => {
                        self.phase = Phase::Evaluated(evaluate(info, self.settings.verbose));
                        Some(Action::Advance)
                    },
                    Err(error) => {
                        let failure = RunError::Probe(error);
                        self.phase = Phase::Exit;
                        Some(Action::Finish(Report::from_failure(&failure)))
                    },
                },
                _ => {
                    self.phase = Phase::Disconnecting(outcome);
                    None
                },
            },
            Phase::Evaluated(verdict) => match event {
                Event::Advance => {
                    self.phase = Phase::Exit;
                    Some(Action::Finish(Report::from_verdict(verdict)))
                },
                _ => {
                    self.phase = Phase::Evaluated(verdict);
                    None
                },
            },
            Phase::Exit => {
                None
            },
        }
    }
}

} // verus!
