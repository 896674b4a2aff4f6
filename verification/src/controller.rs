//! The device controller: what to ask of the sensor next.
//!
//! The controller owns no hardware. It is told how the last action ended
//! and what the run flag reads, and answers with the next action; whoever
//! holds the hardware handle performs it and reports back.

use vstd::prelude::*;

verus! {

/// Milliseconds to wait before the run flag is read again while stopped.
pub const POLL_INTERVAL_MS: u64 = 500;

/// Milliseconds to wait before a lost hardware session is opened again.
pub const RESTART_BACKOFF_MS: u64 = 1000;

/// Revolutions that may wait between the controller and the encoder.
pub const HANDOFF_CAPACITY: usize = 10;

/// What the holder of the hardware handle is asked to do.
#[derive(Clone, Copy, Debug, PartialEq, Eq, Structural)]
pub enum Action {
    /// Open the serial port: the start of a hardware session.
    OpenPort,
    /// Start the motor.
    StartMotor,
    /// Start scanning.
    StartScan,
    /// Grab one revolution, blocking.
    Grab,
    /// Sort the revolution in hand by angle and hand it downstream.
    Forward,
    /// Stop the motor.
    StopMotor,
    /// Sleep for the poll interval.
    Idle,
    /// Drop the hardware session and sleep for the restart backoff.
    BackOff,
    /// Give up: the failure goes to the process.
    Exit,
}

/// How an action ended.
#[derive(Clone, Copy, Debug, PartialEq, Eq, Structural)]
pub enum Outcome {
    Done,
    TimedOut,
    Failed,
}

/// What went wrong in a step, for the log; every failure has its line.
#[derive(Clone, Copy, Debug, PartialEq, Eq, Structural)]
pub enum Notice {
    /// Nothing failed, or a grab timed out and is simply tried again.
    Quiet,
    /// A grab failed; the session goes on.
    GrabFailed,
    /// A command failed; the session is reopened after the backoff.
    SessionLost,
    /// The port could not be opened before anything was acquired.
    Fatal,
}

/// The controller between two actions.
#[derive(Clone, Copy, Debug, PartialEq, Eq, Structural)]
pub struct Controller {
    /// The action that is under way.
    pub pending: Action,
    /// Whether the motor runs, as far as the controller has commanded it.
    pub hardware_active: bool,
    /// Whether a revolution was ever grabbed.
    pub acquired: bool,
}

/// What a step answers: the action to perform now, and what to log.
#[derive(Clone, Copy, Debug, PartialEq, Eq, Structural)]
pub struct Step {
    pub action: Action,
    pub notice: Notice,
}

/// How an action ended, and what the run flag read at that moment.
#[derive(Clone, Copy, Debug, PartialEq, Eq, Structural)]
pub struct Report {
    pub outcome: Outcome,
    pub run: bool,
}

/// The controller before the first action: the port is to be opened.
pub open spec fn initial() -> Controller {
    Controller { pending: Action::OpenPort, hardware_active: false, acquired: false }
}

/// The action that brings the hardware to where the run flag wants it:
/// start or stop the motor where they disagree, else grab or idle.
pub open spec fn decision(hardware_active: bool, run: bool) -> Action {
    if run {
        if hardware_active {
            Action::Grab
        } else {
            Action::StartMotor
        }
    } else {
        if hardware_active {
            Action::StopMotor
        } else {
            Action::Idle
        }
    }
}

/// The controller after `report` on its pending action.
///
/// - A port just opened leaves the hardware in an unknown state, so the
///   controller takes it to be the opposite of what the run flag asks: the
///   first decision of a session always starts or stops the motor.
/// - A grab that timed out or failed changes nothing: the flag is read
///   again.
/// - Any other command that does not end well loses the session.
/// - A port that cannot be opened is fatal until a revolution was grabbed.
pub open spec fn next_state(state: Controller, report: Report) -> Controller {
    let done = report.outcome == Outcome::Done;
    match state.pending {
        Action::OpenPort => if done {
            Controller {
                pending: decision(!report.run, report.run),
                hardware_active: !report.run,
                ..state
            }
        } else if state.acquired {
            Controller { pending: Action::BackOff, ..state }
        } else {
            Controller { pending: Action::Exit, ..state }
        },
        Action::StartMotor => if done {
            Controller { pending: Action::StartScan, ..state }
        } else {
            Controller { pending: Action::BackOff, ..state }
        },
        Action::StartScan => if done {
            Controller { pending: Action::Grab, hardware_active: true, ..state }
        } else {
            Controller { pending: Action::BackOff, ..state }
        },
        Action::Grab => if done {
            Controller { pending: Action::Forward, acquired: true, ..state }
        } else {
            Controller { pending: decision(state.hardware_active, report.run), ..state }
        },
        Action::Forward => if done {
            Controller { pending: decision(state.hardware_active, report.run), ..state }
        } else {
            Controller { pending: Action::BackOff, ..state }
        },
        Action::StopMotor => if done {
            Controller { pending: Action::Idle, hardware_active: false, ..state }
        } else {
            Controller { pending: Action::BackOff, ..state }
        },
        Action::Idle => Controller {
            pending: decision(state.hardware_active, report.run),
            ..state
        },
        Action::BackOff => Controller { pending: Action::OpenPort, ..state },
        Action::Exit => state,
    }
}

/// The failure to log with the step from `state` on `report`.
///
/// Pauses cannot fail, and after an exit nothing is pending.
pub open spec fn notice_of(state: Controller, report: Report) -> Notice {
    if report.outcome == Outcome::Done {
        Notice::Quiet
    } else {
        match state.pending {
            Action::Idle | Action::BackOff | Action::Exit => Notice::Quiet,
            Action::Grab => if report.outcome == Outcome::Failed {
                Notice::GrabFailed
            } else {
                Notice::Quiet
            },
            Action::OpenPort => if state.acquired {
                Notice::SessionLost
            } else {
                Notice::Fatal
            },
            _ => Notice::SessionLost,
        }
    }
}

/// The controller after a run of reports.
pub open spec fn state_after(start: Controller, reports: Seq<Report>) -> Controller
    decreases reports.len(),
{
    if reports.len() == 0 {
        start
    } else {
        next_state(state_after(start, reports.drop_last()), reports.last())
    }
}

/// The actions that the controller asks for in answer to a run of reports.
pub open spec fn actions_of(start: Controller, reports: Seq<Report>) -> Seq<Action>
    decreases reports.len(),
{
    if reports.len() == 0 {
        Seq::empty()
    } else {
        actions_of(start, reports.drop_last()).push(state_after(start, reports).pending)
    }
}

/// The last command to the motor in the hardware session that `actions`
/// end in, if the session had one: a session starts where the port is
/// opened.
pub open spec fn last_motor_command(actions: Seq<Action>) -> Option<Action>
    decreases actions.len(),
{
    if actions.len() == 0 || actions.last() == Action::OpenPort {
        None
    } else if actions.last() == Action::StartMotor || actions.last() == Action::StopMotor {
        Some(actions.last())
    } else {
        last_motor_command(actions.drop_last())
    }
}

/// Within a hardware session no command to the motor repeats the one
/// before it: starts and stops take turns.
pub open spec fn motor_commands_alternate(actions: Seq<Action>) -> bool {
    forall|i: int|
        0 <= i < actions.len() && (actions[i] == Action::StartMotor || actions[i]
            == Action::StopMotor) ==> last_motor_command(#[trigger] actions.take(i)) != Some(
            actions[i],
        )
}

/// What the controller knows of the motor agrees with the last command
/// that it gave in this session.
spec fn in_step_with_motor(state: Controller, last: Option<Action>) -> bool {
    match state.pending {
        Action::OpenPort => last is None,
        Action::StartMotor | Action::StartScan => last == Some(Action::StartMotor)
            && !state.hardware_active,
        Action::StopMotor => last == Some(Action::StopMotor) && state.hardware_active,
        Action::Grab | Action::Forward | Action::Idle => if state.hardware_active {
            last == Some(Action::StartMotor)
        } else {
            last == Some(Action::StopMotor)
        },
        Action::BackOff | Action::Exit => true,
    }
}

proof fn lemma_actions_len(start: Controller, reports: Seq<Report>)
    ensures
        actions_of(start, reports).len() == reports.len(),
    decreases reports.len(),
{
    if reports.len() > 0 {
        lemma_actions_len(start, reports.drop_last());
    }
}

proof fn lemma_in_step(reports: Seq<Report>)
    ensures
        in_step_with_motor(
            state_after(initial(), reports),
            last_motor_command(actions_of(initial(), reports)),
        ),
        motor_commands_alternate(actions_of(initial(), reports)),
    decreases reports.len(),
{
    let actions = actions_of(initial(), reports);
    lemma_actions_len(initial(), reports);
    if reports.len() > 0 {
        let earlier = reports.drop_last();
        let before = actions_of(initial(), earlier);
        lemma_actions_len(initial(), earlier);
        assert(actions.drop_last() =~= before);
        lemma_in_step(earlier);
        assert forall|i: int|
            0 <= i < actions.len() && (actions[i] == Action::StartMotor || actions[i]
                == Action::StopMotor) implies last_motor_command(#[trigger] actions.take(i))
            != Some(actions[i]) by {
            if i < before.len() {
                assert(actions.take(i) =~= before.take(i));
                assert(actions[i] == before[i]);
            } else {
                assert(actions.take(i) =~= before);
            }
        }
    }
}

/// Within a hardware session the controller never starts a motor that it
/// has started, nor stops one that it has stopped: between two starts
/// there is a stop, and between two stops a start.
pub proof fn lemma_motor_commands_alternate(reports: Seq<Report>)
    ensures
        motor_commands_alternate(actions_of(initial(), reports)),
{
    lemma_in_step(reports);
}

/// Where the controller is free to follow the run flag: after a pause,
/// after a revolution was handed on, and after a grab that gave none.
pub open spec fn follows_flag(state: Controller, report: Report) -> bool {
    match state.pending {
        Action::Idle => true,
        Action::Forward => report.outcome == Outcome::Done,
        Action::Grab => report.outcome != Outcome::Done,
        _ => false,
    }
}

/// The motor is commanded exactly when the run flag has toggled since the
/// last command of the session: started when the flag reads run and the
/// motor was last stopped, stopped when the flag reads stop and the motor
/// was last started, and left alone otherwise.
pub proof fn lemma_motor_commanded_at_toggles(reports: Seq<Report>, report: Report)
    requires
        follows_flag(state_after(initial(), reports), report),
    ensures
        ({
            let last = last_motor_command(actions_of(initial(), reports));
            let next = next_state(state_after(initial(), reports), report).pending;
            &&& last is Some
            &&& next == Action::StartMotor <==> report.run && last == Some(Action::StopMotor)
            &&& next == Action::StopMotor <==> !report.run && last == Some(Action::StartMotor)
        }),
{
    lemma_in_step(reports);
}

/// The first decision of a hardware session always commands the motor,
/// whatever state the hardware was left in: a port just opened is followed
/// by a start where the flag reads run, and by a stop where it does not.
pub proof fn lemma_first_decision_commands_motor(state: Controller, run: bool)
    requires
        state.pending == Action::OpenPort,
    ensures
        next_state(state, Report { outcome: Outcome::Done, run }).pending == if run {
            Action::StartMotor
        } else {
            Action::StopMotor
        },
{
}

impl Controller {
    /// A controller that has yet to open the port.
    pub fn new() -> (controller: Controller)
        ensures
            controller == initial(),
    {
        Controller { pending: Action::OpenPort, hardware_active: false, acquired: false }
    }

    fn decide(hardware_active: bool, run: bool) -> (action: Action)
        ensures
            action == decision(hardware_active, run),
    {
        if run {
            if hardware_active {
                Action::Grab
            } else {
                Action::StartMotor
            }
        } else {
            if hardware_active {
                Action::StopMotor
            } else {
                Action::Idle
            }
        }
    }

    fn lose_session(&mut self) -> (step: Step)
        ensures
            *final(self) == (Controller { pending: Action::BackOff, ..*old(self) }),
            step == (Step { action: Action::BackOff, notice: Notice::SessionLost }),
    {
        self.pending = Action::BackOff;
        Step { action: Action::BackOff, notice: Notice::SessionLost }
    }

    fn follow_flag(&mut self, run: bool, notice: Notice) -> (step: Step)
        ensures
            *final(self) == (Controller {
                pending: decision(old(self).hardware_active, run),
                ..*old(self)
            }),
            step == (Step { action: final(self).pending, notice }),
    {
        let action = Controller::decide(self.hardware_active, run);
        self.pending = action;
        Step { action, notice }
    }

    /// Takes the report on the pending action and answers with the next
    /// one, which is then pending.
    ///
    /// `run` is what the run flag reads now; it is looked at only where the
    /// controller is free to choose.
    pub fn step(&mut self, outcome: Outcome, run: bool) -> (step: Step)
        ensures
            *final(self) == next_state(*old(self), Report { outcome, run }),
            step.action == final(self).pending,
            step.notice == notice_of(*old(self), Report { outcome, run }),
    {
        let done = outcome == Outcome::Done;
        match self.pending {
            Action::OpenPort => {
                if done {
                    self.hardware_active = !run;
                    self.follow_flag(run, Notice::Quiet)
                } else if self.acquired {
                    self.lose_session()
                } else {
                    self.pending = Action::Exit;
                    Step { action: Action::Exit, notice: Notice::Fatal }
                }
            },
            Action::StartMotor => {
                if done {
                    self.pending = Action::StartScan;
                    Step { action: Action::StartScan, notice: Notice::Quiet }
                } else {
                    self.lose_session()
                }
            },
            Action::StartScan => {
                if done {
                    self.hardware_active = true;
                    self.pending = Action::Grab;
                    Step { action: Action::Grab, notice: Notice::Quiet }
                } else {
                    self.lose_session()
                }
            },
            Action::Grab => {
                if done {
                    self.acquired = true;
                    self.pending = Action::Forward;
                    Step { action: Action::Forward, notice: Notice::Quiet }
                } else if outcome == Outcome::Failed {
                    self.follow_flag(run, Notice::GrabFailed)
                } else {
                    self.follow_flag(run, Notice::Quiet)
                }
            },
            Action::Forward => {
                if done {
                    self.follow_flag(run, Notice::Quiet)
                } else {
                    self.lose_session()
                }
            },
            Action::StopMotor => {
                if done {
                    self.hardware_active = false;
                    self.pending = Action::Idle;
                    Step { action: Action::Idle, notice: Notice::Quiet }
                } else {
                    self.lose_session()
                }
            },
            Action::Idle => self.follow_flag(run, Notice::Quiet),
            Action::BackOff => {
                self.pending = Action::OpenPort;
                Step { action: Action::OpenPort, notice: Notice::Quiet }
            },
            Action::Exit => Step { action: Action::Exit, notice: Notice::Quiet },
        }
    }
}

/// How long the holder of the hardware sleeps for `action`, in
/// milliseconds; `None` for an action that is not a pause.
pub fn pause_millis(action: Action) -> (millis: Option<u64>)
    ensures
        millis == match action {
            Action::Idle => Some(POLL_INTERVAL_MS),
            Action::BackOff => Some(RESTART_BACKOFF_MS),
            _ => None,
        },
{
    match action {
        Action::Idle => Some(POLL_INTERVAL_MS),
        Action::BackOff => Some(RESTART_BACKOFF_MS),
        _ => None,
    }
}

} // verus!
