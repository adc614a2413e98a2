//! One session: the state behind one long-lived connection.
//!
//! A session does nothing by itself. It is told what happened, as an
//! `Event`, and answers with what is to be done next, as an `Action`. Whoever
//! owns the connection performs the action and reports back:
//!
//! - `Probe` and `Run` start a process and wait for it; its outcome comes
//!   back as `Probed` or `Finished`.
//! - `Resolve` brings a path into its canonical form on the file system;
//!   the form, or that there is none, comes back as `Resolved`.
//! - `Reply` sends one text frame and then waits for the next inbound
//!   frame, `Wait` only waits; the frame comes back as `Line` or `Noise`. A
//!   connection that fails, in sending or in waiting, comes back as `Lost`.
//! - `Close` ends the connection. Nothing comes back.
//!
//! Within a session one thing happens at a time: the answer to a line is
//! sent before the next line is read.

use crate::command::{parse_command, parsed, Command, CommandView};
use crate::path::{is_relative, path_is_relative, resolve_target, target_of};
use crate::process::{Invocation, InvocationView, Outcome, OutcomeView};
use crate::service::{
    command_invocation, command_output, command_process, outcome_text, AppState, AppStateView,
};
use crate::shell::Shell;
use vstd::prelude::*;

verus! {

/// What a session in the middle of a command is waiting for.
#[derive(Debug, PartialEq, Eq)]
pub enum Task {
    /// The canonical form of the path that a change of directory aims at.
    Resolving(String),
    /// The end of the process that runs the command.
    Running,
}

/// Where a session stands.
#[derive(Debug, PartialEq, Eq)]
pub enum Phase {
    /// No interpreter was asked for yet.
    AwaitingProfile,
    /// The version of the interpreter is being probed.
    AwaitingVersionAck,
    /// The next line is awaited.
    ReceivingCommand,
    /// A line was read and is being carried out.
    Executing(Task),
    /// The session is over.
    Closed,
}

/// What happened.
#[derive(Debug, PartialEq, Eq)]
pub enum Event {
    /// A connection was opened, asking for the interpreter of this name.
    Opened(String),
    /// The version probe came to this.
    Probed(Outcome),
    /// A text frame arrived.
    Line(String),
    /// A frame arrived that is no text.
    Noise,
    /// The path has this canonical form, or none.
    Resolved(Option<String>),
    /// The command's process came to this.
    Finished(Outcome),
    /// The connection failed or was closed from the other side.
    Lost,
}

/// What is to be done next.
#[derive(Debug, PartialEq, Eq)]
pub enum Action {
    Probe(Invocation),
    Run(Invocation),
    Resolve(String),
    Reply(String),
    Wait,
    Close,
}

pub enum TaskView {
    Resolving(Seq<char>),
    Running,
}

pub enum PhaseView {
    AwaitingProfile,
    AwaitingVersionAck,
    ReceivingCommand,
    Executing(TaskView),
    Closed,
}

pub enum EventView {
    Opened(Seq<char>),
    Probed(OutcomeView),
    Line(Seq<char>),
    Noise,
    Resolved(Option<Seq<char>>),
    Finished(OutcomeView),
    Lost,
}

pub enum ActionView {
    Probe(InvocationView),
    Run(InvocationView),
    Resolve(Seq<char>),
    Reply(Seq<char>),
    Wait,
    Close,
}

impl View for Phase {
    type V = PhaseView;

    open spec fn view(&self) -> PhaseView {
        match self {
            Phase::AwaitingProfile => PhaseView::AwaitingProfile,
            Phase::AwaitingVersionAck => PhaseView::AwaitingVersionAck,
            Phase::ReceivingCommand => PhaseView::ReceivingCommand,
            Phase::Executing(Task::Resolving(target)) => PhaseView::Executing(
                TaskView::Resolving(target@),
            ),
            Phase::Executing(Task::Running) => PhaseView::Executing(TaskView::Running),
            Phase::Closed => PhaseView::Closed,
        }
    }
}

impl View for Event {
    type V = EventView;

    open spec fn view(&self) -> EventView {
        match self {
            Event::Opened(name) => EventView::Opened(name@),
            Event::Probed(outcome) => EventView::Probed(outcome@),
            Event::Line(line) => EventView::Line(line@),
            Event::Noise => EventView::Noise,
            Event::Resolved(Some(path)) => EventView::Resolved(Some(path@)),
            Event::Resolved(None) => EventView::Resolved(None),
            Event::Finished(outcome) => EventView::Finished(outcome@),
            Event::Lost => EventView::Lost,
        }
    }
}

impl View for Action {
    type V = ActionView;

    open spec fn view(&self) -> ActionView {
        match self {
            Action::Probe(invocation) => ActionView::Probe(invocation@),
            Action::Run(invocation) => ActionView::Run(invocation@),
            Action::Resolve(path) => ActionView::Resolve(path@),
            Action::Reply(text) => ActionView::Reply(text@),
            Action::Wait => ActionView::Wait,
            Action::Close => ActionView::Close,
        }
    }
}

/// A session as plain values: the state that commands run in, and where
/// the session stands.
pub struct SessionView {
    pub state: AppStateView,
    pub phase: PhaseView,
}

/// The frame that confirms a change of directory to `path`.
pub open spec fn confirmation(path: Seq<char>) -> Seq<char> {
    "\u{25bb} "@ + path
}

/// The frame that reports that `target` has no canonical form.
pub open spec fn refusal(target: Seq<char>) -> Seq<char> {
    "Failed to resolve path: "@ + target
}

/// A session that is over, in the state it was in.
pub open spec fn closed(session: SessionView) -> (SessionView, ActionView) {
    (SessionView { state: session.state, phase: PhaseView::Closed }, ActionView::Close)
}

/// A session that awaits the next line, in the state it was in.
pub open spec fn receiving(session: SessionView) -> SessionView {
    SessionView { state: session.state, phase: PhaseView::ReceivingCommand }
}

/// What a line does to a session that awaits one.
pub open spec fn on_line(session: SessionView, line: Seq<char>) -> (SessionView, ActionView) {
    match parsed(line) {
        CommandView::Exit => closed(session),
        CommandView::ChangeDirectory(path) => {
            let target = target_of(session.state.work_dir, path);
            (
                SessionView {
                    state: session.state,
                    phase: PhaseView::Executing(TaskView::Resolving(target)),
                },
                ActionView::Resolve(target),
            )
        },
        CommandView::Run(command) => (
            SessionView { state: session.state, phase: PhaseView::Executing(TaskView::Running) },
            ActionView::Run(command_process(session.state, command)),
        ),
    }
}

/// The session after an event, and what is to be done next.
///
/// - Before an interpreter was asked for, `Opened` selects it by name and
///   has its version probed.
/// - While the version is probed, `Probed` with a banner sends the banner
///   and lets the session await its first line; without a banner the session
///   is over.
/// - While a line is awaited, `Line` is carried out as the command it reads
///   as, and `Noise` is passed over.
/// - While a path is brought into canonical form, `Resolved` with a form
///   that is an absolute path makes it the working directory and confirms
///   it; without such a form the working directory stays and the failure is
///   reported. Either way the next line is awaited.
/// - While a command runs, `Finished` sends the text of its outcome, and the
///   next line is awaited.
/// - `Lost`, and any event that the session was not waiting for, ends the
///   session.
pub open spec fn transition(session: SessionView, event: EventView) -> (SessionView, ActionView) {
    match (session.phase, event) {
        (PhaseView::AwaitingProfile, EventView::Opened(name)) => {
            let shell = Shell::resolve(name);
            (
                SessionView {
                    state: AppStateView { shell, work_dir: session.state.work_dir },
                    phase: PhaseView::AwaitingVersionAck,
                },
                ActionView::Probe(shell.probe()),
            )
        },
        (PhaseView::AwaitingVersionAck, EventView::Probed(outcome)) => {
            match session.state.shell.banner(outcome) {
                Some(banner) => (receiving(session), ActionView::Reply(banner)),
                None => closed(session),
            }
        },
        (PhaseView::ReceivingCommand, EventView::Line(line)) => on_line(session, line),
        (PhaseView::ReceivingCommand, EventView::Noise) => (session, ActionView::Wait),
        (PhaseView::Executing(TaskView::Resolving(target)), EventView::Resolved(form)) => {
            match form {
                Some(path) if !path_is_relative(path) => (
                    SessionView {
                        state: AppStateView { shell: session.state.shell, work_dir: path },
                        phase: PhaseView::ReceivingCommand,
                    },
                    ActionView::Reply(confirmation(path)),
                ),
                _ => (receiving(session), ActionView::Reply(refusal(target))),
            }
        },
        (PhaseView::Executing(TaskView::Running), EventView::Finished(outcome)) => (
            receiving(session),
            ActionView::Reply(outcome_text(outcome)),
        ),
        _ => closed(session),
    }
}

/// The state behind one connection: the interpreter and the working
/// directory that its commands run with, and where the session stands.
#[derive(Debug, PartialEq, Eq)]
pub struct Session {
    state: AppState,
    phase: Phase,
}

impl View for Session {
    type V = SessionView;

    closed spec fn view(&self) -> SessionView {
        SessionView { state: self.state@, phase: self.phase@ }
    }
}

impl Session {
    /// A session for a connection that was not opened yet, seeded with the
    /// state of the service: its working directory is where the session
    /// starts, and its interpreter stands until one is asked for.
    pub fn new(state: AppState) -> (session: Session)
        ensures
            session@ == (SessionView { state: state@, phase: PhaseView::AwaitingProfile }),
    {
        Session { state, phase: Phase::AwaitingProfile }
    }

    /// The interpreter that runs the commands of this session.
    pub fn shell(&self) -> (shell: Shell)
        ensures
            shell == self@.state.shell,
    {
        self.state.shell
    }

    /// The directory that the next command starts in.
    pub fn work_dir(&self) -> (work_dir: &str)
        ensures
            work_dir@ == self@.state.work_dir,
    {
        self.state.work_dir.as_str()
    }

    /// Where the session stands.
    pub fn phase(&self) -> (phase: &Phase)
        ensures
            phase@ == self@.phase,
    {
        &self.phase
    }

    /// Whether the session is over.
    pub fn is_closed(&self) -> (over: bool)
        ensures
            over == (self@.phase == PhaseView::Closed),
    {
        match self.phase {
            Phase::Closed => true,
            _ => false,
        }
    }

    fn close(&mut self) -> (action: Action)
        ensures
            (final(self)@, action@) == closed(old(self)@),
    {
        self.phase = Phase::Closed;
        Action::Close
    }

    fn reply(&mut self, text: String) -> (action: Action)
        ensures
            (final(self)@, action@) == (receiving(old(self)@), ActionView::Reply(text@)),
    {
        self.phase = Phase::ReceivingCommand;
        Action::Reply(text)
    }

    fn take_line(&mut self, line: &str) -> (action: Action)
        ensures
            (final(self)@, action@) == on_line(old(self)@, line@),
    {
        match parse_command(line) {
            Command::Exit => self.close(),
            Command::ChangeDirectory(path) => {
                let target = resolve_target(self.state.work_dir.as_str(), path);
                self.phase = Phase::Executing(Task::Resolving(target.clone()));
                Action::Resolve(target)
            },
            Command::Run(command) => {
                let invocation = command_invocation(&self.state, command.as_str());
                self.phase = Phase::Executing(Task::Running);
                Action::Run(invocation)
            },
        }
    }

    /// Takes the session one step on: records what `event` changes and
    /// says what is to be done next.
    pub fn step(&mut self, event: Event) -> (action: Action)
        ensures
            (final(self)@, action@) == transition(old(self)@, event@),
    {
        match (&self.phase, event) {
            (Phase::AwaitingProfile, Event::Opened(name)) => {
                let shell = Shell::from_name(name.as_str());
                self.state.shell = shell;
                self.phase = Phase::AwaitingVersionAck;
                Action::Probe(shell.version_probe())
            },
            (Phase::AwaitingVersionAck, Event::Probed(outcome)) => {
                match self.state.shell.version(&outcome) {
                    Some(banner) => self.reply(banner),
                    None => self.close(),
                }
            },
            (Phase::ReceivingCommand, Event::Line(line)) => self.take_line(line.as_str()),
            (Phase::ReceivingCommand, Event::Noise) => Action::Wait,
            (Phase::Executing(Task::Resolving(target)), Event::Resolved(form)) => {
                match form {
                    Some(path) if !is_relative(path.as_str()) => {
                        let mut text = String::from_str("\u{25bb} ");
                        text.append(path.as_str());
                        self.state.work_dir = path;
                        self.reply(text)
                    },
                    _ => {
                        let mut text = String::from_str("Failed to resolve path: ");
                        text.append(target.as_str());
                        self.reply(text)
                    },
                }
            },
            (Phase::Executing(Task::Running), Event::Finished(outcome)) => {
                let text = command_output(&outcome);
                self.reply(text)
            },
            _ => self.close(),
        }
    }
}

/// A change of directory to a path that has a canonical form takes
/// effect: the session asks for the form of the path, taken from the current
/// directory where it is relative; the form becomes the working directory
/// and is confirmed in one frame; and the next command is started in it.
pub proof fn lemma_directory_change_takes_effect(
    session: SessionView,
    line: Seq<char>,
    path: Seq<char>,
    canonical: Seq<char>,
    next: Seq<char>,
    command: Seq<char>,
)
    requires
        session.phase == PhaseView::ReceivingCommand,
        parsed(line) == CommandView::ChangeDirectory(path),
        !path_is_relative(canonical),
        parsed(next) == CommandView::Run(command),
    ensures
        ({
            let (asked, first) = transition(session, EventView::Line(line));
            let (moved, second) = transition(asked, EventView::Resolved(Some(canonical)));
            let (running, third) = transition(moved, EventView::Line(next));
            &&& first == ActionView::Resolve(target_of(session.state.work_dir, path))
            &&& second == ActionView::Reply(confirmation(canonical))
            &&& moved.phase == PhaseView::ReceivingCommand
            &&& moved.state.work_dir == canonical
            &&& moved.state.shell == session.state.shell
            &&& third matches ActionView::Run(process) && process.directory == Some(canonical)
            &&& running.state == moved.state
        }),
{
}

/// A change of directory to a path that has no canonical form changes
/// nothing: the failure is reported in one frame that names the path, the
/// session goes on in the state it was in, and the next command is started
/// in the directory that the session was in before.
pub proof fn lemma_failed_change_keeps_directory(
    session: SessionView,
    line: Seq<char>,
    path: Seq<char>,
    next: Seq<char>,
    command: Seq<char>,
)
    requires
        session.phase == PhaseView::ReceivingCommand,
        parsed(line) == CommandView::ChangeDirectory(path),
        parsed(next) == CommandView::Run(command),
    ensures
        ({
            let (asked, first) = transition(session, EventView::Line(line));
            let (stayed, second) = transition(asked, EventView::Resolved(None));
            let (running, third) = transition(stayed, EventView::Line(next));
            &&& second == ActionView::Reply(refusal(target_of(session.state.work_dir, path)))
            &&& stayed == session
            &&& third == ActionView::Run(command_process(session.state, command))
            &&& third matches ActionView::Run(process) && process.directory == Some(
                session.state.work_dir,
            )
        }),
{
}

/// The working directory changes in one way only: by the canonical form
/// that was asked for a change of directory, and only to an absolute path.
/// The interpreter changes in one way only: by the name that the connection
/// was opened with.
pub proof fn lemma_state_changes_only_as_asked(session: SessionView, event: EventView)
    ensures
        transition(session, event).0.state.work_dir != session.state.work_dir ==> {
            &&& session.phase matches PhaseView::Executing(TaskView::Resolving(_))
            &&& event == EventView::Resolved(Some(transition(session, event).0.state.work_dir))
            &&& !path_is_relative(transition(session, event).0.state.work_dir)
        },
        transition(session, event).0.state.shell != session.state.shell ==> {
            &&& session.phase == PhaseView::AwaitingProfile
            &&& event matches EventView::Opened(name) && transition(session, event).0.state.shell
                == Shell::resolve(name)
        },
{
}

/// A working directory that is an absolute path is one after every step.
pub proof fn lemma_working_directory_stays_absolute(session: SessionView, event: EventView)
    requires
        !path_is_relative(session.state.work_dir),
    ensures
        !path_is_relative(transition(session, event).0.state.work_dir),
{
}

/// A session that is over stays over, whatever happens, and keeps its
/// state.
pub proof fn lemma_closed_stays_closed(session: SessionView, event: EventView)
    requires
        session.phase == PhaseView::Closed,
    ensures
        transition(session, event) == (session, ActionView::Close),
{
}

/// A lost connection ends the session, wherever it stands.
pub proof fn lemma_lost_connection_closes(session: SessionView)
    ensures
        transition(session, EventView::Lost) == closed(session),
{
}

/// The line `exit` ends a session that awaits a line, and nothing is sent
/// in answer.
pub proof fn lemma_exit_closes(session: SessionView)
    requires
        session.phase == PhaseView::ReceivingCommand,
    ensures
        transition(session, EventView::Line("exit"@)) == closed(session),
{
}

/// A frame that is no text changes nothing and is not answered.
pub proof fn lemma_noise_is_passed_over(session: SessionView)
    requires
        session.phase == PhaseView::ReceivingCommand,
    ensures
        transition(session, EventView::Noise) == (session, ActionView::Wait),
{
}

/// A session opened for a name outside the catalog runs `sh`: the probe
/// that it asks for is that of `sh`.
pub proof fn lemma_unknown_name_opens_fallback(session: SessionView, name: Seq<char>)
    requires
        session.phase == PhaseView::AwaitingProfile,
        !Shell::is_known(name),
    ensures
        transition(session, EventView::Opened(name)).0.state.shell == Shell::SH,
        transition(session, EventView::Opened(name)).1 == ActionView::Probe(Shell::SH.probe()),
{
    Shell::lemma_resolve_catalog(name);
}

/// A command is answered by exactly one frame, whatever its process came
/// to: the line starts the process and sends nothing, and the outcome sends
/// the text that stands for it and lets the session await the next line.
pub proof fn lemma_command_is_answered_once(
    session: SessionView,
    line: Seq<char>,
    command: Seq<char>,
    outcome: OutcomeView,
)
    requires
        session.phase == PhaseView::ReceivingCommand,
        parsed(line) == CommandView::Run(command),
    ensures
        ({
            let (running, first) = transition(session, EventView::Line(line));
            let (back, second) = transition(running, EventView::Finished(outcome));
            &&& first == ActionView::Run(command_process(session.state, command))
            &&& second == ActionView::Reply(outcome_text(outcome))
            &&& back == session
        }),
{
}

} // verus!
