//! What the service knows of a session, and what it answers without one.

use crate::decode::{decode_text, detected_text};
use crate::process::{Invocation, InvocationView, Outcome, OutcomeView};
use crate::shell::{available, available_shells, Shell};
use crate::strip::{
    is_break, is_control, lemma_stripped_text_keeps_only_breaks, strip_controls, stripped_text,
};
use vstd::prelude::*;

verus! {

/// The state that commands run in: the interpreter that runs them and the
/// directory they start in.
#[derive(Debug, PartialEq, Eq)]
pub struct AppState {
    pub shell: Shell,
    pub work_dir: String,
}

impl Clone for AppState {
    fn clone(&self) -> (copy: AppState)
        ensures
            copy@ == self@,
    {
        AppState { shell: self.shell, work_dir: self.work_dir.clone() }
    }
}

/// An `AppState` as plain values.
pub struct AppStateView {
    pub shell: Shell,
    pub work_dir: Seq<char>,
}

impl View for AppState {
    type V = AppStateView;

    open spec fn view(&self) -> AppStateView {
        AppStateView { shell: self.shell, work_dir: self.work_dir@ }
    }
}

/// The process that runs `command` in a state: the interpreter's program,
/// with its command flag and the whole command as the two arguments, started
/// in the working directory.
pub open spec fn command_process(state: AppStateView, command: Seq<char>) -> InvocationView {
    InvocationView {
        program: state.shell.program_name(),
        arguments: seq![state.shell.command_flag(), command],
        directory: Some(state.work_dir),
    }
}

/// The text that stands for the outcome of a command. Where the process
/// ran, it is what the process wrote to standard output and to standard
/// error, joined in that order with nothing between them, decoded as one
/// stream of bytes, and without terminal control sequences; whether the
/// process reported success plays no part. Where the process could not be
/// started, it is the reason as it was given.
pub open spec fn outcome_text(outcome: OutcomeView) -> Seq<char> {
    match outcome {
        OutcomeView::Exited { stdout, stderr, .. } => stripped_text(
            detected_text(stdout + stderr),
        ),
        OutcomeView::NotStarted(reason) => reason,
    }
}

/// The names of the programs of some interpreters, in order.
pub open spec fn programs_of(shells: Seq<Shell>) -> Seq<Seq<char>> {
    Seq::new(shells.len(), |i: int| shells[i].program_name())
}

/// Describes the process that runs `command` in `state`.
pub fn command_invocation(state: &AppState, command: &str) -> (invocation: Invocation)
    ensures
        invocation@ == command_process(state@, command@),
{
    let mut arguments: Vec<String> = Vec::new();
    arguments.push(String::from_str(state.shell.argument()));
    arguments.push(String::from_str(command));
    let invocation = Invocation {
        program: String::from_str(state.shell.program()),
        arguments,
        directory: Some(state.work_dir.clone()),
    };
    assert(invocation@.arguments =~= seq![state.shell.command_flag(), command@]);
    invocation
}

/// Turns the outcome of a command into the text that is shown for it.
/// Never fails: a process that could not be started is shown by the reason.
pub fn command_output(outcome: &Outcome) -> (text: String)
    ensures
        text@ == outcome_text(outcome@),
{
    match outcome {
        Outcome::Exited(output) => {
            let bytes = output.combined();
            let decoded = decode_text(bytes.as_slice());
            strip_controls(decoded.as_str())
        },
        Outcome::NotStarted(reason) => reason.clone(),
    }
}

/// The names of the interpreters found on a host, given what the version
/// probe of each candidate came to.
pub fn available_programs(probes: &Vec<Outcome>) -> (names: Vec<String>)
    ensures
        names.deep_view() == programs_of(available(probes@)),
{
    let shells = available_shells(probes);
    let mut names: Vec<String> = Vec::new();
    let mut i: usize = 0;
    while i < shells.len()
        invariant
            i <= shells.len(),
            names.len() == i,
            forall|j: int| 0 <= j < i ==> (#[trigger] names@[j])@ == shells@[j].program_name(),
        decreases shells.len() - i,
    {
        names.push(String::from_str(shells[i].program()));
        i = i + 1;
    }
    assert(names.deep_view() =~= programs_of(shells@));
    names
}

/// What is shown for a process that ran is safe to show as plain text: the
/// only control characters in it are carriage returns, line feeds and tabs.
pub proof fn lemma_output_of_a_process_is_plain(outcome: OutcomeView)
    requires
        outcome is Exited,
    ensures
        forall|i: int|
            0 <= i < outcome_text(outcome).len() && is_control(#[trigger] outcome_text(outcome)[i])
                ==> is_break(outcome_text(outcome)[i]),
{
    match outcome {
        OutcomeView::Exited { stdout, stderr, .. } => {
            lemma_stripped_text_keeps_only_breaks(detected_text(stdout + stderr));
        },
        OutcomeView::NotStarted(_) => {},
    }
}

} // verus!
