//! Processes as the session sees them: what is to be started, and what came
//! of it. The session starts nothing itself. It describes the process, and
//! is told the outcome.

use crate::decode::decodable;
use vstd::prelude::*;

verus! {

/// A process to start: the program, its arguments in order, and the
/// directory to start it in, if it matters.
#[derive(Debug, PartialEq, Eq)]
pub struct Invocation {
    pub program: String,
    pub arguments: Vec<String>,
    pub directory: Option<String>,
}

/// An `Invocation` as plain values.
pub struct InvocationView {
    pub program: Seq<char>,
    pub arguments: Seq<Seq<char>>,
    pub directory: Option<Seq<char>>,
}

impl View for Invocation {
    type V = InvocationView;

    open spec fn view(&self) -> InvocationView {
        InvocationView {
            program: self.program@,
            arguments: self.arguments.deep_view(),
            directory: match self.directory {
                Some(directory) => Some(directory@),
                None => None,
            },
        }
    }
}

/// What a process left behind when it ended: whether it reported success,
/// and the bytes it wrote to its two output streams. The two streams
/// together are no longer than a decoder takes.
#[derive(Debug, PartialEq, Eq)]
pub struct Output {
    success: bool,
    stdout: Vec<u8>,
    stderr: Vec<u8>,
}

impl Output {
    #[verifier::type_invariant]
    closed spec fn streams_decodable(self) -> bool {
        decodable(self.stdout@ + self.stderr@)
    }

    /// Whether the process reported success.
    pub closed spec fn succeeded(self) -> bool {
        self.success
    }

    /// What the process wrote to standard output.
    pub closed spec fn written(self) -> Seq<u8> {
        self.stdout@
    }

    /// What the process wrote to standard error.
    pub closed spec fn complained(self) -> Seq<u8> {
        self.stderr@
    }

    /// Records what a process left behind. There is no record, and nothing
    /// else, where the two streams together are longer than a decoder takes.
    pub fn new(success: bool, stdout: Vec<u8>, stderr: Vec<u8>) -> (output: Option<Output>)
        ensures
            output is Some <==> decodable(stdout@ + stderr@),
            output matches Some(o) ==> o.succeeded() == success && o.written() == stdout@
                && o.complained() == stderr@,
    {
        let limit: usize = usize::MAX / 8;
        if stdout.len() <= limit && stderr.len() <= limit - stdout.len() {
            Some(Output { success, stdout, stderr })
        } else {
            None
        }
    }

    /// The bytes of both streams in one: standard output, then standard
    /// error, with nothing between them.
    pub fn combined(&self) -> (bytes: Vec<u8>)
        ensures
            bytes@ == self.written() + self.complained(),
            decodable(bytes@),
    {
        proof {
            use_type_invariant(self);
        }
        let mut bytes: Vec<u8> = Vec::new();
        let mut i: usize = 0;
        while i < self.stdout.len()
            invariant
                i <= self.stdout.len(),
                bytes@ == self.stdout@.take(i as int),
            decreases self.stdout.len() - i,
        {
            bytes.push(self.stdout[i]);
            assert(self.stdout@.take(i + 1) == self.stdout@.take(i as int).push(
                self.stdout@[i as int],
            ));
            i = i + 1;
        }
        assert(self.stdout@.take(i as int) == self.stdout@);
        let mut j: usize = 0;
        while j < self.stderr.len()
            invariant
                j <= self.stderr.len(),
                bytes@ == self.stdout@ + self.stderr@.take(j as int),
            decreases self.stderr.len() - j,
        {
            bytes.push(self.stderr[j]);
            assert(self.stderr@.take(j + 1) == self.stderr@.take(j as int).push(
                self.stderr@[j as int],
            ));
            assert(self.stdout@ + self.stderr@.take(j + 1) == (self.stdout@ + self.stderr@.take(
                j as int,
            )).push(self.stderr@[j as int]));
            j = j + 1;
        }
        assert(self.stderr@.take(j as int) == self.stderr@);
        bytes
    }

    /// Whether the process reported success.
    pub fn success(&self) -> (success: bool)
        ensures
            success == self.succeeded(),
    {
        self.success
    }

    /// What the process wrote to standard output.
    pub fn stdout(&self) -> (bytes: &Vec<u8>)
        ensures
            bytes@ == self.written(),
            decodable(bytes@),
    {
        proof {
            use_type_invariant(self);
        }
        &self.stdout
    }

    /// What the process wrote to standard error.
    pub fn stderr(&self) -> (bytes: &Vec<u8>)
        ensures
            bytes@ == self.complained(),
            decodable(bytes@),
    {
        proof {
            use_type_invariant(self);
        }
        &self.stderr
    }
}

/// How an attempt to run a process ended: it ran and left its output, or
/// it could not be started, for the reason given.
#[derive(Debug, PartialEq, Eq)]
pub enum Outcome {
    Exited(Output),
    NotStarted(String),
}

/// An `Outcome` as plain values.
pub enum OutcomeView {
    Exited { success: bool, stdout: Seq<u8>, stderr: Seq<u8> },
    NotStarted(Seq<char>),
}

impl View for Outcome {
    type V = OutcomeView;

    open spec fn view(&self) -> OutcomeView {
        match self {
            Outcome::Exited(output) => OutcomeView::Exited {
                success: output.succeeded(),
                stdout: output.written(),
                stderr: output.complained(),
            },
            Outcome::NotStarted(reason) => OutcomeView::NotStarted(reason@),
        }
    }
}

} // verus!
