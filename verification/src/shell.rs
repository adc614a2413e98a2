//! The interpreters a session can run commands with.

use crate::chars::same_text;
use crate::decode::{decode_gbk, decode_utf8, decoded_text, utf8_lossy_text};
use crate::process::{Invocation, InvocationView, Outcome, OutcomeView};
use vstd::prelude::*;

verus! {

/// One of the supported command interpreters.
#[derive(Debug, Copy, Clone, PartialEq, Eq, Structural)]
pub enum Shell {
    CMD,
    Bash,
    Fish,
    SH,
    NU,
}

impl Shell {
    /// The name of the executable that runs this interpreter. It is also the
    /// one name by which the interpreter is selected.
    pub open spec fn program_name(self) -> Seq<char> {
        match self {
            Shell::CMD => "cmd"@,
            Shell::Bash => "bash"@,
            Shell::Fish => "fish"@,
            Shell::SH => "sh"@,
            Shell::NU => "nu"@,
        }
    }

    /// The flag that makes the interpreter run its next argument as one
    /// command.
    pub open spec fn command_flag(self) -> Seq<char> {
        match self {
            Shell::CMD => "/c"@,
            _ => "-c"@,
        }
    }

    /// The argument that makes the interpreter print its version.
    pub open spec fn version_flag(self) -> Seq<char> {
        match self {
            Shell::CMD => "/v"@,
            _ => "--version"@,
        }
    }

    /// Whether `name` selects an interpreter of the catalog.
    pub open spec fn is_known(name: Seq<char>) -> bool {
        exists|shell: Shell| name == #[trigger] shell.program_name()
    }

    /// The interpreter that `name` selects: the one whose program it names,
    /// and `SH` for every other name.
    pub open spec fn resolve(name: Seq<char>) -> Shell {
        if name == "cmd"@ {
            Shell::CMD
        } else if name == "bash"@ {
            Shell::Bash
        } else if name == "fish"@ {
            Shell::Fish
        } else if name == "nu"@ {
            Shell::NU
        } else {
            Shell::SH
        }
    }

    /// Selects an interpreter by name. Never fails: a name outside the
    /// catalog selects `SH`.
    pub fn from_name(name: &str) -> (shell: Shell)
        ensures
            shell == Shell::resolve(name@),
    {
        if same_text(name, "cmd") {
            Shell::CMD
        } else if same_text(name, "bash") {
            Shell::Bash
        } else if same_text(name, "fish") {
            Shell::Fish
        } else if same_text(name, "nu") {
            Shell::NU
        } else {
            Shell::SH
        }
    }

    /// The name of the executable that runs this interpreter.
    pub fn program(&self) -> (name: &'static str)
        ensures
            name@ == self.program_name(),
    {
        match self {
            Shell::CMD => "cmd",
            Shell::Bash => "bash",
            Shell::Fish => "fish",
            Shell::SH => "sh",
            Shell::NU => "nu",
        }
    }

    /// The flag that makes the interpreter run its next argument as one
    /// command.
    pub fn argument(&self) -> (flag: &'static str)
        ensures
            flag@ == self.command_flag(),
    {
        match self {
            Shell::CMD => "/c",
            _ => "-c",
        }
    }

    /// The argument that makes the interpreter print its version.
    pub fn version_argument(&self) -> (flag: &'static str)
        ensures
            flag@ == self.version_flag(),
    {
        match self {
            Shell::CMD => "/v",
            _ => "--version",
        }
    }

    /// The process that asks this interpreter for its version: the program
    /// with the version flag as its one argument, in no directory of its own.
    pub open spec fn probe(self) -> InvocationView {
        InvocationView {
            program: self.program_name(),
            arguments: seq![self.version_flag()],
            directory: None,
        }
    }

    /// The banner in the outcome of a version probe. There is one where the
    /// probe ran and reported success: what it wrote, read as GBK for `cmd`
    /// and as UTF-8 for the others. Nothing else counts as an answer.
    pub open spec fn banner(self, outcome: OutcomeView) -> Option<Seq<char>> {
        match outcome {
            OutcomeView::Exited { success: true, stdout, .. } => Some(
                if self == Shell::CMD {
                    decoded_text("GBK"@, stdout)
                } else {
                    utf8_lossy_text(stdout)
                },
            ),
            _ => None,
        }
    }

    /// Describes the process that asks this interpreter for its version.
    pub fn version_probe(&self) -> (probe: Invocation)
        ensures
            probe@ == self.probe(),
    {
        let mut arguments: Vec<String> = Vec::new();
        arguments.push(String::from_str(self.version_argument()));
        let probe = Invocation {
            program: String::from_str(self.program()),
            arguments,
            directory: None,
        };
        assert(probe@.arguments =~= seq![self.version_flag()]);
        probe
    }

    /// Reads the version banner out of what the version probe came to.
    pub fn version(&self, outcome: &Outcome) -> (banner: Option<String>)
        ensures
            banner is Some <==> responded(outcome@),
            match banner {
                Some(text) => self.banner(outcome@) == Some(text@),
                None => self.banner(outcome@) is None,
            },
    {
        match outcome {
            Outcome::Exited(output) => {
                if output.success() {
                    let bytes = output.stdout();
                    match self {
                        Shell::CMD => Some(decode_gbk(bytes.as_slice())),
                        _ => Some(decode_utf8(bytes.as_slice())),
                    }
                } else {
                    None
                }
            },
            Outcome::NotStarted(_) => None,
        }
    }

    /// The five program names are pairwise different, so a program name
    /// selects the interpreter it belongs to.
    pub proof fn lemma_program_selects_itself(self)
        ensures
            Shell::resolve(self.program_name()) == self,
    {
        reveal_strlit("cmd");
        reveal_strlit("bash");
        reveal_strlit("fish");
        reveal_strlit("sh");
        reveal_strlit("nu");
        assert("cmd"@.len() == 3 && "bash"@.len() == 4 && "fish"@.len() == 4 && "sh"@.len() == 2
            && "nu"@.len() == 2);
        assert("bash"@[0] == 'b' && "fish"@[0] == 'f' && "sh"@[0] == 's' && "nu"@[0] == 'n');
    }

    /// Selecting by name is exact on the catalog and falls back outside it:
    /// a known name gives the interpreter whose program is that name, and
    /// every other name gives `SH`.
    pub proof fn lemma_resolve_catalog(name: Seq<char>)
        ensures
            Shell::is_known(name) ==> Shell::resolve(name).program_name() == name,
            !Shell::is_known(name) ==> Shell::resolve(name) == Shell::SH,
    {
        if Shell::is_known(name) {
            let shell = choose|shell: Shell| name == #[trigger] shell.program_name();
            shell.lemma_program_selects_itself();
        } else {
            assert(name != Shell::CMD.program_name());
            assert(name != Shell::Bash.program_name());
            assert(name != Shell::Fish.program_name());
            assert(name != Shell::NU.program_name());
        }
    }
}

/// Whether a version probe was answered: the process ran and reported
/// success.
pub open spec fn responded(outcome: OutcomeView) -> bool {
    outcome matches OutcomeView::Exited { success: true, .. }
}

/// The interpreters that are looked for on a host: every one of the
/// catalog, in the order in which they are probed and listed.
pub open spec fn candidates() -> Seq<Shell> {
    seq![Shell::CMD, Shell::Bash, Shell::Fish, Shell::SH, Shell::NU]
}

/// The candidate at `place` if its probe was answered, and nothing if it
/// was not or if there is no such probe.
pub open spec fn answering(probes: Seq<Outcome>, place: int) -> Seq<Shell> {
    if 0 <= place < probes.len() && place < candidates().len() && responded(probes[place]@) {
        seq![candidates()[place]]
    } else {
        Seq::empty()
    }
}

/// The candidates whose probe was answered, in the order of `candidates`.
/// The probe of a candidate stands at the candidate's place.
pub open spec fn available(probes: Seq<Outcome>) -> Seq<Shell> {
    answering(probes, 0) + answering(probes, 1) + answering(probes, 2) + answering(probes, 3)
        + answering(probes, 4)
}

/// The place of an interpreter among the candidates.
pub open spec fn place_of(shell: Shell) -> int {
    match shell {
        Shell::CMD => 0,
        Shell::Bash => 1,
        Shell::Fish => 2,
        Shell::SH => 3,
        Shell::NU => 4,
    }
}

/// The answering candidates among the first `count`.
spec fn available_among(probes: Seq<Outcome>, count: nat) -> Seq<Shell>
    decreases count,
{
    if count == 0 {
        Seq::empty()
    } else {
        available_among(probes, (count - 1) as nat) + answering(probes, count - 1)
    }
}

/// The interpreters that are looked for on a host, in the order in which
/// their probes are expected.
pub fn candidate_shells() -> (shells: Vec<Shell>)
    ensures
        shells@ == candidates(),
{
    let mut shells: Vec<Shell> = Vec::new();
    shells.push(Shell::CMD);
    shells.push(Shell::Bash);
    shells.push(Shell::Fish);
    shells.push(Shell::SH);
    shells.push(Shell::NU);
    assert(shells@ =~= candidates());
    shells
}

/// The interpreters found on a host, given what the version probe of each
/// candidate came to.
pub fn available_shells(probes: &Vec<Outcome>) -> (shells: Vec<Shell>)
    ensures
        shells@ == available(probes@),
{
    let all = candidate_shells();
    let mut shells: Vec<Shell> = Vec::new();
    let mut place: usize = 0;
    while place < 5
        invariant
            place <= 5,
            all@ == candidates(),
            shells@ == available_among(probes@, place as nat),
        decreases 5 - place,
    {
        if place < probes.len() && all[place].version(&probes[place]).is_some() {
            shells.push(all[place]);
            assert(shells@ == available_among(probes@, place as nat) + seq![all@[place as int]]);
        } else {
            assert(shells@ == available_among(probes@, place as nat) + Seq::<Shell>::empty());
        }
        place = place + 1;
    }
    assert(available_among(probes@, 5) == available(probes@)) by {
        reveal_with_fuel(available_among, 6);
        assert(Seq::<Shell>::empty() + answering(probes@, 0) == answering(probes@, 0));
    }
    shells
}

/// Every interpreter of the catalog is looked for, at its place.
pub proof fn lemma_every_shell_is_a_candidate(shell: Shell)
    ensures
        0 <= place_of(shell) < candidates().len(),
        candidates()[place_of(shell)] == shell,
{
}

/// An interpreter is listed as available exactly where its probe was
/// answered, and it is listed once.
pub proof fn lemma_available_are_those_that_answered(probes: Seq<Outcome>, shell: Shell)
    ensures
        available(probes).contains(shell) <==> place_of(shell) < probes.len() && responded(
            probes[place_of(shell)]@,
        ),
        available(probes).filter(|other: Shell| other == shell).len() <= 1,
{
    let listed = available(probes);
    let same = |other: Shell| other == shell;
    let parts = seq![
        answering(probes, 0),
        answering(probes, 1),
        answering(probes, 2),
        answering(probes, 3),
        answering(probes, 4),
    ];
    let own = answering(probes, place_of(shell));
    assert forall|place: int| 0 <= place < 5 implies (#[trigger] parts[place]).filter(same) == (
        if place == place_of(shell) && own.len() == 1 {
            seq![shell]
        } else {
            Seq::<Shell>::empty()
        }) by {
        reveal_with_fuel(Seq::filter, 2);
        let part = parts[place];
        if part.len() == 1 {
            assert(part.drop_last() =~= Seq::<Shell>::empty());
            assert(part.filter(same) =~= if same(part[0]) {
                seq![part[0]]
            } else {
                Seq::<Shell>::empty()
            });
        } else {
            assert(part =~= Seq::<Shell>::empty());
        }
    }
    Seq::filter_distributes_over_add(parts[0], parts[1], same);
    Seq::filter_distributes_over_add(parts[0] + parts[1], parts[2], same);
    Seq::filter_distributes_over_add(parts[0] + parts[1] + parts[2], parts[3], same);
    Seq::filter_distributes_over_add(parts[0] + parts[1] + parts[2] + parts[3], parts[4], same);
    let kept = listed.filter(same);
    assert(kept =~= if own.len() == 1 {
        seq![shell]
    } else {
        Seq::<Shell>::empty()
    });
    if listed.contains(shell) {
        let i = choose|i: int| 0 <= i < listed.len() && listed[i] == shell;
        listed.lemma_filter_contains(same, i);
        assert(kept.len() > 0);
    }
    if own.len() == 1 {
        assert(kept[0] == shell);
        listed.lemma_filter_contains_rev(same, shell);
    }
}

} // verus!
