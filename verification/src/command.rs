//! Reading one inbound line as a command.
//!
//! Two lines are reserved. The line `exit` ends the session. A line that
//! starts with `cd` and a space asks for a change of directory; what
//! follows, without the white space around it, is the path. Every other
//! line is handed to the interpreter as it stands.

use crate::chars::{chars_of, same_text, string_of};
use vstd::prelude::*;

verus! {

/// What a line asks for.
#[derive(Debug, PartialEq, Eq)]
pub enum Command {
    Exit,
    ChangeDirectory(String),
    Run(String),
}

/// A `Command` as plain values.
pub enum CommandView {
    Exit,
    ChangeDirectory(Seq<char>),
    Run(Seq<char>),
}

impl View for Command {
    type V = CommandView;

    open spec fn view(&self) -> CommandView {
        match self {
            Command::Exit => CommandView::Exit,
            Command::ChangeDirectory(path) => CommandView::ChangeDirectory(path@),
            Command::Run(line) => CommandView::Run(line@),
        }
    }
}

/// White space: the characters with the Unicode property `White_Space`.
pub open spec fn is_space(c: char) -> bool {
    let code = c as u32;
    ||| 0x09 <= code <= 0x0d
    ||| code == 0x20
    ||| code == 0x85
    ||| code == 0xa0
    ||| code == 0x1680
    ||| 0x2000 <= code <= 0x200a
    ||| code == 0x2028
    ||| code == 0x2029
    ||| code == 0x202f
    ||| code == 0x205f
    ||| code == 0x3000
}

/// How many characters of white space a text starts with.
pub open spec fn leading_spaces(text: Seq<char>) -> nat
    decreases text.len(),
{
    if text.len() > 0 && is_space(text[0]) {
        1 + leading_spaces(text.skip(1))
    } else {
        0
    }
}

/// How many characters of white space a text ends with.
pub open spec fn trailing_spaces(text: Seq<char>) -> nat
    decreases text.len(),
{
    if text.len() > 0 && is_space(text.last()) {
        1 + trailing_spaces(text.drop_last())
    } else {
        0
    }
}

/// A text without the white space it starts with and ends with.
pub open spec fn trimmed(text: Seq<char>) -> Seq<char> {
    let rest = text.skip(leading_spaces(text) as int);
    rest.take(rest.len() - trailing_spaces(rest))
}

/// What a line asks for.
pub open spec fn parsed(line: Seq<char>) -> CommandView {
    if line == "exit"@ {
        CommandView::Exit
    } else if "cd "@.is_prefix_of(line) {
        CommandView::ChangeDirectory(trimmed(line.skip(3)))
    } else {
        CommandView::Run(line)
    }
}

/// Whether `c` is white space.
pub fn is_space_char(c: char) -> (b: bool)
    ensures
        b == is_space(c),
{
    let code: u32 = c as u32;
    (0x09 <= code && code <= 0x0d) || code == 0x20 || code == 0x85 || code == 0xa0 || code
        == 0x1680 || (0x2000 <= code && code <= 0x200a) || code == 0x2028 || code == 0x2029
        || code == 0x202f || code == 0x205f || code == 0x3000
}

/// White space up to `count`, and none at `count`, is `count` characters
/// of leading white space.
pub proof fn lemma_leading_spaces_is(text: Seq<char>, count: nat)
    requires
        count <= text.len(),
        forall|i: int| 0 <= i < count ==> is_space(#[trigger] text[i]),
        count < text.len() ==> !is_space(text[count as int]),
    ensures
        leading_spaces(text) == count,
    decreases count,
{
    if count > 0 {
        let rest = text.skip(1);
        assert forall|i: int| 0 <= i < count - 1 implies is_space(#[trigger] rest[i]) by {
            assert(rest[i] == text[i + 1]);
        }
        lemma_leading_spaces_is(rest, (count - 1) as nat);
    }
}

/// White space over the last `count` characters, and none before them, is
/// `count` characters of trailing white space.
pub proof fn lemma_trailing_spaces_is(text: Seq<char>, count: nat)
    requires
        count <= text.len(),
        forall|i: int| text.len() - count <= i < text.len() ==> is_space(#[trigger] text[i]),
        count < text.len() ==> !is_space(text[text.len() - count - 1]),
    ensures
        trailing_spaces(text) == count,
    decreases count,
{
    if count > 0 {
        let front = text.drop_last();
        assert forall|i: int| front.len() - (count - 1) <= i < front.len() implies is_space(
            #[trigger] front[i],
        ) by {
            assert(front[i] == text[i]);
        }
        lemma_trailing_spaces_is(front, (count - 1) as nat);
    }
}

/// The characters of `text` without the white space at both ends.
pub fn trim(text: &Vec<char>) -> (out: Vec<char>)
    ensures
        out@ == trimmed(text@),
{
    let mut from: usize = 0;
    while from < text.len() && is_space_char(text[from])
        invariant
            from <= text.len(),
            forall|i: int| 0 <= i < from ==> is_space(#[trigger] text@[i]),
        decreases text.len() - from,
    {
        from = from + 1;
    }
    let mut to: usize = text.len();
    while from < to && is_space_char(text[to - 1])
        invariant
            from <= to <= text.len(),
            forall|i: int| to <= i < text.len() ==> is_space(#[trigger] text@[i]),
        decreases to - from,
    {
        to = to - 1;
    }
    let ghost rest = text@.skip(from as int);
    proof {
        lemma_leading_spaces_is(text@, from as nat);
        assert forall|i: int| rest.len() - (text.len() - to) <= i < rest.len() implies is_space(
            #[trigger] rest[i],
        ) by {
            assert(rest[i] == text@[i + from]);
        }
        lemma_trailing_spaces_is(rest, (text.len() - to) as nat);
    }
    let mut out: Vec<char> = Vec::new();
    let mut i: usize = from;
    while i < to
        invariant
            from <= i <= to <= text.len(),
            out@ == text@.subrange(from as int, i as int),
        decreases to - i,
    {
        out.push(text[i]);
        assert(text@.subrange(from as int, i + 1) == text@.subrange(from as int, i as int).push(
            text@[i as int],
        ));
        i = i + 1;
    }
    assert(text@.subrange(from as int, to as int) == rest.take(rest.len() - (text.len() - to)));
    out
}

/// Reads a line as a command.
pub fn parse_command(line: &str) -> (command: Command)
    ensures
        command@ == parsed(line@),
{
    proof {
        reveal_strlit("cd ");
    }
    if same_text(line, "exit") {
        return Command::Exit;
    }
    let chars = chars_of(line);
    if chars.len() >= 3 && chars[0] == 'c' && chars[1] == 'd' && chars[2] == ' ' {
        let mut rest: Vec<char> = Vec::new();
        let mut i: usize = 3;
        while i < chars.len()
            invariant
                3 <= i <= chars.len(),
                rest@ == chars@.subrange(3, i as int),
            decreases chars.len() - i,
        {
            rest.push(chars[i]);
            assert(chars@.subrange(3, i + 1) == chars@.subrange(3, i as int).push(chars@[i as int]));
            i = i + 1;
        }
        assert(chars@.subrange(3, chars.len() as int) == chars@.skip(3));
        assert("cd "@.is_prefix_of(line@));
        let path = trim(&rest);
        Command::ChangeDirectory(string_of(&path))
    } else {
        assert(!"cd "@.is_prefix_of(line@)) by {
            if "cd "@.is_prefix_of(line@) {
                assert(line@.subrange(0, 3)[0] == 'c');
                assert(line@.subrange(0, 3)[1] == 'd');
                assert(line@.subrange(0, 3)[2] == ' ');
            }
        }
        Command::Run(String::from_str(line))
    }
}

} // verus!
