//! Removing terminal control sequences from text.
//!
//! Output that was written for a terminal holds escape sequences for
//! colours and cursor movement. What is shown to a reader of plain text
//! keeps the printable characters and the three characters that lay text
//! out: carriage return, line feed and tab.

use crate::chars::{chars_of, string_of};
use vstd::prelude::*;

verus! {

/// What `strip_ansi_escapes::strip_str` makes of a text.
pub uninterp spec fn stripped(text: Seq<char>) -> Seq<char>;

/// Runs the escape sequence parser of `strip_ansi_escapes::strip_str` over
/// `text` and returns what it lets through.
#[verifier::external_body]
fn strip_escapes(text: &str) -> (out: String)
    ensures
        out@ == stripped(text@),
{
    strip_ansi_escapes::strip_str(text)
}

/// Carriage return, line feed and tab: the control characters that lay
/// text out and therefore stay.
pub open spec fn is_break(c: char) -> bool {
    c == '\r' || c == '\n' || c == '\t'
}

/// A control character: one of the ranges U+0000 to U+001F and U+0080 to
/// U+009F.
pub open spec fn is_control(c: char) -> bool {
    c as u32 <= 0x1f || 0x80 <= c as u32 <= 0x9f
}

/// A text without any control character.
pub open spec fn is_plain(text: Seq<char>) -> bool {
    forall|i: int| 0 <= i < text.len() ==> !is_control(#[trigger] text[i])
}

/// The breaks of a text, in order.
pub open spec fn breaks_of(text: Seq<char>) -> Seq<char> {
    text.filter(|c: char| is_break(c))
}

/// A text without its control characters.
pub open spec fn without_controls(text: Seq<char>) -> Seq<char> {
    text.filter(|c: char| !is_control(c))
}

/// A stretch of text between two breaks, made plain. A stretch that holds
/// no control character is plain already. Any other goes through the escape
/// sequence parser, and control characters that the parser lets through are
/// left out.
pub open spec fn cleaned(stretch: Seq<char>) -> Seq<char> {
    if is_plain(stretch) {
        stretch
    } else {
        without_controls(stripped(stretch))
    }
}

/// The place of the first break in a text, or the length of the text where
/// it has none.
pub open spec fn first_break(text: Seq<char>) -> int
    decreases text.len(),
{
    if text.len() == 0 || is_break(text[0]) {
        0
    } else {
        1 + first_break(text.skip(1))
    }
}

/// A text without its terminal control sequences: the breaks stay where
/// they are, and each stretch between them is made plain by itself.
pub open spec fn stripped_text(text: Seq<char>) -> Seq<char>
    decreases text.len(),
{
    let k = first_break(text);
    if 0 <= k < text.len() {
        cleaned(text.take(k)) + seq![text[k]] + stripped_text(text.skip(k + 1))
    } else {
        cleaned(text)
    }
}

/// Whether `c` is a carriage return, a line feed or a tab.
pub fn is_break_char(c: char) -> (b: bool)
    ensures
        b == is_break(c),
{
    c == '\r' || c == '\n' || c == '\t'
}

/// Whether `c` is a control character.
pub fn is_control_char(c: char) -> (b: bool)
    ensures
        b == is_control(c),
{
    let code: u32 = c as u32;
    code <= 0x1f || (0x80 <= code && code <= 0x9f)
}

/// `first_break` is where the first break stands: nothing before it is a
/// break, and it is a break itself unless the text ended first.
pub proof fn lemma_first_break(text: Seq<char>)
    ensures
        0 <= first_break(text) <= text.len(),
        forall|i: int| 0 <= i < first_break(text) ==> !is_break(#[trigger] text[i]),
        first_break(text) < text.len() ==> is_break(text[first_break(text)]),
    decreases text.len(),
{
    if text.len() == 0 || is_break(text[0]) {
    } else {
        let rest = text.skip(1);
        lemma_first_break(rest);
        assert forall|i: int| 0 <= i < first_break(text) implies !is_break(#[trigger] text[i]) by {
            if i > 0 {
                assert(text[i] == rest[i - 1]);
            }
        }
    }
}

/// A place that is a break, or the end of the text, with no break before
/// it, is the first break.
pub proof fn lemma_first_break_is(text: Seq<char>, k: int)
    requires
        0 <= k <= text.len(),
        forall|i: int| 0 <= i < k ==> !is_break(#[trigger] text[i]),
        k < text.len() ==> is_break(text[k]),
    ensures
        first_break(text) == k,
{
    lemma_first_break(text);
    let f = first_break(text);
    if f < k {
        assert(!is_break(text[f]));
    } else if k < f {
        assert(is_break(text[k]));
    }
}

/// Adds to `out` the characters of `source` that are no control
/// characters, in order. This is what becomes of the text that the escape
/// sequence parser returns.
pub fn push_without_controls(source: &Vec<char>, out: &mut Vec<char>)
    ensures
        final(out)@ == old(out)@ + without_controls(source@),
{
    let ghost keep = |c: char| !is_control(c);
    let mut i: usize = 0;
    proof {
        reveal(Seq::filter);
        assert(source@.take(0).filter(keep) =~= Seq::<char>::empty());
    }
    while i < source.len()
        invariant
            i <= source.len(),
            keep == (|c: char| !is_control(c)),
            out@ == old(out)@ + source@.take(i as int).filter(keep),
        decreases source.len() - i,
    {
        let c = source[i];
        proof {
            reveal(Seq::filter);
            assert(source@.take(i + 1).drop_last() == source@.take(i as int));
        }
        if !is_control_char(c) {
            out.push(c);
        }
        i = i + 1;
    }
    assert(source@.take(i as int) == source@);
}

/// Adds to `out` the stretch of `text` from `from` up to `to`, made plain.
fn push_cleaned(text: &Vec<char>, from: usize, to: usize, out: &mut Vec<char>)
    requires
        from <= to <= text.len(),
    ensures
        final(out)@ == old(out)@ + cleaned(text@.subrange(from as int, to as int)),
{
    let ghost stretch = text@.subrange(from as int, to as int);
    let mut piece: Vec<char> = Vec::new();
    let mut plain = true;
    let mut i: usize = from;
    while i < to
        invariant
            from <= i <= to <= text.len(),
            stretch == text@.subrange(from as int, to as int),
            piece@ == stretch.take(i - from),
            plain == is_plain(stretch.take(i - from)),
        decreases to - i,
    {
        let c = text[i];
        let ghost before = stretch.take(i - from);
        let ghost after = stretch.take(i + 1 - from);
        proof {
            assert(after == before.push(c));
            if is_plain(after) {
                assert forall|j: int| 0 <= j < before.len() implies !is_control(
                    #[trigger] before[j],
                ) by {
                    assert(before[j] == after[j]);
                }
            }
            if is_control(c) {
                assert(after[i - from] == c);
            }
        }
        if is_control_char(c) {
            plain = false;
        }
        piece.push(c);
        i = i + 1;
    }
    assert(stretch.take(to - from) == stretch);
    if plain {
        let mut copied = piece;
        out.append(&mut copied);
    } else {
        let raw = string_of(&piece);
        let parsed = strip_escapes(raw.as_str());
        let parsed_chars = chars_of(parsed.as_str());
        push_without_controls(&parsed_chars, out);
    }
}

/// Removes terminal control sequences from `text`. Carriage returns, line
/// feeds and tabs stay where they are; every other control character and
/// every escape sequence is left out, also one that is cut short or
/// malformed.
pub fn strip_controls(text: &str) -> (out: String)
    ensures
        out@ == stripped_text(text@),
{
    let chars = chars_of(text);
    let mut kept: Vec<char> = Vec::new();
    let mut start: usize = 0;
    let mut done = false;
    proof {
        assert(chars@.skip(0) == chars@);
        assert(kept@ + stripped_text(chars@) == stripped_text(chars@));
    }
    while !done
        invariant
            start <= chars.len(),
            chars@ == text@,
            !done ==> kept@ + stripped_text(chars@.skip(start as int)) == stripped_text(chars@),
            done ==> kept@ == stripped_text(chars@),
        decreases chars.len() - start + (if done { 0int } else { 1int }),
    {
        let ghost rest = chars@.skip(start as int);
        let mut end: usize = start;
        while end < chars.len() && !is_break_char(chars[end])
            invariant
                start <= end <= chars.len(),
                forall|i: int| start <= i < end ==> !is_break(#[trigger] chars@[i]),
            decreases chars.len() - end,
        {
            end = end + 1;
        }
        proof {
            lemma_first_break_is(rest, end - start);
            assert(rest.take(end - start) == chars@.subrange(start as int, end as int));
        }
        push_cleaned(&chars, start, end, &mut kept);
        if end < chars.len() {
            kept.push(chars[end]);
            proof {
                assert(rest.skip(end - start + 1) == chars@.skip(end + 1));
                assert(rest[end - start] == chars@[end as int]);
            }
            start = end + 1;
        } else {
            proof {
                assert(rest.take(end - start) == rest);
            }
            done = true;
        }
    }
    string_of(&kept)
}

/// A stretch without a break has no breaks to list.
pub proof fn lemma_no_break_listed(text: Seq<char>)
    requires
        forall|i: int| 0 <= i < text.len() ==> !is_break(#[trigger] text[i]),
    ensures
        breaks_of(text) == Seq::<char>::empty(),
    decreases text.len(),
{
    reveal(Seq::filter);
    if text.len() > 0 {
        let front = text.drop_last();
        assert forall|i: int| 0 <= i < front.len() implies !is_break(#[trigger] front[i]) by {
            assert(front[i] == text[i]);
        }
        lemma_no_break_listed(front);
        assert(!is_break(text[text.len() - 1]));
    }
}

/// A plain text holds no break.
pub proof fn lemma_plain_has_no_break(text: Seq<char>)
    requires
        is_plain(text),
    ensures
        breaks_of(text) == Seq::<char>::empty(),
        first_break(text) == text.len(),
{
    assert forall|i: int| 0 <= i < text.len() implies !is_break(#[trigger] text[i]) by {
        assert(!is_control(text[i]));
    }
    lemma_no_break_listed(text);
    lemma_first_break_is(text, text.len() as int);
}

/// A stretch that was made plain is plain.
pub proof fn lemma_cleaned_is_plain(stretch: Seq<char>)
    ensures
        is_plain(cleaned(stretch)),
{
    if !is_plain(stretch) {
        let parsed = stripped(stretch);
        let keep = |c: char| !is_control(c);
        assert forall|i: int| 0 <= i < without_controls(parsed).len() implies !is_control(
            #[trigger] without_controls(parsed)[i],
        ) by {
            parsed.lemma_filter_pred(keep, i);
        }
    }
}

/// Safe to show as plain text: the only control characters left after
/// stripping are carriage returns, line feeds and tabs.
pub proof fn lemma_stripped_text_keeps_only_breaks(text: Seq<char>)
    ensures
        forall|i: int|
            0 <= i < stripped_text(text).len() && is_control(#[trigger] stripped_text(text)[i])
                ==> is_break(stripped_text(text)[i]),
    decreases text.len(),
{
    lemma_first_break(text);
    let k = first_break(text);
    if k < text.len() {
        let head = cleaned(text.take(k));
        lemma_cleaned_is_plain(text.take(k));
        lemma_stripped_text_keeps_only_breaks(text.skip(k + 1));
        let tail = stripped_text(text.skip(k + 1));
        let whole = stripped_text(text);
        assert forall|i: int| 0 <= i < whole.len() && is_control(#[trigger] whole[i]) implies is_break(
            whole[i],
        ) by {
            if i < head.len() {
                assert(whole[i] == head[i]);
            } else if i == head.len() {
                assert(whole[i] == text[k]);
            } else {
                assert(whole[i] == tail[i - head.len() - 1]);
            }
        }
    } else {
        lemma_cleaned_is_plain(text);
    }
}

/// Stripping keeps the layout: the carriage returns, line feeds and tabs
/// of the result are those of the input, as many and in the same order.
pub proof fn lemma_stripped_text_keeps_breaks(text: Seq<char>)
    ensures
        breaks_of(stripped_text(text)) == breaks_of(text),
    decreases text.len(),
{
    let listed = |c: char| is_break(c);
    lemma_first_break(text);
    let k = first_break(text);
    if k < text.len() {
        let head = text.take(k);
        let mark = seq![text[k]];
        let tail = text.skip(k + 1);
        lemma_stripped_text_keeps_breaks(tail);
        lemma_cleaned_is_plain(head);
        lemma_plain_has_no_break(cleaned(head));
        assert forall|i: int| 0 <= i < head.len() implies !is_break(#[trigger] head[i]) by {
            assert(head[i] == text[i]);
        }
        lemma_no_break_listed(head);
        Seq::filter_distributes_over_add(cleaned(head), mark, listed);
        Seq::filter_distributes_over_add(cleaned(head) + mark, stripped_text(tail), listed);
        Seq::filter_distributes_over_add(head, mark, listed);
        Seq::filter_distributes_over_add(head + mark, tail, listed);
        assert(text == head + mark + tail);
    } else {
        lemma_cleaned_is_plain(text);
        lemma_plain_has_no_break(cleaned(text));
        lemma_no_break_listed(text);
    }
}

/// Stripping twice gives what stripping once gives.
pub proof fn lemma_stripped_text_idempotent(text: Seq<char>)
    ensures
        stripped_text(stripped_text(text)) == stripped_text(text),
    decreases text.len(),
{
    lemma_first_break(text);
    let k = first_break(text);
    let once = stripped_text(text);
    if k < text.len() {
        let head = cleaned(text.take(k));
        let tail = stripped_text(text.skip(k + 1));
        lemma_cleaned_is_plain(text.take(k));
        lemma_plain_has_no_break(head);
        lemma_first_break(head);
        lemma_stripped_text_idempotent(text.skip(k + 1));
        assert forall|i: int| 0 <= i < head.len() implies !is_break(#[trigger] once[i]) by {
            assert(once[i] == head[i]);
        }
        assert(once[head.len() as int] == text[k]);
        lemma_first_break_is(once, head.len() as int);
        assert(once.take(head.len() as int) == head);
        assert(once.skip(head.len() as int + 1) == tail);
    } else {
        lemma_cleaned_is_plain(text);
        lemma_plain_has_no_break(once);
    }
}

} // verus!
