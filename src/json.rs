use vstd::prelude::*;
use crate::text::{push_char, push_text};

verus! {

/// How one character is written inside a JSON string literal: backslash,
/// double quote, newline, carriage return and tab get a two-character
/// escape; every other character stands for itself.
pub open spec fn escape_char(c: char) -> Seq<char> {
    if c == '\\' {
        seq!['\\', '\\']
    } else if c == '"' {
        seq!['\\', '"']
    } else if c == '\n' {
        seq!['\\', 'n']
    } else if c == '\r' {
        seq!['\\', 'r']
    } else if c == '\t' {
        seq!['\\', 't']
    } else {
        seq![c]
    }
}

/// The escaped form of `s`: each character replaced by its escape.
pub open spec fn escape_spec(s: Seq<char>) -> Seq<char>
    decreases s.len(),
{
    if s.len() == 0 {
        Seq::empty()
    } else {
        escape_spec(s.drop_last()) + escape_char(s.last())
    }
}

/// Escapes `input` for use between the quotes of a JSON string literal.
pub fn escape_json(input: &str) -> (out: String)
    ensures
        out@ == escape_spec(input@),
{
    let mut out = String::new();
    for c in it: input.chars()
        invariant
            it.seq() == input@,
            out@ == escape_spec(input@.subrange(0, it.index() as int)),
    {
        let ghost done = input@.subrange(0, it.index() as int);
        let ghost next = input@.subrange(0, it.index() + 1);
        assert(next.drop_last() == done);
        if c == '\\' {
            push_char(&mut out, '\\');
            push_char(&mut out, '\\');
        } else if c == '"' {
            push_char(&mut out, '\\');
            push_char(&mut out, '"');
        } else if c == '\n' {
            push_char(&mut out, '\\');
            push_char(&mut out, 'n');
        } else if c == '\r' {
            push_char(&mut out, '\\');
            push_char(&mut out, 'r');
        } else if c == '\t' {
            push_char(&mut out, '\\');
            push_char(&mut out, 't');
        } else {
            push_char(&mut out, c);
        }
        assert(out@ == escape_spec(next));
    }
    assert(input@.subrange(0, input@.len() as int) == input@);
    out
}

} // verus!
