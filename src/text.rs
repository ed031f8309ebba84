//! Building strings piece by piece, and escaping text content.
use vstd::prelude::*;
use vstd::string::*;

verus! {

/// Relies on `String::push`: the character is appended at the end.
pub assume_specification[ String::push ](s: &mut String, ch: char)
    ensures
        final(s)@ == old(s)@.push(ch),
;

/// Appends `piece` to the end of `s`.
pub fn push_str(s: &mut String, piece: &str)
    ensures
        final(s)@ == old(s)@ + piece@,
{
    s.append(piece);
}

/// How one character of text content is written: the characters that
/// XML gives a meaning to become entities, the others stay as they are.
pub open spec fn escape_char(c: char) -> Seq<char> {
    if c == '&' {
        "&amp;"@
    } else if c == '<' {
        "&lt;"@
    } else if c == '>' {
        "&gt;"@
    } else if c == '"' {
        "&quot;"@
    } else {
        seq![c]
    }
}

/// Text content with every character escaped.
pub open spec fn escape_text(t: Seq<char>) -> Seq<char>
    decreases t.len(),
{
    if t.len() == 0 {
        seq![]
    } else {
        escape_text(t.drop_last()) + escape_char(t.last())
    }
}

/// Appends one character of text content, escaped.
pub fn push_escaped_char(s: &mut String, c: char)
    ensures
        final(s)@ == old(s)@ + escape_char(c),
{
    if c == '&' {
        push_str(s, "&amp;");
    } else if c == '<' {
        push_str(s, "&lt;");
    } else if c == '>' {
        push_str(s, "&gt;");
    } else if c == '"' {
        push_str(s, "&quot;");
    } else {
        s.push(c);
    }
}

/// Appends the text content `t`, escaped.
pub fn push_escaped(s: &mut String, t: &str)
    ensures
        final(s)@ == old(s)@ + escape_text(t@),
{
    broadcast use vstd::string::axiom_spec_iter;
    let ghost start = s@;
    for c in it: t.chars()
        invariant
            it.seq() == t@,
            s@ == start + escape_text(t@.take(it.index())),
    {
        let ghost i = it.index();
        push_escaped_char(s, c);
        proof {
            assert(t@.take(i + 1).drop_last() =~= t@.take(i));
        }
    }
    assert(t@.take(t@.len() as int) =~= t@);
}

} // verus!
