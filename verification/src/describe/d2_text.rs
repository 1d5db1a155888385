use vstd::prelude::*;
use vstd::std_specs::iter::IteratorSpec;

verus! {

/// What `String::push` does: the character is appended to the text.
pub assume_specification[ String::push ](text: &mut String, ch: char)
    ensures
        final(text)@ == old(text)@.push(ch),
;

/// Whether `c` is a character that the diagram language reads as markup.
pub open spec fn is_markup(c: char) -> bool {
    c == '<' || c == '>' || c == '{' || c == '}'
}

/// `text` with a backslash put before each of its markup characters.
pub open spec fn escaped(text: Seq<char>) -> Seq<char>
    decreases text.len(),
{
    if text.len() == 0 {
        Seq::empty()
    } else if is_markup(text.last()) {
        escaped(text.drop_last()).push('\\').push(text.last())
    } else {
        escaped(text.drop_last()).push(text.last())
    }
}

/// Escapes a text for use in a diagram: each of `<`, `>`, `{` and `}` gets a
/// backslash before it.
pub fn escape_str(val: &str) -> (text: String)
    ensures
        text@ == escaped(val@),
{
    let mut text = String::new();
    let ghost chars = vstd::string::spec_iter(val).remaining();
    for c in it: val.chars()
        invariant
            it.seq() == chars,
            chars == val@,
            text@ == escaped(val@.take(it.index())),
    {
        assert(val@.take(it.index() + 1).drop_last() =~= val@.take(it.index()));
        if c == '<' || c == '>' || c == '{' || c == '}' {
            text.push('\\');
        }
        text.push(c);
    }
    assert(val@.take(val@.len() as int) =~= val@);
    text
}

/// The character for a decimal digit.
pub open spec fn digit_char(digit: int) -> char {
    if digit == 0 {
        '0'
    } else if digit == 1 {
        '1'
    } else if digit == 2 {
        '2'
    } else if digit == 3 {
        '3'
    } else if digit == 4 {
        '4'
    } else if digit == 5 {
        '5'
    } else if digit == 6 {
        '6'
    } else if digit == 7 {
        '7'
    } else if digit == 8 {
        '8'
    } else {
        '9'
    }
}

/// `number` written in decimal, without leading zeros.
pub open spec fn decimal(number: nat) -> Seq<char>
    decreases number,
{
    if number < 10 {
        seq![digit_char(number as int)]
    } else {
        decimal(number / 10).push(digit_char((number % 10) as int))
    }
}

fn digit(value: u64) -> (c: char)
    requires
        value < 10,
    ensures
        c == digit_char(value as int),
{
    if value == 0 {
        '0'
    } else if value == 1 {
        '1'
    } else if value == 2 {
        '2'
    } else if value == 3 {
        '3'
    } else if value == 4 {
        '4'
    } else if value == 5 {
        '5'
    } else if value == 6 {
        '6'
    } else if value == 7 {
        '7'
    } else if value == 8 {
        '8'
    } else {
        '9'
    }
}

/// Appends `number`, written in decimal, to `out`.
pub fn push_decimal(out: &mut String, number: u64)
    ensures
        final(out)@ == old(out)@ + decimal(number as nat),
    decreases number,
{
    if number < 10 {
        out.push(digit(number));
    } else {
        push_decimal(out, number / 10);
        out.push(digit(number % 10));
    }
}

/// Appends `text`, escaped for use in a diagram, to `out`.
pub fn push_escaped(out: &mut String, text: &str)
    ensures
        final(out)@ == old(out)@ + escaped(text@),
{
    let piece = escape_str(text);
    out.append(piece.as_str());
}

} // verus!
