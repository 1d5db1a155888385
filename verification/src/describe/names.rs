use vstd::prelude::*;
use vstd::std_specs::iter::IteratorSpec;

verus! {

/// Where the generic arguments of a type name start: the position of its
/// first `<`, or its length if it has none.
pub open spec fn generics_start(name: Seq<char>) -> int
    decreases name.len(),
{
    if name.len() == 0 || name[0] == '<' {
        0
    } else {
        1 + generics_start(name.drop_first())
    }
}

/// The position `generics_start` names is the first at which a `<` stands.
pub proof fn lemma_generics_start(name: Seq<char>, position: int)
    requires
        0 <= position <= name.len(),
        forall|i: int| 0 <= i < position ==> name[i] != '<',
        position == name.len() || name[position] == '<',
    ensures
        generics_start(name) == position,
    decreases name.len(),
{
    if position > 0 {
        let rest = name.drop_first();
        lemma_generics_start(rest, position - 1);
    }
}

/// The name of the wrapper that nodes put around what they produce.
pub const OUTPUT_WRAPPER: &'static str = "NodeOutput";

/// Whether `pattern` stands somewhere in `text`.
pub open spec fn has_infix(text: Seq<char>, pattern: Seq<char>) -> bool {
    exists|at: int| #[trigger] stands_at(text, pattern, at)
}

/// Whether `pattern` stands in `text` at the position `at`.
pub open spec fn stands_at(text: Seq<char>, pattern: Seq<char>, at: int) -> bool {
    0 <= at && at + pattern.len() <= text.len() && text.subrange(at, at + pattern.len()) == pattern
}

/// The name of what a node produces, without the wrapper around it: where
/// the name has generic arguments and the wrapper's name stands before
/// them, what is left is the text between the first `<` and the last
/// character. Every other name stays as it is.
pub open spec fn unwrapped_output(name: Seq<char>) -> Seq<char> {
    let start = generics_start(name);
    if start < name.len() && has_infix(name.take(start), OUTPUT_WRAPPER@) {
        if start + 1 < name.len() {
            name.subrange(start + 1, name.len() - 1)
        } else {
            Seq::empty()
        }
    } else {
        name
    }
}

/// Copies the characters of `text` into a vector.
fn chars_of(text: &str) -> (chars: Vec<char>)
    ensures
        chars@ == text@,
{
    let mut chars: Vec<char> = Vec::new();
    let ghost all = vstd::string::spec_iter(text).remaining();
    for c in it: text.chars()
        invariant
            it.seq() == all,
            all == text@,
            chars@ == text@.take(it.index()),
    {
        chars.push(c);
    }
    chars
}

/// Cuts the generic arguments off a type name: what is left is the name up
/// to its first `<`.
pub fn remove_generics_from_name(orig_name: &mut String)
    ensures
        final(orig_name)@ == old(orig_name)@.take(generics_start(old(orig_name)@)),
{
    let chars = chars_of(orig_name.as_str());
    let mut position: usize = 0;
    while position < chars.len() && chars[position] != '<'
        invariant
            position <= chars@.len(),
            forall|i: int| 0 <= i < position ==> chars@[i] != '<',
        decreases chars.len() - position,
    {
        position += 1;
    }
    proof {
        lemma_generics_start(chars@, position as int);
    }
    let shortened = orig_name.as_str().substring_char(0, position).to_owned();
    *orig_name = shortened;
}

/// Whether `pattern` stands in `text` at the position `at`.
fn matches_at(text: &Vec<char>, pattern: &Vec<char>, at: usize) -> (found: bool)
    requires
        at + pattern@.len() <= text@.len(),
    ensures
        found == stands_at(text@, pattern@, at as int),
{
    let length = text.len();
    let mut offset: usize = 0;
    while offset < pattern.len()
        invariant
            offset <= pattern@.len(),
            length == text@.len(),
            at + pattern@.len() <= text@.len(),
            forall|i: int| 0 <= i < offset ==> text@[at + i] == pattern@[i],
        decreases pattern.len() - offset,
    {
        if text[at + offset] != pattern[offset] {
            return false;
        }
        offset += 1;
    }
    assert(text@.subrange(at as int, at + pattern@.len()) =~= pattern@);
    true
}

/// Whether `pattern` stands somewhere in the first `end` characters of
/// `text`.
fn contains_before(text: &Vec<char>, end: usize, pattern: &Vec<char>) -> (found: bool)
    requires
        end <= text@.len(),
    ensures
        found == has_infix(text@.take(end as int), pattern@),
{
    let ghost head = text@.take(end as int);
    if pattern.len() > end {
        return false;
    }
    if pattern.len() == 0 {
        assert(head.subrange(0, 0) =~= pattern@);
        assert(stands_at(head, pattern@, 0));
        return true;
    }
    let count = end - pattern.len() + 1;
    let mut at: usize = 0;
    while at < count
        invariant
            at <= count,
            count + pattern@.len() == end + 1,
            end <= text@.len(),
            head == text@.take(end as int),
            forall|i: int| 0 <= i < at ==> !stands_at(head, pattern@, i),
        decreases count - at,
    {
        if matches_at(text, pattern, at) {
            assert(stands_at(head, pattern@, at as int));
            return true;
        }
        assert(head.subrange(at as int, at + pattern@.len()) =~= text@.subrange(
            at as int,
            at + pattern@.len(),
        ));
        at += 1;
    }
    false
}

/// Takes the wrapper off the name of what a node produces, so that the
/// name tells what a flow hands on.
pub fn strip_output_wrapper(name: &mut String)
    ensures
        final(name)@ == unwrapped_output(old(name)@),
{
    let chars = chars_of(name.as_str());
    let mut start: usize = 0;
    while start < chars.len() && chars[start] != '<'
        invariant
            start <= chars@.len(),
            forall|i: int| 0 <= i < start ==> chars@[i] != '<',
        decreases chars.len() - start,
    {
        start += 1;
    }
    proof {
        lemma_generics_start(chars@, start as int);
    }
    if start >= chars.len() {
        return ;
    }
    let wrapper = chars_of(OUTPUT_WRAPPER);
    if !contains_before(&chars, start, &wrapper) {
        return ;
    }
    let mut inner = String::new();
    let end = chars.len() - 1;
    let mut index: usize = start + 1;
    while index < end
        invariant
            start + 1 <= index,
            end + 1 == chars@.len(),
            index <= end || index == start + 1,
            inner@ == chars@.subrange(start + 1, index as int),
        decreases end - index,
    {
        inner.push(chars[index]);
        index += 1;
    }
    *name = inner;
}

} // verus!
