//! Building text from pieces.

use vstd::prelude::*;

verus! {

/// `String::push_str` appends the slice to the end of the string.
pub assume_specification[ String::push_str ](text: &mut String, piece: &str)
    ensures
        final(text)@ == old(text)@ + piece@,
;

/// The two pieces in a row.
pub fn join(head: &str, tail: &str) -> (text: String)
    ensures
        text@ == head@ + tail@,
{
    let mut text = String::new();
    text.push_str(head);
    text.push_str(tail);
    assert(text@ =~= head@ + tail@);
    text
}

/// The three pieces in a row.
pub fn join3(head: &str, middle: &str, tail: &str) -> (text: String)
    ensures
        text@ == head@ + middle@ + tail@,
{
    let mut text = String::new();
    text.push_str(head);
    text.push_str(middle);
    text.push_str(tail);
    assert(text@ =~= head@ + middle@ + tail@);
    text
}

} // verus!
