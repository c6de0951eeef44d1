use vstd::prelude::*;

verus! {

/// `String::push` appends one character to the text and leaves the rest as
/// it was.
pub assume_specification[ String::push ](text: &mut String, c: char)
    ensures
        final(text)@ == old(text)@.push(c),
;

} // verus!
