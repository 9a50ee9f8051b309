//! What the proofs take for granted of `String`, where the verifier's own
//! library says nothing.

use vstd::prelude::*;

verus! {

/// `String::push` appends the character to the text.
pub assume_specification[ String::push ](text: &mut String, ch: char)
    ensures
        final(text)@ == old(text)@.push(ch),
;

} // verus!
