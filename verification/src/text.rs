//! Comparison of text with literals.

use vstd::prelude::*;

verus! {

/// Whether `text` reads exactly like `literal`.
pub fn text_is(text: &String, literal: &str) -> (same: bool)
    ensures
        same == (text@ == literal@),
{
    *text == literal.to_owned()
}

} // verus!
