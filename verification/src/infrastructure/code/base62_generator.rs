use vstd::prelude::*;

use crate::domain::short_code::{is_base62_char, random_base62_code};

verus! {

/// Generates random base-62 codes of a fixed length.
pub struct Base62CodeGenerator {
    length: usize,
}

impl Base62CodeGenerator {
    /// The length of the codes.
    pub closed spec fn spec_length(&self) -> usize {
        self.length
    }

    pub fn new(length: usize) -> (g: Self)
        ensures
            g.spec_length() == length,
    {
        Base62CodeGenerator { length }
    }

    /// A fresh random code.
    pub fn generate(&self) -> (code: String)
        ensures
            code@.len() == self.spec_length(),
            forall|i: int| 0 <= i < code@.len() ==> is_base62_char(#[trigger] code@[i]),
    {
        random_base62_code(self.length)
    }
}

} // verus!
