//! A service that says what it is told.

use vstd::prelude::*;

verus! {

/// A service that says what it is told.
#[derive(Debug, Default, Clone)]
pub struct EchoService;

impl EchoService {
    /// Says the text.
    pub fn say(&self, text: String) -> (out: String)
        ensures
            out == text,
    {
        text
    }
}

} // verus!
