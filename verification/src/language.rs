//! The language variants a corpus can be loaded in.

use vstd::prelude::*;

verus! {

/// Selector for which text variant of the corpus is loaded: the Arabic
/// source text or its English translation. Chosen once, at construction.
#[derive(Clone, Copy, Debug, PartialEq, Eq, Structural)]
pub enum Language {
    Arabic,
    English,
}

impl Language {
    /// True exactly for the English variant.
    pub fn is_english(&self) -> (r: bool)
        ensures
            r == (*self is English),
    {
        match self {
            Language::English => true,
            _ => false,
        }
    }

    /// True exactly for the Arabic variant.
    pub fn is_arabic(&self) -> (r: bool)
        ensures
            r == (*self is Arabic),
    {
        match self {
            Language::Arabic => true,
            _ => false,
        }
    }
}

} // verus!
