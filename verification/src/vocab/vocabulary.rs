//! What every vocabulary offers: a short prefix and the full identifier it
//! stands for.

use vstd::prelude::*;

verus! {

/// The base trait for every namespace that has a prefix and a full
/// identifier.
pub trait Vocabulary {
    /// The type of the short form, such as `"ex:"`.
    type Prefix;

    /// The type of the expanded form, such as `"https://example.com/"`.
    type Full;

    /// The short form of the vocabulary's identifier.
    fn prefix() -> Self::Prefix;

    /// The expanded form of the vocabulary's identifier.
    fn full() -> Self::Full;
}

} // verus!
