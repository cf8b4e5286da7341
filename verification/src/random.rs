//! The one place where chance enters the library.

use vstd::prelude::*;

verus! {

/// Flips a fair coin by calling `rand::random::<bool>()`, which samples the
/// standard distribution from the generator of the current thread.
///
/// Nothing is promised about the outcome: two calls may well disagree.
#[verifier::external_body]
pub(crate) fn random_bool() -> (draw: bool) {
    rand::random()
}

} // verus!
