//! Keeps the set of internal sources closed.

use vstd::prelude::*;

verus! {

/// Implemented by the tokens of this crate and by nothing else: the module is
/// private, so no other crate can name the trait.
pub trait Sealed {

}

} // verus!
