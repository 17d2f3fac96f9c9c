//! The validation error returned by the constructors of the bounded-length
//! string types and the identity token.

use vstd::prelude::*;

verus! {

/// The only validation failure in this vocabulary: a raw character sequence
/// longer than the maximum its target type allows. `actual_length` is the
/// character count of the rejected input, `max_length` the bound of the type
/// whose constructor rejected it.
#[derive(Clone, Copy, Debug, PartialEq, Eq, Structural)]
pub enum ValidationError {
    TooLong { actual_length: usize, max_length: usize },
}

} // verus!
