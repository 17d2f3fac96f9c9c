//! The bounded-length identifier family: string wrappers whose invariant is
//! a maximum character count fixed per variant, with exact (case-sensitive)
//! equality. Construction validates the length and returns a recoverable
//! error instead of aborting.

use vstd::prelude::*;
use vstd::std_specs::cmp::PartialEqSpec;
use vstd::string::StrSliceExecFns;

use crate::types::validation::ValidationError;

verus! {

/// A character sequence of at most `MAX` characters, held unchanged (no
/// trimming, no case folding). Values are immutable once constructed, and
/// values of different bounds are distinct, incomparable types.
#[derive(Debug)]
pub struct BoundedString<const MAX: usize> {
    value: String,
}

/// Bounded identifier of at most 20 characters.
pub type CiString20Type = BoundedString<20>;

/// Bounded identifier of at most 25 characters.
pub type CiString25Type = BoundedString<25>;

/// Bounded identifier of at most 50 characters.
pub type CiString50Type = BoundedString<50>;

/// Bounded identifier of at most 255 characters.
pub type CiString255Type = BoundedString<255>;

/// Bounded identifier of at most 500 characters.
pub type CiString500Type = BoundedString<500>;

impl<const MAX: usize> View for BoundedString<MAX> {
    type V = Seq<char>;

    closed spec fn view(&self) -> Seq<char> {
        self.value@
    }
}

impl<const MAX: usize> BoundedString<MAX> {
    /// The invariant every constructed value satisfies.
    pub open spec fn wf(&self) -> bool {
        self@.len() <= MAX
    }

    /// Validating constructor: succeeds exactly when `value` has at most
    /// `MAX` characters, and then holds `value` unchanged; otherwise reports
    /// the offending length and the bound.
    pub fn new(value: String) -> (result: Result<Self, ValidationError>)
        ensures
            match result {
                Ok(v) => v@ == value@ && v.wf(),
                Err(e) => value@.len() > MAX && e == (ValidationError::TooLong {
                    actual_length: value@.len() as usize,
                    max_length: MAX,
                }),
            },
    {
        let n = value.as_str().unicode_len();
        if n <= MAX {
            Ok(BoundedString { value })
        } else {
            Err(ValidationError::TooLong { actual_length: n, max_length: MAX })
        }
    }

    /// Read interface: the raw character sequence, exactly as constructed.
    pub fn raw(&self) -> (r: &str)
        ensures
            r@ == self@,
    {
        self.value.as_str()
    }
}

impl<const MAX: usize> PartialEq for BoundedString<MAX> {
    /// Exact, case-sensitive equality of the raw character sequences.
    fn eq(&self, other: &Self) -> bool {
        self.value == other.value
    }
}

impl<const MAX: usize> vstd::std_specs::cmp::PartialEqSpecImpl for BoundedString<MAX> {
    open spec fn obeys_eq_spec() -> bool {
        true
    }

    open spec fn eq_spec(&self, other: &Self) -> bool {
        self@ == other@
    }
}

/// Equality of bounded identifiers is exact: two values are equal precisely
/// when their raw character sequences are equal, with no case folding or
/// other normalization. In particular a value re-constructed from another's
/// raw form (and so carrying the same sequence) compares equal to it, and
/// two values differing only by case do not.
pub proof fn lemma_bounded_eq_exact<const MAX: usize>(
    a: BoundedString<MAX>,
    b: BoundedString<MAX>,
)
    ensures
        a.eq_spec(&b) <==> a@ == b@,
{
}

} // verus!
