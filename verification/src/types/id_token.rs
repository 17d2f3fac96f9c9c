//! The identity token: the 20-character bounded identifier that stands for a
//! physical charge tag. Tokens diverge from the generic bounded identifiers
//! in one way only: equality folds case, because tag readers may report the
//! same tag with inconsistent casing. The stored value itself is never
//! folded, so a token read back for serialization keeps its original casing.

use vstd::prelude::*;
use vstd::std_specs::cmp::PartialEqSpec;
use vstd::string::StrSliceExecFns;

use crate::types::validation::ValidationError;

verus! {

/// The maximum number of characters in an identity token.
pub const ID_TOKEN_MAX_LENGTH: usize = 20;

/// Case folding for token equality: the ASCII letters `A` through `Z`
/// (values 65 through 90) map to their lower-case counterparts (32 higher);
/// every other character stands for itself.
pub open spec fn fold_char(c: char) -> char {
    if 65 <= c as u32 && c as u32 <= 90 {
        ((c as u32 + 32) as u32) as char
    } else {
        c
    }
}

/// A character sequence folded to a single case, character by character.
pub open spec fn fold_case(s: Seq<char>) -> Seq<char> {
    s.map_values(|c: char| fold_char(c))
}

/// The token equality rule: two raw values stand for the same token exactly
/// when their case-folded forms are equal.
pub open spec fn token_eq(a: Seq<char>, b: Seq<char>) -> bool {
    fold_case(a) == fold_case(b)
}

/// An identifier of a charge tag: at most 20 characters, compared
/// case-insensitively, stored exactly as constructed.
#[derive(Debug)]
pub struct IdToken {
    value: String,
}

impl View for IdToken {
    type V = Seq<char>;

    closed spec fn view(&self) -> Seq<char> {
        self.value@
    }
}

impl IdToken {
    /// The invariant every constructed token satisfies.
    pub open spec fn wf(&self) -> bool {
        self@.len() <= ID_TOKEN_MAX_LENGTH
    }

    /// Validating constructor: succeeds exactly when `id_token` has at most
    /// 20 characters, and then holds it unchanged (original casing kept);
    /// otherwise reports the offending length and the bound.
    pub fn new(id_token: String) -> (result: Result<IdToken, ValidationError>)
        ensures
            match result {
                Ok(t) => t@ == id_token@ && t.wf(),
                Err(e) => id_token@.len() > ID_TOKEN_MAX_LENGTH && e == (ValidationError::TooLong {
                    actual_length: id_token@.len() as usize,
                    max_length: ID_TOKEN_MAX_LENGTH,
                }),
            },
    {
        let n = id_token.as_str().unicode_len();
        if n <= ID_TOKEN_MAX_LENGTH {
            Ok(IdToken { value: id_token })
        } else {
            Err(ValidationError::TooLong { actual_length: n, max_length: ID_TOKEN_MAX_LENGTH })
        }
    }

    /// Read interface: the raw character sequence, in its original casing.
    pub fn raw(&self) -> (r: &str)
        ensures
            r@ == self@,
    {
        self.value.as_str()
    }
}

/// Folds one character for comparison, at the level of its scalar value.
fn fold_char_value(c: char) -> (r: u32)
    ensures
        r == fold_char(c) as u32,
{
    let u = c as u32;
    if 65 <= u && u <= 90 {
        u + 32
    } else {
        u
    }
}

/// Decides `token_eq` on two raw values by comparing them character by
/// character under the case fold.
fn fold_case_eq(a: &str, b: &str) -> (r: bool)
    ensures
        r == token_eq(a@, b@),
{
    broadcast use vstd::utf8::char_u32_cast;

    let a_len = a.unicode_len();
    let b_len = b.unicode_len();
    if a_len != b_len {
        assert(fold_case(a@).len() != fold_case(b@).len());
        return false;
    }
    let mut i: usize = 0;
    while i < a_len
        invariant
            a_len == a@.len(),
            a_len == b@.len(),
            i <= a_len,
            forall|j: int| 0 <= j < i ==> fold_char(a@[j]) == fold_char(b@[j]),
        decreases a_len - i,
    {
        let ca = a.get_char(i);
        let cb = b.get_char(i);
        if fold_char_value(ca) != fold_char_value(cb) {
            assert(fold_case(a@)[i as int] != fold_case(b@)[i as int]);
            return false;
        }
        assert(fold_char(a@[i as int]) == fold_char(b@[i as int]));
        i += 1;
    }
    assert(fold_case(a@) =~= fold_case(b@));
    true
}

impl PartialEq for IdToken {
    /// Case-insensitive equality: the raw values are compared under the
    /// case fold; neither stored value is changed.
    fn eq(&self, other: &Self) -> bool {
        fold_case_eq(self.value.as_str(), other.value.as_str())
    }
}

impl vstd::std_specs::cmp::PartialEqSpecImpl for IdToken {
    open spec fn obeys_eq_spec() -> bool {
        true
    }

    open spec fn eq_spec(&self, other: &Self) -> bool {
        token_eq(self@, other@)
    }
}

/// Token equality is reflexive.
pub proof fn lemma_token_eq_reflexive(a: Seq<char>)
    ensures
        token_eq(a, a),
{
}

/// Token equality is symmetric.
pub proof fn lemma_token_eq_symmetric(a: Seq<char>, b: Seq<char>)
    ensures
        token_eq(a, b) == token_eq(b, a),
{
}

/// Token equality is transitive.
pub proof fn lemma_token_eq_transitive(a: Seq<char>, b: Seq<char>, c: Seq<char>)
    requires
        token_eq(a, b),
        token_eq(b, c),
    ensures
        token_eq(a, c),
{
}

/// Token equality is invariant under case permutation: raw values whose
/// characters agree up to the case fold stand for the same token.
pub proof fn lemma_token_eq_case_invariant(a: Seq<char>, b: Seq<char>)
    requires
        a.len() == b.len(),
        forall|i: int| 0 <= i < a.len() ==> fold_char(a[i]) == fold_char(b[i]),
    ensures
        token_eq(a, b),
{
    assert(fold_case(a) =~= fold_case(b));
}

/// Round trip: a token that carries the same raw character sequence as
/// another (as one re-constructed from the other's raw form does) compares
/// equal to it.
pub proof fn lemma_token_round_trip(a: IdToken, b: IdToken)
    requires
        a@ == b@,
    ensures
        a.eq_spec(&b),
{
}

} // verus!
