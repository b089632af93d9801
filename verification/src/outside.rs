//! What this library takes on trust from code that is not verified here.

use vstd::prelude::*;

verus! {

/// The upper-case form of a text as `str::to_uppercase` computes it: each
/// character replaced by its upper-case mapping in Unicode, which may be
/// more than one character.
pub uninterp spec fn uppercase_of(s: Seq<char>) -> Seq<char>;

/// `str::to_uppercase` returns the upper-case form of the text, a
/// function of the text alone. Nothing more is claimed of it here.
pub assume_specification[ str::to_uppercase ](s: &str) -> (r: String)
    ensures
        r@ == uppercase_of(s@),
;

/// `num_cpus::get` returns the number of logical cores available to this
/// process, which its documentation promises to be at least 1. The number
/// depends on the machine, so no more is known of it.
#[verifier::external_body]
pub(crate) fn available_cpus() -> (n: usize)
    ensures
        n >= 1,
{
    num_cpus::get()
}

} // verus!
