//! Random GUIDs for the `comm` field of platform API requests.

use vstd::prelude::*;
use rand::Rng;
use vstd::string::StrSliceExecFns;
use crate::text::push_char;

verus! {

/// The characters a GUID is made of.
pub open spec fn guid_charset() -> Seq<char> {
    "ABCDEF1234567890"@
}

/// The length of a GUID.
pub const GUID_LEN: usize = 32;

/// A uniformly chosen index below `bound`, from the thread-local generator.
///
/// Calls `rand::Rng::random_range` on `rand::rng()` with the range `0..bound`, which
/// returns a value in that range (and panics on an empty range, which `requires` rules out).
#[verifier::external_body]
fn random_below(bound: usize) -> (r: usize)
    requires
        bound > 0,
    ensures
        r < bound,
{
    rand::rng().random_range(0..bound)
}

/// The GUID made of the characters at positions `idx` of the charset, in order.
pub open spec fn guid_of(idx: Seq<usize>) -> Seq<char> {
    Seq::new(idx.len(), |i: int| guid_charset()[idx[i] as int])
}

/// Builds the string whose characters are the charset's characters at positions `idx` (a
/// GUID when there are 32 of them).
pub fn guid_from_indices(idx: &Vec<usize>) -> (r: String)
    requires
        forall|i: int| 0 <= i < idx@.len() ==> idx@[i] < 16,
    ensures
        r@ == guid_of(idx@),
{
    let charset = "ABCDEF1234567890";
    proof {
        reveal_strlit("ABCDEF1234567890");
    }
    assert(charset@.len() == 16);
    let mut r = String::new();
    let mut i: usize = 0;
    while i < idx.len()
        invariant
            charset@ == guid_charset(),
            charset@.len() == 16,
            forall|j: int| 0 <= j < idx@.len() ==> idx@[j] < 16,
            i <= idx@.len(),
            r@ == guid_of(idx@.subrange(0, i as int)),
        decreases idx@.len() - i,
    {
        let c = charset.get_char(idx[i]);
        push_char(&mut r, c);
        i += 1;
        assert(r@ =~= guid_of(idx@.subrange(0, i as int)));
    }
    assert(idx@.subrange(0, idx@.len() as int) =~= idx@);
    r
}

/// A random GUID: 32 characters, each drawn uniformly from `ABCDEF1234567890`.
pub fn get_guid() -> (r: String)
    ensures
        r@.len() == GUID_LEN,
        forall|i: int| 0 <= i < r@.len() ==> guid_charset().contains(#[trigger] r@[i]),
        exists|idx: Seq<usize>| idx.len() == GUID_LEN && (forall|i: int| 0 <= i < idx.len() ==> idx[i] < 16)
            && r@ == guid_of(idx),
{
    let mut idx: Vec<usize> = Vec::new();
    while idx.len() < GUID_LEN
        invariant
            idx@.len() <= GUID_LEN,
            forall|j: int| 0 <= j < idx@.len() ==> idx@[j] < 16,
        decreases GUID_LEN - idx@.len(),
    {
        idx.push(random_below(16));
    }
    let r = guid_from_indices(&idx);
    proof {
        reveal_strlit("ABCDEF1234567890");
        assert forall|i: int| 0 <= i < r@.len() implies guid_charset().contains(#[trigger] r@[i]) by {
            assert(guid_charset()[idx@[i] as int] == r@[i]);
        }
    }
    r
}

} // verus!
