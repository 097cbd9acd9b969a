//! Party and entity identifiers.
//!
//! Every agent, invoice, batch, channel, request and dispute is named by a
//! 32-byte identifier. The host's key-custody layer is out of scope: an
//! identifier is an opaque value here, compared only for equality.

use vstd::prelude::*;

verus! {

/// A 32-byte identity or entity key.
pub type Pubkey = [u8; 32];

/// Byte-for-byte equality of two identifiers.
pub fn id_eq(a: &Pubkey, b: &Pubkey) -> (r: bool)
    ensures
        r <==> *a == *b,
{
    let mut i: usize = 0;
    while i < 32
        invariant
            0 <= i <= 32,
            forall|j: int| 0 <= j < i ==> a@[j] == b@[j],
        decreases 32 - i,
    {
        if a[i] != b[i] {
            assert(a@[i as int] != b@[i as int]);
            assert(a@ != b@);
            return false;
        }
        i = i + 1;
    }
    proof {
        assert(*a =~= *b);
    }
    true
}

} // verus!
