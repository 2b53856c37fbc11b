//! Types shared by the node side and the ledger side.

pub mod error;
pub mod os_value;
pub mod provider;

use vstd::prelude::*;
use crate::bag::InherentIdentifier;

verus! {

/// The identifier of this module's entry in the bag: the bytes of `osreader`.
pub const INHERENT_IDENTIFIER: InherentIdentifier = [111, 115, 114, 101, 97, 100, 101, 114];

/// Whether `identifier` is this module's own.
pub fn is_own_identifier(identifier: &InherentIdentifier) -> (own: bool)
    ensures
        own == (identifier@ == INHERENT_IDENTIFIER@),
{
    let mut i: usize = 0;
    while i < 8
        invariant
            i <= 8,
            forall|k: int| 0 <= k < i ==> identifier@[k] == INHERENT_IDENTIFIER@[k],
        decreases 8 - i,
    {
        if identifier[i] != INHERENT_IDENTIFIER[i] {
            return false;
        }
        i += 1;
    }
    assert(identifier@ =~= INHERENT_IDENTIFIER@);
    true
}

} // verus!
