//! The block I/O protocol, which gives block-level access to mass storage.

use vstd::prelude::*;
use crate::guid::Guid;

verus! {

/// The block I/O protocol. Only its identifier is used so far.
#[derive(Clone, Copy, Debug, PartialEq, Eq, Structural)]
pub struct BlockIO {}

impl BlockIO {
    /// The identifier of the protocol, `964e5b21-6459-11d2-8e39-00a0c969723b`.
    pub fn guid() -> (r: Guid)
        ensures
            r == Guid::spec_from_values(
                0x964e5b21,
                0x6459,
                0x11d2,
                0x8e39,
                seq![0x00u8, 0xa0, 0xc9, 0x69, 0x72, 0x3b],
            ),
    {
        let r = Guid::from_values(0x964e5b21, 0x6459, 0x11d2, 0x8e39, [0x00, 0xa0, 0xc9, 0x69, 0x72, 0x3b]);
        assert([0x00u8, 0xa0, 0xc9, 0x69, 0x72, 0x3b]@ =~= seq![0x00u8, 0xa0, 0xc9, 0x69, 0x72, 0x3b]);
        r
    }
}

} // verus!
