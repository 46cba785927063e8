//! The DXE services table.

use vstd::prelude::*;
use crate::guid::Guid;
use crate::status::{status_result, Completion, Error, Status};
use crate::table::Header;

verus! {

/// The DXE services table, seen through its header; its one slot in use loads
/// and runs drivers from firmware volumes.
#[derive(Clone, Copy, Debug, PartialEq, Eq, Structural)]
pub struct DXEServices {
    header: Header,
}

impl DXEServices {
    /// The identifier under which the system table's configuration table lists
    /// this table, `05ad34ba-6f02-4214-952e-4da0398e2bb9`.
    pub fn guid() -> (r: Guid)
        ensures
            r == Guid::spec_from_values(
                0x05ad34ba,
                0x6f02,
                0x4214,
                0x952e,
                seq![0x4du8, 0xa0, 0x39, 0x8e, 0x2b, 0xb9],
            ),
    {
        let r = Guid::from_values(0x05ad34ba, 0x6f02, 0x4214, 0x952e, [0x4d, 0xa0, 0x39, 0x8e, 0x2b, 0xb9]);
        assert([0x4du8, 0xa0, 0x39, 0x8e, 0x2b, 0xb9]@ =~= seq![0x4du8, 0xa0, 0x39, 0x8e, 0x2b, 0xb9]);
        r
    }

    /// A view of a table with this header.
    pub fn new(header: Header) -> (r: DXEServices)
        ensures
            r.spec_header() == header,
    {
        DXEServices { header }
    }

    pub closed spec fn spec_header(&self) -> Header {
        self.header
    }

    /// The table's header.
    pub fn header(&self) -> (r: Header)
        ensures
            r == self.spec_header(),
    {
        self.header
    }

    /// Loads and runs drivers from firmware volumes. `call` invokes the
    /// dispatch slot.
    pub fn dispatch<F: FnOnce() -> Status>(&self, call: F) -> (r: Result<Completion<()>, Error>)
        requires
            call.requires(()),
        ensures
            exists|s: Status| call.ensures((), s) && r == status_result(s, ()),
    {
        let s = call();
        s.into_result()
    }
}

} // verus!
