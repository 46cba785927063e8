//! The header that starts every service table, and the tables' signatures.

use vstd::prelude::*;

verus! {

/// The signature of the runtime services table ("RUNTSERV").
pub const RUNTIME_SERVICES_SIGNATURE: u64 = 0x5652_4553_544e_5552;

/// The signature of the DXE services table ("DXE_SERV").
pub const DXE_SERVICES_SIGNATURE: u64 = 0x5652_4553_5f45_5844;

/// The header of a service table.
#[derive(Clone, Copy, Debug, PartialEq, Eq, Structural)]
pub struct Header {
    /// The signature that names the kind of table.
    pub signature: u64,
    /// The revision of the specification the table follows.
    pub revision: u32,
    /// The size of the table in bytes, header included.
    pub size: u32,
    /// The CRC-32 of the table.
    pub crc: u32,
    /// Reserved, zero.
    pub reserved: u32,
}

/// Why a table may not be used.
#[derive(Clone, Copy, Debug, PartialEq, Eq, Structural)]
pub enum TableError {
    /// The signature is not the one the caller expects.
    WrongSignature,
    /// The table is smaller than the layout the caller expects.
    TooSmall,
}

impl Header {
    /// Checks the header of a table before any other field is read: its
    /// signature must be `signature` and its size at least `min_size` bytes.
    pub fn validate(&self, signature: u64, min_size: u32) -> (r: Result<(), TableError>)
        ensures
            self.signature != signature ==> r == Err::<(), TableError>(TableError::WrongSignature),
            self.signature == signature && self.size < min_size ==> r == Err::<(), TableError>(
                TableError::TooSmall,
            ),
            self.signature == signature && self.size >= min_size ==> r is Ok,
    {
        if self.signature != signature {
            Err(TableError::WrongSignature)
        } else if self.size < min_size {
            Err(TableError::TooSmall)
        } else {
            Ok(())
        }
    }
}

} // verus!
