//! The boot manager policy protocol.

use vstd::prelude::*;
use crate::device_path::DevicePath;
use crate::guid::Guid;
use crate::status::{status_result, Completion, Error, Status};

verus! {

/// The boot manager policy protocol: its revision, and two firmware slots that
/// connect devices following the platform's boot manager policy.
#[derive(Clone, Copy, Debug, PartialEq, Eq, Structural)]
pub struct BootManagerPolicy {
    revision: u64,
}

/// The arguments that the connect-device-path slot takes besides the table:
/// the path to connect (none: every controller) and whether to connect
/// recursively.
#[derive(Clone, Copy, Debug, PartialEq, Eq, Structural)]
pub struct ConnectArgs {
    pub device_path: Option<DevicePath>,
    pub recursive: bool,
}

impl BootManagerPolicy {
    /// The identifier of the protocol, `fedf8e0c-e147-11e3-9903-b8e8562cbafa`.
    pub fn guid() -> (r: Guid)
        ensures
            r == Guid::spec_from_values(
                0xfedf8e0c,
                0xe147,
                0x11e3,
                0x9903,
                seq![0xb8u8, 0xe8, 0x56, 0x2c, 0xba, 0xfa],
            ),
    {
        let r = Guid::from_values(0xfedf8e0c, 0xe147, 0x11e3, 0x9903, [0xb8, 0xe8, 0x56, 0x2c, 0xba, 0xfa]);
        assert([0xb8u8, 0xe8, 0x56, 0x2c, 0xba, 0xfa]@ =~= seq![0xb8u8, 0xe8, 0x56, 0x2c, 0xba, 0xfa]);
        r
    }

    /// A view of a table whose revision field holds `revision`.
    pub fn new(revision: u64) -> (r: BootManagerPolicy)
        ensures
            r.spec_revision() == revision,
    {
        BootManagerPolicy { revision }
    }

    pub closed spec fn spec_revision(&self) -> u64 {
        self.revision
    }

    /// The revision of the table.
    pub fn revision(&self) -> (r: u64)
        ensures
            r == self.spec_revision(),
    {
        self.revision
    }

    /// Connects a device path following the platform's policy. `call` invokes
    /// the connect-device-path slot with the table and the given arguments.
    pub fn connect_device_path<F: FnOnce(ConnectArgs) -> Status>(
        &self,
        device_path: &DevicePath,
        recursive: bool,
        call: F,
    ) -> (r: Result<Completion<()>, Error>)
        requires
            call.requires((ConnectArgs { device_path: Some(*device_path), recursive },)),
        ensures
            exists|s: Status|
                call.ensures((ConnectArgs { device_path: Some(*device_path), recursive },), s)
                    && r == status_result(s, ()),
    {
        let s = call(ConnectArgs { device_path: Some(*device_path), recursive });
        s.into_result()
    }

    /// Connects every controller following the platform's policy: the
    /// connect-device-path slot with no path, not recursive.
    pub fn connect_all_controllers<F: FnOnce(ConnectArgs) -> Status>(&self, call: F) -> (r: Result<
        Completion<()>,
        Error,
    >)
        requires
            call.requires((ConnectArgs { device_path: None, recursive: false },)),
        ensures
            exists|s: Status|
                call.ensures((ConnectArgs { device_path: None, recursive: false },), s) && r
                    == status_result(s, ()),
    {
        let s = call(ConnectArgs { device_path: None, recursive: false });
        s.into_result()
    }

    /// Connects a class of devices following the platform's policy. `call`
    /// invokes the connect-device-class slot with the table and the class.
    pub fn connect_device_class<F: FnOnce(Guid) -> Status>(&self, class: &Guid, call: F) -> (r:
        Result<Completion<()>, Error>)
        requires
            call.requires((*class,)),
        ensures
            exists|s: Status| call.ensures((*class,), s) && r == status_result(s, ()),
    {
        let s = call(*class);
        s.into_result()
    }
}

} // verus!
