//! Device paths: chains of variable-length nodes, each starting with a
//! four-byte header (type, sub-type, length in bytes, little-endian), the chain
//! ending with an "end of entire path" node.

use vstd::prelude::*;
use crate::guid::Guid;

verus! {

/// Node type: hardware device.
pub const TYPE_HARDWARE: u8 = 0x01;
/// Node type: ACPI device.
pub const TYPE_ACPI: u8 = 0x02;
/// Node type: messaging device.
pub const TYPE_MESSAGING: u8 = 0x03;
/// Node type: media device.
pub const TYPE_MEDIA: u8 = 0x04;
/// Node type: BIOS boot specification device.
pub const TYPE_BIOS: u8 = 0x05;
/// Node type: end of a path or of an instance.
pub const TYPE_END_OF_HARDWARE: u8 = 0x7f;

/// Media sub-type: hard drive partition.
pub const MEDIA_HARD_DRIVE: u8 = 0x01;
/// Media sub-type: CD-ROM.
pub const MEDIA_CD_ROM: u8 = 0x02;
/// Media sub-type: vendor-defined.
pub const MEDIA_VENDOR: u8 = 0x03;
/// Media sub-type: file path.
pub const MEDIA_FILE_PATH: u8 = 0x04;
/// Media sub-type: media protocol.
pub const MEDIA_PROTOCOL: u8 = 0x05;
/// Media sub-type: firmware file.
pub const MEDIA_PIWG_FIRMWARE_FILE: u8 = 0x06;
/// Media sub-type: firmware volume.
pub const MEDIA_PIWG_FIRMWARE_VOLUME: u8 = 0x07;
/// Media sub-type: relative offset range.
pub const MEDIA_RELATIVE_OFFSET_RANGE: u8 = 0x08;
/// Media sub-type: RAM disk.
pub const MEDIA_RAM_DISK: u8 = 0x09;

/// End sub-type: end of one instance of a multi-instance path.
pub const END_INSTANCE: u8 = 0x01;
/// End sub-type: end of the entire path.
pub const END_ENTIRE: u8 = 0xff;

/// Partition signature type: none.
pub const SIGNATURE_NONE: u8 = 0x00;
/// Partition signature type: the 32-bit MBR signature.
pub const SIGNATURE_MBR: u8 = 0x01;
/// Partition signature type: a 128-bit identifier.
pub const SIGNATURE_GUID: u8 = 0x02;

/// The size of a node header in bytes.
pub const HEADER_SIZE: usize = 4;

/// The header of a device-path node.
#[derive(Clone, Copy, Debug, PartialEq, Eq, Structural)]
pub struct DevicePath {
    /// The type of the node.
    pub path_type: u8,
    /// The sub-type, whose meaning depends on the type.
    pub sub_type: u8,
    /// The length of the node in bytes, header included.
    pub length: u16,
}

impl DevicePath {
    /// Whether the node marks the end of the entire path.
    pub open spec fn spec_is_end(&self) -> bool {
        self.path_type == TYPE_END_OF_HARDWARE && self.sub_type == END_ENTIRE
    }

    /// Whether this node marks the end of the entire path.
    pub fn is_end(&self) -> (r: bool)
        ensures
            r == self.spec_is_end(),
    {
        self.path_type == TYPE_END_OF_HARDWARE && self.sub_type == END_ENTIRE
    }

    /// The header at byte `offset` of `bytes`, if four bytes remain there.
    pub fn read(bytes: &[u8], offset: usize) -> (r: Option<DevicePath>)
        ensures
            r == header_at(bytes@, offset as int),
    {
        let len = bytes.len();
        if offset > len || len - offset < HEADER_SIZE {
            return None;
        }
        Some(
            DevicePath {
                path_type: bytes[offset],
                sub_type: bytes[offset + 1],
                length: bytes[offset + 2] as u16 + bytes[offset + 3] as u16 * 256,
            },
        )
    }

    /// The offset of the node that follows this one, which starts at `offset`:
    /// `offset` plus this node's length, if that stays within `size` bytes.
    /// `None` also when the length is shorter than a header, which would not
    /// move forward.
    pub fn next_node(&self, offset: usize, size: usize) -> (r: Option<usize>)
        ensures
            r is Some <==> (self.length >= HEADER_SIZE && offset + self.length <= size),
            r is Some ==> r->Some_0 == offset + self.length,
    {
        if (self.length as usize) < HEADER_SIZE || offset > size || size - offset < self.length
            as usize {
            None
        } else {
            Some(offset + self.length as usize)
        }
    }
}

/// The header that four bytes at `off` hold, if they are there.
pub open spec fn header_at(bytes: Seq<u8>, off: int) -> Option<DevicePath> {
    if 0 <= off && off + 4 <= bytes.len() {
        Some(
            DevicePath {
                path_type: bytes[off],
                sub_type: bytes[off + 1],
                length: (bytes[off + 2] + bytes[off + 3] * 256) as u16,
            },
        )
    } else {
        None
    }
}

/// Walks the chain that starts at `off`: the number of steps from that node to
/// the end node, and the offset just past the end node. `None` when a node
/// does not fit in `bytes`, or is shorter than its header, before an end node.
pub open spec fn traverse(bytes: Seq<u8>, off: int) -> Option<(nat, nat)>
    decreases bytes.len() - off,
{
    match header_at(bytes, off) {
        None => None,
        Some(h) => {
            if h.length < 4 || off + h.length > bytes.len() {
                None
            } else if h.spec_is_end() {
                Some((0, (off + h.length) as nat))
            } else {
                match traverse(bytes, off + h.length) {
                    None => None,
                    Some(r) => Some((r.0 + 1, r.1)),
                }
            }
        },
    }
}

/// A walk's result with `k` more steps.
pub open spec fn add_steps(r: Option<(nat, nat)>, k: nat) -> Option<(nat, nat)> {
    match r {
        None => None,
        Some(r) => Some(((r.0 + k) as nat, r.1)),
    }
}

/// Walks the device path at the start of `bytes`: the number of steps from the
/// first node to the end node, and the size of the path in bytes, end node
/// included. `None` when the path is cut short or holds a node shorter than a
/// header.
pub fn scan_path(bytes: &[u8]) -> (r: Option<(usize, usize)>)
    ensures
        r is Some <==> traverse(bytes@, 0) is Some,
        r is Some ==> r->Some_0.0 == traverse(bytes@, 0)->Some_0.0 && r->Some_0.1 == traverse(
            bytes@,
            0,
        )->Some_0.1,
{
    let len = bytes.len();
    let mut off: usize = 0;
    let mut steps: usize = 0;
    loop
        invariant
            off <= len,
            len == bytes@.len(),
            steps <= off,
            traverse(bytes@, 0) == add_steps(traverse(bytes@, off as int), steps as nat),
        decreases len - off,
    {
        let node = match DevicePath::read(bytes, off) {
            None => return None,
            Some(n) => n,
        };
        let next = match node.next_node(off, len) {
            None => return None,
            Some(n) => n,
        };
        if node.is_end() {
            return Some((steps, next));
        }
        steps = steps + 1;
        off = next;
    }
}

impl DevicePath {
    /// Whether the node ends one instance of a multi-instance path.
    pub open spec fn spec_is_instance_end(&self) -> bool {
        self.path_type == TYPE_END_OF_HARDWARE && self.sub_type == END_INSTANCE
    }

    /// Whether this node ends one instance of a multi-instance path.
    pub fn is_instance_end(&self) -> (r: bool)
        ensures
            r == self.spec_is_instance_end(),
    {
        self.path_type == TYPE_END_OF_HARDWARE && self.sub_type == END_INSTANCE
    }
}

/// Walks the chain that starts at `off` as `traverse` does, and counts the
/// nodes that end an instance before the end of the entire path.
pub open spec fn instance_ends(bytes: Seq<u8>, off: int) -> Option<nat>
    decreases bytes.len() - off,
{
    match header_at(bytes, off) {
        None => None,
        Some(h) => {
            if h.length < 4 || off + h.length > bytes.len() {
                None
            } else if h.spec_is_end() {
                Some(0)
            } else {
                match instance_ends(bytes, off + h.length) {
                    None => None,
                    Some(k) => Some(if h.spec_is_instance_end() {
                        k + 1
                    } else {
                        k
                    }),
                }
            }
        },
    }
}

/// The number of instances of the device path at the start of `bytes`: one
/// more than the nodes that end an instance before the end of the entire
/// path. `None` when the path is cut short or holds a node shorter than a
/// header.
pub fn count_instances(bytes: &[u8]) -> (r: Option<usize>)
    ensures
        r is Some <==> instance_ends(bytes@, 0) is Some,
        r is Some ==> r->Some_0 == instance_ends(bytes@, 0)->Some_0 + 1,
{
    let len = bytes.len();
    let mut off: usize = 0;
    let mut ends: usize = 0;
    loop
        invariant
            off <= len,
            len == bytes@.len(),
            ends <= off / 4,
            instance_ends(bytes@, 0) == add_ends(instance_ends(bytes@, off as int), ends as nat),
        decreases len - off,
    {
        let node = match DevicePath::read(bytes, off) {
            None => return None,
            Some(n) => n,
        };
        let next = match node.next_node(off, len) {
            None => return None,
            Some(n) => n,
        };
        if node.is_end() {
            return Some(ends + 1);
        }
        if node.is_instance_end() {
            ends = ends + 1;
        }
        off = next;
    }
}

/// A count of instance ends with `k` more.
pub open spec fn add_ends(r: Option<nat>, k: nat) -> Option<nat> {
    match r {
        None => None,
        Some(r) => Some(r + k),
    }
}

/// A node as it stands in a chain: its header and the bytes that follow it.
pub open spec fn node_bytes(h: DevicePath, payload: Seq<u8>) -> Seq<u8> {
    seq![h.path_type, h.sub_type, (h.length % 256) as u8, (h.length / 256) as u8] + payload
}

/// A chain of nodes, laid out one after the other.
pub open spec fn chain_bytes(nodes: Seq<(DevicePath, Seq<u8>)>) -> Seq<u8>
    decreases nodes.len(),
{
    if nodes.len() == 0 {
        Seq::empty()
    } else {
        node_bytes(nodes[0].0, nodes[0].1) + chain_bytes(nodes.drop_first())
    }
}

/// A well-formed chain: each node's length is its header plus its payload, and
/// only the last node marks the end of the entire path.
pub open spec fn is_chain(nodes: Seq<(DevicePath, Seq<u8>)>) -> bool {
    &&& nodes.len() > 0
    &&& forall|k: int|
        0 <= k < nodes.len() ==> (#[trigger] nodes[k]).0.length == nodes[k].1.len() + 4
    &&& forall|k: int| 0 <= k < nodes.len() ==> ((#[trigger] nodes[k]).0.spec_is_end() <==> k
        == nodes.len() - 1)
}

proof fn lemma_chain_from(prefix: Seq<u8>, nodes: Seq<(DevicePath, Seq<u8>)>)
    requires
        is_chain(nodes),
    ensures
        traverse(prefix + chain_bytes(nodes), prefix.len() as int) == Some(
            ((nodes.len() - 1) as nat, (prefix.len() + chain_bytes(nodes).len()) as nat),
        ),
    decreases nodes.len(),
{
    let bytes = prefix + chain_bytes(nodes);
    let off = prefix.len() as int;
    let h = nodes[0].0;
    let first = node_bytes(h, nodes[0].1);
    let rest = nodes.drop_first();
    assert(chain_bytes(nodes) == first + chain_bytes(rest));
    assert(bytes =~= (prefix + first) + chain_bytes(rest));
    assert(bytes[off] == h.path_type);
    assert(bytes[off + 1] == h.sub_type);
    assert(bytes[off + 2] == (h.length % 256) as u8);
    assert(bytes[off + 3] == (h.length / 256) as u8);
    assert(header_at(bytes, off) == Some(h));
    if nodes.len() > 1 {
        assert(is_chain(rest)) by {
            assert forall|k: int| 0 <= k < rest.len() implies (#[trigger] rest[k]).0.length
                == rest[k].1.len() + 4 by {
                assert(rest[k] == nodes[k + 1]);
            }
            assert forall|k: int| 0 <= k < rest.len() implies ((#[trigger] rest[k]).0.spec_is_end()
                <==> k == rest.len() - 1) by {
                assert(rest[k] == nodes[k + 1]);
            }
        }
        lemma_chain_from(prefix + first, rest);
        assert(!h.spec_is_end());
    } else {
        assert(rest.len() == 0);
        assert(chain_bytes(rest) =~= Seq::<u8>::empty());
    }
}

/// Walking a well-formed chain of `n` nodes from its first node reads each
/// node's header back, passes `n - 1` nodes that are not the end, stops at the
/// last one, and measures the whole chain.
pub proof fn lemma_chain_traversal(nodes: Seq<(DevicePath, Seq<u8>)>)
    requires
        is_chain(nodes),
    ensures
        traverse(chain_bytes(nodes), 0) == Some(
            ((nodes.len() - 1) as nat, chain_bytes(nodes).len()),
        ),
{
    lemma_chain_from(Seq::empty(), nodes);
    assert(Seq::<u8>::empty() + chain_bytes(nodes) =~= chain_bytes(nodes));
}

/// A hard drive partition node.
#[derive(Clone, Copy, Debug, PartialEq, Eq, Structural)]
pub struct HardDriveMediaDevicePath {
    /// The node header.
    pub header: DevicePath,
    /// The entry in the partition table, from 1.
    pub partition_number: u32,
    /// The first logical block of the partition.
    pub partition_start: u64,
    /// The size of the partition in logical blocks.
    pub partition_size: u64,
    /// The signature unique to this partition.
    pub signature: u128,
    /// The partition format (MBR, GPT, ...).
    pub partition_format: u8,
    /// The type of the signature.
    pub signature_type: u8,
}


/// The protocol that turns device paths and nodes into text.
#[derive(Clone, Copy, Debug, PartialEq, Eq, Structural)]
pub struct DevicePathToText {}

impl DevicePathToText {
    /// The identifier of the protocol, `8b843e20-8132-4852-90cc-551a4e4a7f1c`.
    pub fn guid() -> (r: Guid)
        ensures
            r == Guid::spec_from_values(
                0x8b843e20,
                0x8132,
                0x4852,
                0x90cc,
                seq![0x55u8, 0x1a, 0x4e, 0x4a, 0x7f, 0x1c],
            ),
    {
        let r = Guid::from_values(0x8b843e20, 0x8132, 0x4852, 0x90cc, [0x55, 0x1a, 0x4e, 0x4a, 0x7f, 0x1c]);
        assert([0x55u8, 0x1a, 0x4e, 0x4a, 0x7f, 0x1c]@ =~= seq![0x55u8, 0x1a, 0x4e, 0x4a, 0x7f, 0x1c]);
        r
    }
}

/// The protocol that turns text into device paths and nodes.
#[derive(Clone, Copy, Debug, PartialEq, Eq, Structural)]
pub struct DevicePathFromText {}

impl DevicePathFromText {
    /// The identifier of the protocol, `05c99a21-c70f-4ad2-8a5f-35df3343f51e`.
    pub fn guid() -> (r: Guid)
        ensures
            r == Guid::spec_from_values(
                0x05c99a21,
                0xc70f,
                0x4ad2,
                0x8a5f,
                seq![0x35u8, 0xdf, 0x33, 0x43, 0xf5, 0x1e],
            ),
    {
        let r = Guid::from_values(0x05c99a21, 0xc70f, 0x4ad2, 0x8a5f, [0x35, 0xdf, 0x33, 0x43, 0xf5, 0x1e]);
        assert([0x35u8, 0xdf, 0x33, 0x43, 0xf5, 0x1e]@ =~= seq![0x35u8, 0xdf, 0x33, 0x43, 0xf5, 0x1e]);
        r
    }
}

/// The device path utilities protocol.
#[derive(Clone, Copy, Debug, PartialEq, Eq, Structural)]
pub struct DevicePathUtilities {}

impl DevicePathUtilities {
    /// The identifier of the protocol, `0379be4e-d706-437d-b037-edb82fb772a4`.
    pub fn guid() -> (r: Guid)
        ensures
            r == Guid::spec_from_values(
                0x0379be4e,
                0xd706,
                0x437d,
                0xb037,
                seq![0xedu8, 0xb8, 0x2f, 0xb7, 0x72, 0xa4],
            ),
    {
        let r = Guid::from_values(0x0379be4e, 0xd706, 0x437d, 0xb037, [0xed, 0xb8, 0x2f, 0xb7, 0x72, 0xa4]);
        assert([0xedu8, 0xb8, 0x2f, 0xb7, 0x72, 0xa4]@ =~= seq![0xedu8, 0xb8, 0x2f, 0xb7, 0x72, 0xa4]);
        r
    }

    /// The size of a device path in bytes, end node included, as the
    /// firmware's slot reports it; `call` invokes that slot on the path.
    pub fn get_device_path_size<F: FnOnce(DevicePath) -> usize>(
        &self,
        device_path: &DevicePath,
        call: F,
    ) -> (r: usize)
        requires
            call.requires((*device_path,)),
        ensures
            call.ensures((*device_path,), r),
    {
        call(*device_path)
    }

    /// Whether a device path holds more than one instance, as the firmware's
    /// slot reports it; `call` invokes that slot on the path.
    pub fn is_device_path_multi_instance<F: FnOnce(DevicePath) -> bool>(
        &self,
        device_path: &DevicePath,
        call: F,
    ) -> (r: bool)
        requires
            call.requires((*device_path,)),
        ensures
            call.ensures((*device_path,), r),
    {
        call(*device_path)
    }
}

/// The identifier of the device path protocol, `09576e91-6d3f-11d2-8e39-00a0c969723b`.
pub fn device_path_guid() -> (r: Guid)
    ensures
        r == Guid::spec_from_values(
            0x09576e91,
            0x6d3f,
            0x11d2,
            0x8e39,
            seq![0x00u8, 0xa0, 0xc9, 0x69, 0x72, 0x3b],
        ),
{
    let r = Guid::from_values(0x09576e91, 0x6d3f, 0x11d2, 0x8e39, [0x00, 0xa0, 0xc9, 0x69, 0x72, 0x3b]);
    assert([0x00u8, 0xa0, 0xc9, 0x69, 0x72, 0x3b]@ =~= seq![0x00u8, 0xa0, 0xc9, 0x69, 0x72, 0x3b]);
    r
}

} // verus!
