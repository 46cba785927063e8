//! Firmware variables: names, and the size-discovery steps behind reading a
//! variable and enumerating variable names.
//!
//! The firmware reports `BUFFER_TOO_SMALL` with the size it needs when a
//! caller's buffer cannot hold the answer. The functions here decide, from each
//! reply, whether to resize and call again, to finish, or to fail; the caller
//! makes the calls, which keeps every decision checkable against a simulated
//! firmware.

use vstd::prelude::*;
use vstd::utf8::{decode_utf8, valid_utf8};
use crate::guid::Guid;
use crate::status::{
    class_of, BUFFER_TOO_SMALL, INVALID_PARAMETER, NOT_FOUND, Error, Status, StatusClass,
};
use crate::text::{first_non_bmp, string_from_utf8, ucs2_decode, ucs2_encode, ucs2_utf8, unit_utf8};

verus! {

/// A firmware variable: its name and the identifier of its vendor.
#[derive(Clone, Debug)]
pub struct Variable {
    /// The name of the variable.
    pub name: String,
    /// The identifier of the vendor.
    pub vendor: Guid,
}

impl Variable {
    /// A variable from its name and vendor.
    pub fn new(name: String, vendor: Guid) -> (r: Variable)
        ensures
            r.name == name,
            r.vendor == vendor,
    {
        Variable { name, vendor }
    }

    /// The name as the firmware takes it: UCS-2 units followed by a NUL unit.
    /// A name with a character outside the Basic Multilingual Plane cannot be
    /// written so, and gives `INVALID_PARAMETER`.
    pub fn encoded_name(&self) -> (r: Result<Vec<u16>, Error>)
        requires
            self.name@.len() < usize::MAX,
        ensures
            r is Err <==> first_non_bmp(self.name@) is Some,
            r is Err ==> r->Err_0 == Error::Failed(Status(INVALID_PARAMETER)),
            r is Ok ==> r->Ok_0@ == Seq::new(
                self.name@.len(),
                |i: int| self.name@[i] as u16,
            ).push(0u16),
    {
        let s = self.name.as_str();
        let n = s.unicode_len();
        let mut units: Vec<u16> = vec![0u16; n];
        match ucs2_encode(s, &mut units) {
            Ok(_) => {
                units.push(0u16);
                assert(units@ =~= Seq::new(self.name@.len(), |i: int| self.name@[i] as u16).push(
                    0u16,
                ));
                Ok(units)
            },
            Err(_) => Err(Error::Failed(Status(INVALID_PARAMETER))),
        }
    }
}

/// `old` resized to `len` elements: cut, or padded with zeros.
pub open spec fn resized<T>(old: Seq<T>, len: nat, zero: T) -> Seq<T> {
    if len <= old.len() {
        old.subrange(0, len as int)
    } else {
        old + Seq::new((len - old.len()) as nat, |i: int| zero)
    }
}

/// `old` cut to at most `len` elements.
pub open spec fn truncated<T>(old: Seq<T>, len: nat) -> Seq<T> {
    if len <= old.len() {
        old.subrange(0, len as int)
    } else {
        old
    }
}

/// What to do after one attempt to read a variable's data.
#[derive(Clone, Copy, Debug, PartialEq, Eq, Structural)]
pub enum ReadStep {
    /// The buffer was too small and has been resized: call again.
    Retry,
    /// The data is in the buffer; the call ended with this success or warning code.
    Done(Status),
    /// The call failed.
    Failed(Error),
}

/// The step that a reply gives: `BUFFER_TOO_SMALL` asks for another attempt, a
/// success or warning ends the loop, and every other error ends it as a failure.
pub open spec fn read_step_of(status: Status) -> ReadStep {
    if status.0 == BUFFER_TOO_SMALL {
        ReadStep::Retry
    } else if class_of(status.0) != StatusClass::Error {
        ReadStep::Done(status)
    } else {
        ReadStep::Failed(Error::Failed(status))
    }
}

/// The data buffer after a reply that reported `size` bytes: resized to that
/// size when the buffer was too small, cut to it on success, kept otherwise.
pub open spec fn read_buffer_after(data: Seq<u8>, status: Status, size: usize) -> Seq<u8> {
    match read_step_of(status) {
        ReadStep::Retry => resized(data, size as nat, 0u8),
        ReadStep::Done(_) => truncated(data, size as nat),
        ReadStep::Failed(_) => data,
    }
}

/// Handles the reply to one attempt to read a variable into `data`: `status`
/// is the code the firmware returned and `size` the data size it reported.
pub fn read_step(data: &mut Vec<u8>, status: Status, size: usize) -> (r: ReadStep)
    ensures
        r == read_step_of(status),
        final(data)@ == read_buffer_after(old(data)@, status, size),
{
    if status.0 == BUFFER_TOO_SMALL {
        data.resize(size, 0u8);
        assert(final(data)@ =~= resized(old(data)@, size as nat, 0u8));
        ReadStep::Retry
    } else if !status.is_error() {
        data.truncate(size);
        ReadStep::Done(status)
    } else {
        ReadStep::Failed(Error::Failed(status))
    }
}

/// A firmware that needs `required` bytes: it reports `BUFFER_TOO_SMALL` for a
/// shorter buffer and success otherwise, and reports `required` as the size.
pub open spec fn fixed_size_reply(required: usize, buffer_len: nat) -> Status {
    if buffer_len < required {
        Status(BUFFER_TOO_SMALL)
    } else {
        Status(0)
    }
}

/// The buffer length when the read loop against `fixed_size_reply(required, _)`
/// ends within `attempts` attempts, starting from a buffer of `len` bytes.
pub open spec fn fixed_size_read(required: usize, len: nat, attempts: nat) -> Option<nat>
    decreases attempts,
{
    if attempts == 0 {
        None
    } else {
        let status = fixed_size_reply(required, len);
        let next = read_buffer_after(Seq::new(len, |i: int| 0u8), status, required).len();
        match read_step_of(status) {
            ReadStep::Retry => fixed_size_read(required, next, (attempts - 1) as nat),
            ReadStep::Done(_) => Some(next),
            ReadStep::Failed(_) => None,
        }
    }
}

/// Against a firmware that needs `required` bytes, the read loop ends after at
/// most two attempts, whatever the first buffer's length, with a buffer of
/// exactly `required` bytes; it ends after one when the first buffer is large
/// enough.
pub proof fn lemma_read_loop_ends(required: usize, initial: nat)
    ensures
        fixed_size_read(required, initial, 2) == Some(required as nat),
        initial >= required ==> fixed_size_read(required, initial, 1) == Some(required as nat),
{
    reveal_with_fuel(fixed_size_read, 3);
    assert(class_of(0) == StatusClass::Success);
    assert(class_of(BUFFER_TOO_SMALL) == StatusClass::Error);
}


/// The units of `units` before the first NUL unit, or all of them if none is NUL.
pub open spec fn until_nul(units: Seq<u16>) -> Seq<u16>
    decreases units.len(),
{
    if units.len() == 0 || units[0] == 0 {
        Seq::empty()
    } else {
        seq![units[0]] + until_nul(units.drop_first())
    }
}

/// Decoding writes at most three bytes per unit.
proof fn lemma_ucs2_utf8_len(units: Seq<u16>)
    ensures
        ucs2_utf8(units).len() <= 3 * units.len(),
    decreases units.len(),
{
    if units.len() > 0 {
        lemma_ucs2_utf8_len(units.drop_last());
    }
}

/// A UCS-2 unit that is not half of a surrogate pair.
pub open spec fn not_surrogate_unit(u: u16) -> bool {
    !(0xD800 <= u <= 0xDFFF)
}

/// The bytes that decoding writes for a unit that is not a surrogate are the
/// UTF-8 encoding of one character.
proof fn lemma_unit_utf8_valid(u: u16)
    requires
        not_surrogate_unit(u),
    ensures
        vstd::utf8::valid_utf8(unit_utf8(u)),
{
    let b = unit_utf8(u);
    reveal_with_fuel(vstd::utf8::valid_utf8, 2);
    if u < 0x80 {
        let b0 = u as u8;
        assert(b0 & 0x7f == b0) by (bit_vector)
            requires
                b0 < 0x80,
        ;
        assert(b.subrange(1, 1) =~= Seq::<u8>::empty());
    } else if u < 0x800 {
        let hi: u16 = u >> 6u16;
        let lo: u16 = u & 0x3F;
        assert(hi < 32 && lo < 64) by (bit_vector)
            requires
                u < 0x800,
                hi == u >> 6u16,
                lo == u & 0x3F,
        ;
        let b0 = (0xC0 + hi) as u8;
        let b1 = (0x80 + lo) as u8;
        let h8 = hi as u8;
        let l8 = lo as u8;
        assert(b0 == 0xC0u8 | h8 && b1 == 0x80u8 | l8) by (bit_vector)
            requires
                h8 < 32,
                l8 < 64,
                b0 == 0xC0 + h8,
                b1 == 0x80 + l8,
        ;
        let cp = (((b0 & 0x1F) as u32) << 6u32) | ((b1 & 0x3F) as u32);
        assert(cp == u as u32 && 0x80 <= cp) by (bit_vector)
            requires
                b0 == 0xC0u8 | (u >> 6u16) as u8,
                b1 == 0x80u8 | (u & 0x3F) as u8,
                0x80 <= u < 0x800,
                cp == (((b0 & 0x1F) as u32) << 6u32) | ((b1 & 0x3F) as u32),
        ;
        assert(b.subrange(2, 2) =~= Seq::<u8>::empty());
    } else {
        let h: u16 = u >> 12u16;
        let m: u16 = (u >> 6u16) & 0x3F;
        let lo: u16 = u & 0x3F;
        assert(h < 16 && m < 64 && lo < 64) by (bit_vector)
            requires
                h == u >> 12u16,
                m == (u >> 6u16) & 0x3F,
                lo == u & 0x3F,
        ;
        let b0 = (0xE0 + h) as u8;
        let b1 = (0x80 + m) as u8;
        let b2 = (0x80 + lo) as u8;
        let h8 = h as u8;
        let m8 = m as u8;
        let l8 = lo as u8;
        assert(b0 == 0xE0u8 | h8 && b1 == 0x80u8 | m8 && b2 == 0x80u8 | l8) by (bit_vector)
            requires
                h8 < 16,
                m8 < 64,
                l8 < 64,
                b0 == 0xE0 + h8,
                b1 == 0x80 + m8,
                b2 == 0x80 + l8,
        ;
        let cp = (((b0 & 0x0F) as u32) << 12u32) | (((b1 & 0x3F) as u32) << 6u32) | ((b2
            & 0x3F) as u32);
        assert(cp == u as u32 && 0x800 <= cp) by (bit_vector)
            requires
                b0 == 0xE0u8 | (u >> 12u16) as u8,
                b1 == 0x80u8 | ((u >> 6u16) & 0x3F) as u8,
                b2 == 0x80u8 | (u & 0x3F) as u8,
                0x800 <= u,
                cp == (((b0 & 0x0F) as u32) << 12u32) | (((b1 & 0x3F) as u32) << 6u32) | ((b2
                    & 0x3F) as u32),
        ;
        assert(b.subrange(3, 3) =~= Seq::<u8>::empty());
    }
}

/// Units with no surrogate decode to valid UTF-8.
proof fn lemma_ucs2_utf8_valid(units: Seq<u16>)
    requires
        forall|i: int| 0 <= i < units.len() ==> not_surrogate_unit(#[trigger] units[i]),
    ensures
        vstd::utf8::valid_utf8(ucs2_utf8(units)),
    decreases units.len(),
{
    if units.len() > 0 {
        let init = units.drop_last();
        assert forall|i: int| 0 <= i < init.len() implies not_surrogate_unit(#[trigger] init[i]) by {
            assert(init[i] == units[i]);
        }
        lemma_ucs2_utf8_valid(init);
        lemma_unit_utf8_valid(units.last());
        vstd::utf8::valid_utf8_concat(ucs2_utf8(init), unit_utf8(units.last()));
    }
}

/// The name held in a buffer the firmware filled: the UCS-2 text before the
/// first NUL unit, as a string; `None` when that text does not decode to valid
/// UTF-8 (a lone surrogate unit), and never when it holds no surrogate unit.
pub fn decode_name(buffer: &Vec<u16>) -> (r: Option<String>)
    requires
        buffer@.len() <= usize::MAX / 3,
    ensures
        r is Some <==> valid_utf8(ucs2_utf8(until_nul(buffer@))),
        r is Some ==> r->Some_0@ == decode_utf8(ucs2_utf8(until_nul(buffer@))),
        (forall|i: int|
            0 <= i < until_nul(buffer@).len() ==> not_surrogate_unit(
                #[trigger] until_nul(buffer@)[i],
            )) ==> r is Some,
{
    let len = buffer.len();
    let mut units: Vec<u16> = Vec::new();
    let mut n: usize = 0;
    assert(buffer@.subrange(0, len as int) =~= buffer@);
    assert(units@ + buffer@ =~= buffer@);
    while n < len && buffer[n] != 0
        invariant
            n <= len,
            len == buffer@.len(),
            units@ == buffer@.subrange(0, n as int),
            until_nul(buffer@) == units@ + until_nul(buffer@.subrange(n as int, len as int)),
        decreases len - n,
    {
        let ghost rest = buffer@.subrange(n as int, len as int);
        assert(rest.drop_first() =~= buffer@.subrange(n + 1, len as int));
        units.push(buffer[n]);
        n = n + 1;
        assert(units@ =~= buffer@.subrange(0, n as int));
        assert(until_nul(buffer@) =~= units@ + until_nul(buffer@.subrange(n as int, len as int)));
    }
    assert(until_nul(buffer@.subrange(n as int, len as int)) =~= Seq::<u16>::empty());
    assert(units@ =~= until_nul(buffer@));
    proof {
        lemma_ucs2_utf8_len(units@);
        if forall|i: int| 0 <= i < units@.len() ==> not_surrogate_unit(#[trigger] units@[i]) {
            lemma_ucs2_utf8_valid(units@);
        }
    }
    let mut bytes: Vec<u8> = vec![0u8; n * 3];
    match ucs2_decode(units.as_slice(), &mut bytes) {
        Ok(k) => {
            bytes.truncate(k);
            string_from_utf8(bytes)
        },
        Err(_) => {
            assert(false);
            None
        },
    }
}

/// Why an enumeration of variable names stopped with a fault.
#[derive(Clone, Copy, Debug, PartialEq, Eq, Structural)]
pub enum EnumerationFault {
    /// The firmware returned an error other than the one that ends the enumeration.
    Firmware(Status),
    /// The firmware returned a name that is not valid UCS-2 text.
    InvalidName,
}

/// Where an enumeration stands.
#[derive(Clone, Copy, Debug, PartialEq, Eq, Structural)]
pub enum Phase {
    /// The next call is a first attempt for the next name.
    Ready,
    /// The name buffer was just resized; the next call is a retry.
    Resized,
    /// The enumeration has ended.
    Finished,
}

/// The kind of step that a reply gives.
#[derive(Clone, Copy, Debug, PartialEq, Eq, Structural)]
pub enum StepKind {
    /// Call the firmware again with the resized buffer.
    Call,
    /// A name was returned.
    Item,
    /// The enumeration is over.
    End,
    /// The firmware broke its contract.
    Fault,
}

/// The kind of step that a reply with `status` gives in `phase`. A success or
/// warning returns a name. `BUFFER_TOO_SMALL` asks for another call with the
/// buffer resized to the reported size, as often as the firmware reports it.
/// `NOT_FOUND` ends the enumeration; every other error is a fault.
pub open spec fn name_step_kind(phase: Phase, status: Status) -> StepKind {
    if phase == Phase::Finished {
        StepKind::End
    } else if class_of(status.0) != StatusClass::Error {
        StepKind::Item
    } else if status.0 == BUFFER_TOO_SMALL {
        StepKind::Call
    } else if status.0 == NOT_FOUND {
        StepKind::End
    } else {
        StepKind::Fault
    }
}

/// What one reply makes of an enumeration.
#[derive(Clone, Debug)]
pub enum NameStep {
    /// Call the firmware again with the resized buffer.
    Call,
    /// The next variable.
    Yield(Variable),
    /// The enumeration is over.
    End,
    /// The firmware broke its contract; the enumeration is over.
    Fault(EnumerationFault),
}

/// The enumeration of variable names. It owns the cursor, a name buffer and a
/// vendor identifier, which each call hands to the firmware and which the
/// firmware's reply replaces.
pub struct VariablesIterator {
    buffer: Vec<u16>,
    vendor: Guid,
    phase: Phase,
}

/// The length of the name buffer that an enumeration starts with.
pub const INITIAL_NAME_LEN: usize = 32;

impl VariablesIterator {
    pub closed spec fn spec_buffer(&self) -> Seq<u16> {
        self.buffer@
    }

    pub closed spec fn spec_vendor(&self) -> Guid {
        self.vendor
    }

    pub closed spec fn spec_phase(&self) -> Phase {
        self.phase
    }

    /// An enumeration at its start: an empty name of 32 units and the all-zero vendor.
    pub fn new() -> (r: VariablesIterator)
        ensures
            r.spec_buffer() == Seq::new(INITIAL_NAME_LEN as nat, |i: int| 0u16),
            r.spec_vendor() == Guid::spec_from_values(0, 0, 0, 0, seq![0u8, 0, 0, 0, 0, 0]),
            r.spec_phase() == Phase::Ready,
    {
        let buffer = vec![0u16; INITIAL_NAME_LEN];
        assert(buffer@ =~= Seq::new(INITIAL_NAME_LEN as nat, |i: int| 0u16));
        let vendor = Guid::from_values(0, 0, 0, 0, [0, 0, 0, 0, 0, 0]);
        proof {
            assert([0u8, 0, 0, 0, 0, 0]@ =~= seq![0u8, 0, 0, 0, 0, 0]);
        }
        VariablesIterator { buffer, vendor, phase: Phase::Ready }
    }

    /// The name buffer to hand to the next call.
    pub fn name_buffer(&self) -> (r: Vec<u16>)
        ensures
            r@ == self.spec_buffer(),
    {
        self.buffer.clone()
    }

    /// The vendor identifier to hand to the next call.
    pub fn vendor(&self) -> (r: Guid)
        ensures
            r == self.spec_vendor(),
    {
        self.vendor
    }

    /// Where the enumeration stands.
    pub fn phase(&self) -> (r: Phase)
        ensures
            r == self.spec_phase(),
    {
        self.phase
    }

    /// Handles the firmware's reply to a call made with `name_buffer()` and
    /// `vendor()`: `status` is its code, `reported` the buffer size it reported
    /// in units, and `buffer` and `vendor` what it left in the buffer and the
    /// identifier.
    pub fn on_reply(&mut self, status: Status, reported: usize, buffer: Vec<u16>, vendor: Guid) -> (r:
        NameStep)
        requires
            buffer@.len() <= usize::MAX / 3,
        ensures
            name_step_kind(old(self).spec_phase(), status) == StepKind::Call ==> r is Call
                && final(self).spec_phase() == Phase::Resized && final(self).spec_buffer()
                == resized(old(self).spec_buffer(), reported as nat, 0u16)
                && final(self).spec_vendor() == old(self).spec_vendor(),
            name_step_kind(old(self).spec_phase(), status) == StepKind::End ==> r is End
                && final(self).spec_phase() == Phase::Finished,
            name_step_kind(old(self).spec_phase(), status) == StepKind::Fault ==> r == NameStep::Fault(
                EnumerationFault::Firmware(status),
            ) && final(self).spec_phase() == Phase::Finished,
            (name_step_kind(old(self).spec_phase(), status) == StepKind::End
                || name_step_kind(old(self).spec_phase(), status) == StepKind::Fault) ==> (
            final(self).spec_buffer() == old(self).spec_buffer() && final(self).spec_vendor() == old(
                self,
            ).spec_vendor()),
            name_step_kind(old(self).spec_phase(), status) == StepKind::Item ==> {
                let text = ucs2_utf8(until_nul(buffer@));
                &&& final(self).spec_buffer() == buffer@
                &&& final(self).spec_vendor() == vendor
                &&& valid_utf8(text) ==> r is Yield && r->Yield_0.name@ == decode_utf8(text)
                    && r->Yield_0.vendor == vendor && final(self).spec_phase() == Phase::Ready
                &&& !valid_utf8(text) ==> r == NameStep::Fault(EnumerationFault::InvalidName)
                    && final(self).spec_phase() == Phase::Finished
            },
    {
        if self.phase == Phase::Finished {
            return NameStep::End;
        }
        if !status.is_error() {
            let name = decode_name(&buffer);
            self.buffer = buffer;
            self.vendor = vendor;
            match name {
                Some(name) => {
                    self.phase = Phase::Ready;
                    NameStep::Yield(Variable::new(name, vendor))
                },
                None => {
                    self.phase = Phase::Finished;
                    NameStep::Fault(EnumerationFault::InvalidName)
                },
            }
        } else if status.0 == BUFFER_TOO_SMALL {
            self.buffer.resize(reported, 0u16);
            assert(self.buffer@ =~= resized(old(self).spec_buffer(), reported as nat, 0u16));
            self.phase = Phase::Resized;
            NameStep::Call
        } else if status.0 == NOT_FOUND {
            self.phase = Phase::Finished;
            NameStep::End
        } else {
            self.phase = Phase::Finished;
            NameStep::Fault(EnumerationFault::Firmware(status))
        }
    }
}

/// The phase after a step of the given kind, when every name is valid text.
pub open spec fn phase_after(kind: StepKind) -> Phase {
    match kind {
        StepKind::Call => Phase::Resized,
        StepKind::Item => Phase::Ready,
        _ => Phase::Finished,
    }
}

/// Runs an enumeration from `phase` over the firmware's successive codes, all
/// names valid: the number of names returned, and the kind of the step that
/// ended it (`Call` if the codes ran out first).
pub open spec fn enumerate(phase: Phase, replies: Seq<Status>) -> (nat, StepKind)
    decreases replies.len(),
{
    if replies.len() == 0 {
        (0, StepKind::Call)
    } else {
        let kind = name_step_kind(phase, replies[0]);
        if kind == StepKind::End || kind == StepKind::Fault {
            (0, kind)
        } else {
            let rest = enumerate(phase_after(kind), replies.drop_first());
            (if kind == StepKind::Item {
                rest.0 + 1
            } else {
                rest.0
            }, rest.1)
        }
    }
}

/// `k` success codes followed by `last`.
pub open spec fn successes_then(k: nat, last: Status) -> Seq<Status> {
    Seq::new(k, |i: int| Status(0)).push(last)
}

/// A firmware that returns `k` names and then `NOT_FOUND` gives exactly `k`
/// names and then the end; one that ends with any other error (not
/// `BUFFER_TOO_SMALL`) gives the `k` names and then a fault.
pub proof fn lemma_enumeration_ends(k: nat, last: Status)
    ensures
        last.0 == NOT_FOUND ==> enumerate(Phase::Ready, successes_then(k, last)) == (k, StepKind::End),
        (class_of(last.0) == StatusClass::Error && last.0 != NOT_FOUND && last.0 != BUFFER_TOO_SMALL)
            ==> enumerate(Phase::Ready, successes_then(k, last)) == (k, StepKind::Fault),
    decreases k,
{
    let r = successes_then(k, last);
    if k == 0 {
        assert(r.drop_first() =~= Seq::<Status>::empty());
    } else {
        assert(r.drop_first() =~= successes_then((k - 1) as nat, last));
        assert(class_of(0) == StatusClass::Success);
        lemma_enumeration_ends((k - 1) as nat, last);
    }
}


/// `m` replies of `BUFFER_TOO_SMALL` followed by `rest`.
pub open spec fn resizes_then(m: nat, rest: Seq<Status>) -> Seq<Status> {
    Seq::new(m, |i: int| Status(BUFFER_TOO_SMALL)) + rest
}

/// However many `BUFFER_TOO_SMALL` replies the firmware gives in a row, the
/// enumeration neither ends nor faults on them: it calls again each time, and
/// then goes on as after one resize.
pub proof fn lemma_resizes_absorbed(phase: Phase, m: nat, rest: Seq<Status>)
    requires
        phase != Phase::Finished,
        m > 0,
    ensures
        enumerate(phase, resizes_then(m, rest)) == enumerate(Phase::Resized, rest),
    decreases m,
{
    let r = resizes_then(m, rest);
    assert(class_of(BUFFER_TOO_SMALL) == StatusClass::Error);
    assert(r[0] == Status(BUFFER_TOO_SMALL));
    assert(name_step_kind(phase, r[0]) == StepKind::Call);
    if m == 1 {
        assert(r.drop_first() =~= rest);
    } else {
        assert(r.drop_first() =~= resizes_then((m - 1) as nat, rest));
        lemma_resizes_absorbed(Phase::Resized, (m - 1) as nat, rest);
    }
}

/// A firmware whose need grows between calls: at each call it needs the next
/// size of `needs`, reports `BUFFER_TOO_SMALL` with that size when the buffer
/// is shorter, and succeeds otherwise. The number of calls and the final
/// buffer length when the read loop ends within these calls, starting from a
/// buffer of `len` bytes.
pub open spec fn growing_read(len: nat, needs: Seq<usize>) -> Option<(nat, nat)>
    decreases needs.len(),
{
    if needs.len() == 0 {
        None
    } else {
        let status = fixed_size_reply(needs[0], len);
        let next = read_buffer_after(Seq::new(len, |i: int| 0u8), status, needs[0]).len();
        match read_step_of(status) {
            ReadStep::Retry => match growing_read(next, needs.drop_first()) {
                None => None,
                Some(r) => Some((r.0 + 1, r.1)),
            },
            ReadStep::Done(_) => Some((1, next)),
            ReadStep::Failed(_) => None,
        }
    }
}

/// Each need but the last exceeds the buffer the call finds (the first buffer,
/// then the size reported before), and the last fits in it.
pub open spec fn grows_then_fits(len: nat, needs: Seq<usize>) -> bool
    decreases needs.len(),
{
    if needs.len() == 0 {
        false
    } else if needs.len() == 1 {
        needs[0] <= len
    } else {
        len < needs[0] && grows_then_fits(needs[0] as nat, needs.drop_first())
    }
}

/// Against a firmware that reports `k` growing sizes and then succeeds, the
/// read loop makes exactly `k + 1` calls, each retry with a buffer of the size
/// last reported, and ends with a buffer of the size the successful call
/// reported. There is no cap on `k`.
pub proof fn lemma_growing_read_ends(len: nat, needs: Seq<usize>)
    requires
        grows_then_fits(len, needs),
    ensures
        growing_read(len, needs) == Some((needs.len(), needs.last() as nat)),
    decreases needs.len(),
{
    assert(class_of(0) == StatusClass::Success);
    assert(class_of(BUFFER_TOO_SMALL) == StatusClass::Error);
    if needs.len() > 1 {
        let rest = needs.drop_first();
        lemma_growing_read_ends(needs[0] as nat, rest);
        assert(rest.last() == needs.last());
    }
}

} // verus!
