//! Conversion between the firmware's UCS-2 text and the library's strings.

use vstd::prelude::*;
use vstd::utf8::{decode_utf8, valid_utf8};

verus! {

/// Why a UCS-2 conversion failed.
#[derive(Clone, Copy, Debug, PartialEq, Eq, Structural)]
pub enum Ucs2Error {
    /// The output buffer is too small.
    BufferOverflow,
    /// The input holds a character outside the Basic Multilingual Plane.
    MultiByte,
}

/// A character that UCS-2 can hold: one of the Basic Multilingual Plane.
pub open spec fn is_bmp(c: char) -> bool {
    (c as u32) < 0x10000
}

/// The index of the first character of `chars` that UCS-2 cannot hold, if any.
pub open spec fn first_non_bmp(chars: Seq<char>) -> Option<int> {
    if exists|j: int| 0 <= j < chars.len() && !is_bmp(chars[j]) && forall|i: int|
        0 <= i < j ==> is_bmp(#[trigger] chars[i]) {
        Some(
            choose|j: int|
                0 <= j < chars.len() && !is_bmp(chars[j]) && forall|i: int|
                    0 <= i < j ==> is_bmp(#[trigger] chars[i]),
        )
    } else {
        None
    }
}

/// The UTF-8 bytes of one UCS-2 code unit, as the ucs2 crate writes them: one
/// byte below 0x80, two below 0x800, three otherwise.
pub open spec fn unit_utf8(u: u16) -> Seq<u8> {
    if u < 0x80 {
        seq![u as u8]
    } else if u < 0x800 {
        seq![(0xC0 + (u >> 6u16)) as u8, (0x80 + (u & 0x3F)) as u8]
    } else {
        seq![
            (0xE0 + (u >> 12u16)) as u8,
            (0x80 + ((u >> 6u16) & 0x3F)) as u8,
            (0x80 + (u & 0x3F)) as u8,
        ]
    }
}

/// The bytes that decoding a UCS-2 string writes: each unit's bytes in order.
pub open spec fn ucs2_utf8(units: Seq<u16>) -> Seq<u8>
    decreases units.len(),
{
    if units.len() == 0 {
        Seq::empty()
    } else {
        ucs2_utf8(units.drop_last()) + unit_utf8(units.last())
    }
}

/// Relies on ucs2::encode: it walks the characters of `s` in order; at each it
/// fails with `MultiByte` if the character is outside the Basic Multilingual
/// Plane, else with `BufferOverflow` if the buffer is full, else writes the
/// character's code point as one unit. On success it returns the number of units.
#[verifier::external_body]
pub(crate) fn ucs2_encode(s: &str, buf: &mut Vec<u16>) -> (r: Result<usize, Ucs2Error>)
    ensures
        final(buf)@.len() == old(buf)@.len(),
        r is Ok <==> (first_non_bmp(s@) is None && s@.len() <= old(buf)@.len()),
        r == Err::<usize, Ucs2Error>(Ucs2Error::MultiByte) <==> (first_non_bmp(s@) is Some
            && first_non_bmp(s@)->Some_0 <= old(buf)@.len()),
        r is Ok ==> r->Ok_0 == s@.len() && final(buf)@ == Seq::new(
            s@.len() as nat,
            |i: int| s@[i] as u16,
        ) + old(buf)@.subrange(s@.len() as int, old(buf)@.len() as int),
{
    match ucs2::encode(s, buf.as_mut_slice()) {
        Ok(n) => Ok(n),
        Err(ucs2::Error::BufferOverflow) => Err(Ucs2Error::BufferOverflow),
        Err(ucs2::Error::MultiByte) => Err(Ucs2Error::MultiByte),
    }
}

/// Relies on ucs2::decode: it writes the UTF-8 bytes of each unit in turn and
/// fails with `BufferOverflow` when the next unit's bytes do not fit; on success
/// it returns the number of bytes written, and the bytes after them are as
/// they were.
#[verifier::external_body]
pub(crate) fn ucs2_decode(units: &[u16], buf: &mut Vec<u8>) -> (r: Result<usize, Ucs2Error>)
    ensures
        final(buf)@.len() == old(buf)@.len(),
        r is Ok <==> ucs2_utf8(units@).len() <= old(buf)@.len(),
        r is Err ==> r->Err_0 == Ucs2Error::BufferOverflow,
        r is Ok ==> r->Ok_0 == ucs2_utf8(units@).len() && final(buf)@.subrange(
            0,
            r->Ok_0 as int,
        ) == ucs2_utf8(units@) && final(buf)@.subrange(r->Ok_0 as int, old(buf)@.len() as int)
            == old(buf)@.subrange(r->Ok_0 as int, old(buf)@.len() as int),
{
    match ucs2::decode(units, buf.as_mut_slice()) {
        Ok(n) => Ok(n),
        Err(ucs2::Error::BufferOverflow) => Err(Ucs2Error::BufferOverflow),
        Err(ucs2::Error::MultiByte) => Err(Ucs2Error::MultiByte),
    }
}

/// Relies on String::from_utf8: it succeeds exactly on valid UTF-8, and the
/// string then holds the characters that the bytes encode.
#[verifier::external_body]
pub(crate) fn string_from_utf8(bytes: Vec<u8>) -> (r: Option<String>)
    ensures
        r is Some <==> valid_utf8(bytes@),
        r is Some ==> r->Some_0@ == decode_utf8(bytes@),
{
    String::from_utf8(bytes).ok()
}


/// Relies on core::str::from_utf8: it succeeds exactly on valid UTF-8, and the
/// text then is the characters that the bytes encode, in the same memory.
#[verifier::external_body]
pub(crate) fn str_from_utf8<'a>(bytes: &'a [u8]) -> (r: Option<&'a str>)
    ensures
        r is Some <==> valid_utf8(bytes@),
        r is Some ==> r->Some_0@ == decode_utf8(bytes@),
{
    core::str::from_utf8(bytes).ok()
}

} // verus!
