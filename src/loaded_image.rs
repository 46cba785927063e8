//! The load options of a loaded image: the command line it was started with,
//! which the firmware holds as UCS-2 text.

use vstd::prelude::*;
use vstd::utf8::{decode_utf8, valid_utf8};
use crate::guid::Guid;
use crate::text::{str_from_utf8, ucs2_decode, ucs2_utf8};

verus! {

/// Why the load options could not be read.
#[derive(Clone, Copy, Debug, PartialEq, Eq, Structural)]
pub enum LoadOptionsError {
    /// The buffer cannot hold the load options as UTF-8.
    BufferTooSmall,
    /// The load options are not valid UTF-8 once decoded.
    NotValidUtf8,
}

/// The identifier of the loaded image protocol, `5b1b31a1-9562-11d2-8e3f-00a0c969723b`.
pub fn loaded_image_guid() -> (r: Guid)
    ensures
        r == Guid::spec_from_values(
            0x5b1b31a1,
            0x9562,
            0x11d2,
            0x8e3f,
            seq![0x00u8, 0xa0, 0xc9, 0x69, 0x72, 0x3b],
        ),
{
    let r = Guid::from_values(0x5b1b31a1, 0x9562, 0x11d2, 0x8e3f, [0x00, 0xa0, 0xc9, 0x69, 0x72, 0x3b]);
    assert([0x00u8, 0xa0, 0xc9, 0x69, 0x72, 0x3b]@ =~= seq![0x00u8, 0xa0, 0xc9, 0x69, 0x72, 0x3b]);
    r
}

/// Decodes the load options `units` (the UCS-2 text, without its NUL) into
/// `buffer` as UTF-8 and returns them as text that lives in the buffer. Only
/// the bytes of the text are written; the rest of the buffer is as it was.
/// Fails with `BufferTooSmall` when the bytes do not fit in the buffer, and
/// with `NotValidUtf8` when they are not valid UTF-8 (a lone surrogate unit).
pub fn load_options_text<'a>(units: &[u16], buffer: &'a mut Vec<u8>) -> (r: Result<
    &'a str,
    LoadOptionsError,
>)
    ensures
        final(buffer)@.len() == old(buffer)@.len(),
        r == Err::<&str, LoadOptionsError>(LoadOptionsError::BufferTooSmall) <==> ucs2_utf8(
            units@,
        ).len() > old(buffer)@.len(),
        r == Err::<&str, LoadOptionsError>(LoadOptionsError::NotValidUtf8) <==> (ucs2_utf8(
            units@,
        ).len() <= old(buffer)@.len() && !valid_utf8(ucs2_utf8(units@))),
        ucs2_utf8(units@).len() <= old(buffer)@.len() ==> final(buffer)@ == ucs2_utf8(units@)
            + old(buffer)@.subrange(ucs2_utf8(units@).len() as int, old(buffer)@.len() as int),
        r is Ok ==> r->Ok_0@ == decode_utf8(ucs2_utf8(units@)),
{
    let n = match ucs2_decode(units, buffer) {
        Ok(n) => n,
        Err(_) => return Err(LoadOptionsError::BufferTooSmall),
    };
    assert(buffer@ =~= ucs2_utf8(units@) + old(buffer)@.subrange(n as int, old(buffer)@.len() as int)) by {
        assert(buffer@ =~= buffer@.subrange(0, n as int) + buffer@.subrange(n as int, buffer@.len() as int));
    }
    let shared: &'a Vec<u8> = buffer;
    let text = vstd::slice::slice_subrange(shared.as_slice(), 0, n);
    match str_from_utf8(text) {
        Some(s) => Ok(s),
        None => Err(LoadOptionsError::NotValidUtf8),
    }
}

} // verus!
