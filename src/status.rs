//! Status codes returned by the firmware and their conversion into results.

use vstd::prelude::*;

verus! {

/// The bit that marks a status code as an error: the highest bit of `usize`.
pub const ERROR_BIT: usize = usize::MAX - usize::MAX / 2;

/// Status codes.
pub const SUCCESS: usize = 0;
pub const WARN_UNKNOWN_GLYPH: usize = 1;
pub const WARN_DELETE_FAILURE: usize = 2;
pub const WARN_WRITE_FAILURE: usize = 3;
pub const WARN_BUFFER_TOO_SMALL: usize = 4;
pub const WARN_STALE_DATA: usize = 5;
pub const WARN_FILE_SYSTEM: usize = 6;
pub const WARN_RESET_REQUIRED: usize = 7;
pub const LOAD_ERROR: usize = ERROR_BIT + 1;
pub const INVALID_PARAMETER: usize = ERROR_BIT + 2;
pub const UNSUPPORTED: usize = ERROR_BIT + 3;
pub const BAD_BUFFER_SIZE: usize = ERROR_BIT + 4;
pub const BUFFER_TOO_SMALL: usize = ERROR_BIT + 5;
pub const NOT_READY: usize = ERROR_BIT + 6;
pub const DEVICE_ERROR: usize = ERROR_BIT + 7;
pub const WRITE_PROTECTED: usize = ERROR_BIT + 8;
pub const OUT_OF_RESOURCES: usize = ERROR_BIT + 9;
pub const VOLUME_CORRUPTED: usize = ERROR_BIT + 10;
pub const VOLUME_FULL: usize = ERROR_BIT + 11;
pub const NO_MEDIA: usize = ERROR_BIT + 12;
pub const MEDIA_CHANGED: usize = ERROR_BIT + 13;
pub const NOT_FOUND: usize = ERROR_BIT + 14;
pub const ACCESS_DENIED: usize = ERROR_BIT + 15;
pub const NO_RESPONSE: usize = ERROR_BIT + 16;
pub const NO_MAPPING: usize = ERROR_BIT + 17;
pub const TIMEOUT: usize = ERROR_BIT + 18;
pub const NOT_STARTED: usize = ERROR_BIT + 19;
pub const ALREADY_STARTED: usize = ERROR_BIT + 20;
pub const ABORTED: usize = ERROR_BIT + 21;
pub const ICMP_ERROR: usize = ERROR_BIT + 22;
pub const TFTP_ERROR: usize = ERROR_BIT + 23;
pub const PROTOCOL_ERROR: usize = ERROR_BIT + 24;
pub const INCOMPATIBLE_VERSION: usize = ERROR_BIT + 25;
pub const SECURITY_VIOLATION: usize = ERROR_BIT + 26;
pub const CRC_ERROR: usize = ERROR_BIT + 27;
pub const END_OF_MEDIA: usize = ERROR_BIT + 28;
pub const END_OF_FILE: usize = ERROR_BIT + 31;
pub const INVALID_LANGUAGE: usize = ERROR_BIT + 32;
pub const COMPROMISED_DATA: usize = ERROR_BIT + 33;

/// A raw status code as returned by a firmware call.
#[derive(Clone, Copy, Debug, PartialEq, Eq, Structural)]
pub struct Status(pub usize);

/// The three classes into which status codes fall.
#[derive(Clone, Copy, Debug, PartialEq, Eq, Structural)]
pub enum StatusClass {
    Success,
    Warning,
    Error,
}

/// The class of a status code: zero is success, codes below the error bit are
/// warnings, and every code with the error bit set is an error.
pub open spec fn class_of(code: usize) -> StatusClass {
    if code == 0 {
        StatusClass::Success
    } else if code < ERROR_BIT {
        StatusClass::Warning
    } else {
        StatusClass::Error
    }
}

impl Status {

    /// The class of this code.
    pub open spec fn class(self) -> StatusClass {
        class_of(self.0)
    }

    /// Classifies the code as success, warning or error.
    pub fn classify(self) -> (r: StatusClass)
        ensures
            r == self.class(),
    {
        if self.0 == 0 {
            StatusClass::Success
        } else if self.0 < ERROR_BIT {
            StatusClass::Warning
        } else {
            StatusClass::Error
        }
    }

    /// Whether the code is the success code.
    pub fn is_success(self) -> (r: bool)
        ensures
            r == (self.class() == StatusClass::Success),
    {
        self.0 == 0
    }

    /// Whether the code is a warning: the call succeeded, with a caveat.
    pub fn is_warning(self) -> (r: bool)
        ensures
            r == (self.class() == StatusClass::Warning),
    {
        self.0 != 0 && self.0 < ERROR_BIT
    }

    /// Whether the code is an error.
    pub fn is_error(self) -> (r: bool)
        ensures
            r == (self.class() == StatusClass::Error),
    {
        self.0 >= ERROR_BIT
    }

    /// Converts the code into a result that carries `val` unless the code is an error.
    pub fn into_with_val<T>(self, val: T) -> (r: Result<Completion<T>, Error>)
        ensures
            r == status_result(self, val),
            self.class() == StatusClass::Error <==> r is Err,
            r is Err ==> r == Err::<Completion<T>, Error>(Error::Failed(self)),
            r is Ok ==> r->Ok_0.spec_status() == self && r->Ok_0.spec_value() == val,
    {
        if self.is_error() {
            Err(Error::Failed(self))
        } else {
            Ok(Completion { status: self, value: val })
        }
    }

    /// Converts the code into a result without a value.
    pub fn into_result(self) -> (r: Result<Completion<()>, Error>)
        ensures
            r == status_result(self, ()),
            self.class() == StatusClass::Error <==> r is Err,
            r is Err ==> r == Err::<Completion<()>, Error>(Error::Failed(self)),
            r is Ok ==> r->Ok_0.spec_status() == self,
    {
        self.into_with_val(())
    }

    /// Converts the code of a size-discovery call into a result: `BUFFER_TOO_SMALL`
    /// becomes `Error::BufferTooSmall` with the size that the firmware asked for.
    pub fn into_sized_result<T>(self, required: usize, val: T) -> (r: Result<Completion<T>, Error>)
        ensures
            r == sized_status_result(self, required, val),
            self.0 == BUFFER_TOO_SMALL ==> r == Err::<Completion<T>, Error>(
                Error::BufferTooSmall(required),
            ),
            self.0 != BUFFER_TOO_SMALL ==> r == status_result(self, val),
    {
        if self.0 == BUFFER_TOO_SMALL {
            Err(Error::BufferTooSmall(required))
        } else {
            self.into_with_val(val)
        }
    }
}

/// What a call that failed reports.
#[derive(Clone, Copy, Debug, PartialEq, Eq, Structural)]
pub enum Error {
    /// The caller's buffer was too small; the firmware needs this many units.
    BufferTooSmall(usize),
    /// Any other error code.
    Failed(Status),
}

impl Error {
    /// The status code behind the error.
    pub fn status(&self) -> (r: Status)
        ensures
            *self is BufferTooSmall ==> r == Status(BUFFER_TOO_SMALL),
            *self is Failed ==> r == self->Failed_0,
    {
        match self {
            Error::BufferTooSmall(_) => Status(BUFFER_TOO_SMALL),
            Error::Failed(s) => *s,
        }
    }
}

/// The value of a call that succeeded, with the success or warning code it came with.
#[derive(Debug)]
pub struct Completion<T> {
    status: Status,
    value: T,
}

impl<T> Completion<T> {
    pub closed spec fn spec_status(&self) -> Status {
        self.status
    }

    pub closed spec fn spec_value(&self) -> T {
        self.value
    }

    /// Pairs a value with the success or warning code it came with.
    pub fn new(status: Status, value: T) -> (r: Self)
        requires
            status.class() != StatusClass::Error,
        ensures
            r.spec_status() == status,
            r.spec_value() == value,
    {
        Completion { status, value }
    }

    /// The success or warning code.
    pub fn status(&self) -> (r: Status)
        ensures
            r == self.spec_status(),
    {
        self.status
    }

    /// The value, with any warning dropped.
    pub fn unwrap(self) -> (r: T)
        ensures
            r == self.spec_value(),
    {
        self.value
    }

    /// The code and the value.
    pub fn split(self) -> (r: (Status, T))
        ensures
            r.0 == self.spec_status(),
            r.1 == self.spec_value(),
    {
        (self.status, self.value)
    }
}

/// The result that a code gives with a value: the value with the code, unless the
/// code is an error.
pub closed spec fn status_result<T>(s: Status, val: T) -> Result<Completion<T>, Error> {
    if s.class() == StatusClass::Error {
        Err(Error::Failed(s))
    } else {
        Ok(Completion { status: s, value: val })
    }
}

/// As `status_result`, with `BUFFER_TOO_SMALL` carrying the size that was asked for.
pub open spec fn sized_status_result<T>(s: Status, required: usize, val: T) -> Result<
    Completion<T>,
    Error,
> {
    if s.0 == BUFFER_TOO_SMALL {
        Err(Error::BufferTooSmall(required))
    } else {
        status_result(s, val)
    }
}

/// Every code has exactly one class. The success code gives a result that holds
/// the value; a warning code gives a result that holds both the value and the
/// code; every other code gives an error that holds the code and no value.
pub proof fn lemma_status_taxonomy<T>(code: usize, val: T)
    ensures
        code == 0 <==> class_of(code) == StatusClass::Success,
        (0 < code && code < ERROR_BIT) <==> class_of(code) == StatusClass::Warning,
        code >= ERROR_BIT <==> class_of(code) == StatusClass::Error,
        code & ERROR_BIT != 0 <==> class_of(code) == StatusClass::Error,
        class_of(code) != StatusClass::Error ==> status_result(Status(code), val) is Ok
            && status_result(Status(code), val)->Ok_0.spec_value() == val
            && status_result(Status(code), val)->Ok_0.spec_status() == Status(code),
        class_of(code) == StatusClass::Error ==> status_result(Status(code), val) == Err::<
            Completion<T>,
            Error,
        >(Error::Failed(Status(code))),
{
    lemma_error_bit(code);
}

/// The error bit is set exactly in the codes at or above it.
proof fn lemma_error_bit(code: usize)
    ensures
        code & ERROR_BIT != 0 <==> code >= ERROR_BIT,
{
    let e = ERROR_BIT;
    if usize::MAX == 0xffff_ffff {
        assert(e == 0x8000_0000);
        let c32 = code as u32;
        assert(c32 & 0x8000_0000u32 != 0 <==> c32 >= 0x8000_0000u32) by (bit_vector);
        assert((code & e) as u32 == c32 & 0x8000_0000u32);
    } else {
        assert(usize::MAX == 0xffff_ffff_ffff_ffff);
        assert(e == 0x8000_0000_0000_0000);
        let c = code as u64;
        assert(c & 0x8000_0000_0000_0000u64 != 0 <==> c >= 0x8000_0000_0000_0000u64) by (bit_vector);
        assert((code & e) as u64 == c & 0x8000_0000_0000_0000u64);
    }
}

} // verus!
