//! Calendar time records exchanged with the real-time clock services.

use vstd::prelude::*;

verus! {

/// The time-zone value that means "local time, offset unspecified".
pub const UNSPECIFIED_TIMEZONE: i16 = 2047;

/// Daylight-saving information attached to a time.
#[derive(Clone, Copy, Debug, PartialEq, Eq, Structural)]
pub struct Daylight {
    bits: u8,
}

/// The time is affected by daylight saving time.
pub const ADJUST_DAYLIGHT: u8 = 0x01;

/// The time has been adjusted for daylight saving time.
pub const IN_DAYLIGHT: u8 = 0x02;

impl Daylight {
    pub closed spec fn spec_bits(&self) -> u8 {
        self.bits
    }

    /// No flag set.
    pub fn empty() -> (r: Daylight)
        ensures
            r.spec_bits() == 0,
    {
        Daylight { bits: 0 }
    }

    /// Flags from their bits; `None` if a bit other than the two known ones is set.
    pub fn from_bits(bits: u8) -> (r: Option<Daylight>)
        ensures
            r is Some <==> bits & !(ADJUST_DAYLIGHT | IN_DAYLIGHT) == 0,
            r is Some ==> r->Some_0.spec_bits() == bits,
    {
        if bits & !(ADJUST_DAYLIGHT | IN_DAYLIGHT) == 0 {
            Some(Daylight { bits })
        } else {
            None
        }
    }

    /// The bits of the flags.
    pub fn bits(&self) -> (r: u8)
        ensures
            r == self.spec_bits(),
    {
        self.bits
    }

    /// Whether every bit of `flags` is set.
    pub fn contains(&self, flags: u8) -> (r: bool)
        ensures
            r == (self.spec_bits() & flags == flags),
    {
        self.bits & flags == flags
    }
}

/// The field of a time that was out of range.
#[derive(Clone, Copy, Debug, PartialEq, Eq, Structural)]
pub enum TimeError {
    Year,
    Month,
    Day,
    Hour,
    Minute,
    Second,
    Nanosecond,
    TimeZone,
}

/// A point in time as the real-time clock reports it.
#[derive(Clone, Copy, Debug, PartialEq, Eq, Structural)]
pub struct Time {
    year: u16,
    month: u8,
    day: u8,
    hour: u8,
    minute: u8,
    second: u8,
    nanosecond: u32,
    time_zone: i16,
    daylight: Daylight,
}

/// The time-zone values that a time may hold: an offset in minutes within a day
/// either way, or the value that leaves the offset unspecified.
pub open spec fn valid_time_zone(tz: i16) -> bool {
    (-1440 <= tz && tz <= 1440) || tz == UNSPECIFIED_TIMEZONE
}

/// The first field, in the order of the arguments of `Time::new`, that is out of
/// range; `None` when all are in range.
pub open spec fn first_invalid_field(
    year: u16,
    month: u8,
    day: u8,
    hour: u8,
    minute: u8,
    second: u8,
    nanosecond: u32,
    time_zone: i16,
) -> Option<TimeError> {
    if !(1900 <= year && year <= 9999) {
        Some(TimeError::Year)
    } else if !(1 <= month && month <= 12) {
        Some(TimeError::Month)
    } else if !(1 <= day && day <= 31) {
        Some(TimeError::Day)
    } else if hour > 23 {
        Some(TimeError::Hour)
    } else if minute > 59 {
        Some(TimeError::Minute)
    } else if second > 59 {
        Some(TimeError::Second)
    } else if nanosecond > 999_999_999 {
        Some(TimeError::Nanosecond)
    } else if !valid_time_zone(time_zone) {
        Some(TimeError::TimeZone)
    } else {
        None
    }
}

impl Time {
    /// Every field is in its range.
    pub open spec fn wf(&self) -> bool {
        let f = self.spec_fields();
        first_invalid_field(f.0, f.1, f.2, f.3, f.4, f.5, f.6, f.7) is None
    }

    pub closed spec fn spec_fields(&self) -> (u16, u8, u8, u8, u8, u8, u32, i16, Daylight) {
        (
            self.year,
            self.month,
            self.day,
            self.hour,
            self.minute,
            self.second,
            self.nanosecond,
            self.time_zone,
            self.daylight,
        )
    }

    /// Builds a time, or names the first field that is out of range: the year
    /// must be in 1900..=9999, the month in 1..=12, the day in 1..=31, the hour
    /// at most 23, the minute and second at most 59, the nanosecond at most
    /// 999_999_999, and the time zone in -1440..=1440 or 2047 (unspecified).
    pub fn new(
        year: u16,
        month: u8,
        day: u8,
        hour: u8,
        minute: u8,
        second: u8,
        nanosecond: u32,
        time_zone: i16,
        daylight: Daylight,
    ) -> (r: Result<Time, TimeError>)
        ensures
            r is Err <==> first_invalid_field(
                year,
                month,
                day,
                hour,
                minute,
                second,
                nanosecond,
                time_zone,
            ) is Some,
            r is Err ==> Some(r->Err_0) == first_invalid_field(
                year,
                month,
                day,
                hour,
                minute,
                second,
                nanosecond,
                time_zone,
            ),
            r is Ok ==> r->Ok_0.wf() && r->Ok_0.spec_fields() == (
                year,
                month,
                day,
                hour,
                minute,
                second,
                nanosecond,
                time_zone,
                daylight,
            ),
    {
        if !(1900 <= year && year <= 9999) {
            Err(TimeError::Year)
        } else if !(1 <= month && month <= 12) {
            Err(TimeError::Month)
        } else if !(1 <= day && day <= 31) {
            Err(TimeError::Day)
        } else if hour > 23 {
            Err(TimeError::Hour)
        } else if minute > 59 {
            Err(TimeError::Minute)
        } else if second > 59 {
            Err(TimeError::Second)
        } else if nanosecond > 999_999_999 {
            Err(TimeError::Nanosecond)
        } else if !((-1440 <= time_zone && time_zone <= 1440) || time_zone
            == UNSPECIFIED_TIMEZONE) {
            Err(TimeError::TimeZone)
        } else {
            Ok(
                Time {
                    year,
                    month,
                    day,
                    hour,
                    minute,
                    second,
                    nanosecond,
                    time_zone,
                    daylight,
                },
            )
        }
    }

    /// The year.
    pub fn year(&self) -> (r: u16)
        ensures
            r == self.spec_fields().0,
    {
        self.year
    }

    /// The month, from 1.
    pub fn month(&self) -> (r: u8)
        ensures
            r == self.spec_fields().1,
    {
        self.month
    }

    /// The day of the month, from 1.
    pub fn day(&self) -> (r: u8)
        ensures
            r == self.spec_fields().2,
    {
        self.day
    }

    /// The hour.
    pub fn hour(&self) -> (r: u8)
        ensures
            r == self.spec_fields().3,
    {
        self.hour
    }

    /// The minute.
    pub fn minute(&self) -> (r: u8)
        ensures
            r == self.spec_fields().4,
    {
        self.minute
    }

    /// The second.
    pub fn second(&self) -> (r: u8)
        ensures
            r == self.spec_fields().5,
    {
        self.second
    }

    /// The nanosecond.
    pub fn nanosecond(&self) -> (r: u32)
        ensures
            r == self.spec_fields().6,
    {
        self.nanosecond
    }

    /// The offset from UTC in minutes, or `None` when the time is local time
    /// with no offset given.
    pub fn time_zone(&self) -> (r: Option<i16>)
        ensures
            self.spec_fields().7 == UNSPECIFIED_TIMEZONE ==> r is None,
            self.spec_fields().7 != UNSPECIFIED_TIMEZONE ==> r == Some(self.spec_fields().7),
    {
        if self.time_zone == UNSPECIFIED_TIMEZONE {
            None
        } else {
            Some(self.time_zone)
        }
    }

    /// The daylight-saving information.
    pub fn daylight(&self) -> (r: Daylight)
        ensures
            r == self.spec_fields().8,
    {
        self.daylight
    }
}

/// Construction accepts a time exactly when every field is in its range, and
/// then keeps every field as given. In particular a month of 13, an hour of 24
/// or a time zone of 1500 is refused, while a time zone of 2047 or -1440 is
/// accepted.
pub proof fn lemma_time_ranges(
    year: u16,
    month: u8,
    day: u8,
    hour: u8,
    minute: u8,
    second: u8,
    nanosecond: u32,
    time_zone: i16,
)
    ensures
        first_invalid_field(year, month, day, hour, minute, second, nanosecond, time_zone) is None
            <==> (1900 <= year <= 9999 && 1 <= month <= 12 && 1 <= day <= 31 && hour <= 23
            && minute <= 59 && second <= 59 && nanosecond <= 999_999_999 && valid_time_zone(
            time_zone,
        )),
        month == 13 ==> first_invalid_field(
            year,
            month,
            day,
            hour,
            minute,
            second,
            nanosecond,
            time_zone,
        ) is Some,
        hour == 24 ==> first_invalid_field(
            year,
            month,
            day,
            hour,
            minute,
            second,
            nanosecond,
            time_zone,
        ) is Some,
        time_zone == 1500 ==> first_invalid_field(
            year,
            month,
            day,
            hour,
            minute,
            second,
            nanosecond,
            time_zone,
        ) is Some,
        valid_time_zone(2047i16) && valid_time_zone(-1440i16),
{
}

/// The capabilities of the real-time clock.
#[derive(Clone, Copy, Debug, PartialEq, Eq, Structural)]
pub struct TimeCapabilities {
    /// Resolution of the clock in counts per second.
    pub resolution: u32,
    /// Accuracy of the clock in units of 1e-6 parts per million.
    pub accuracy: u32,
    /// Whether setting the time clears the time below the resolution.
    pub sets_to_zero: bool,
}

/// The kind of system reset.
#[derive(Clone, Copy, Debug, PartialEq, Eq, Structural)]
pub enum ResetType {
    /// All circuitry goes back to its initial state, as by a power cycle.
    Cold,
    /// The processor goes back to its initial state.
    Warm,
    /// The components are powered off.
    Shutdown,
    /// A reset whose data is a NUL-terminated string followed by an identifier;
    /// the encoding of that string is not fixed by the firmware interface.
    PlatformSpecific,
}

impl ResetType {
    /// The code that the firmware takes for this kind of reset.
    pub fn code(self) -> (r: u32)
        ensures
            self is Cold ==> r == 0,
            self is Warm ==> r == 1,
            self is Shutdown ==> r == 2,
            self is PlatformSpecific ==> r == 3,
    {
        match self {
            ResetType::Cold => 0,
            ResetType::Warm => 1,
            ResetType::Shutdown => 2,
            ResetType::PlatformSpecific => 3,
        }
    }
}

} // verus!
