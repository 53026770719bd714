//! Firmware status codes, capability identifiers, handles and timestamps.

use vstd::prelude::*;
use crate::bytes::{read_u8, read_u16, read_u32, le_value};

verus! {

/// The bit that marks a status code as an error (64-bit firmware).
pub const ERROR_BIT: u64 = 0x8000_0000_0000_0000;

/// The outcome of a firmware call. The common error codes have variants of
/// their own; every other code is kept in `Error` or `Warning` so that no
/// information is lost.
#[derive(Clone, Copy, Debug, PartialEq, Eq, Structural)]
pub enum Status {
    Success,
    LoadError,
    InvalidParameter,
    Unsupported,
    BadBufferSize,
    BufferTooSmall,
    NotReady,
    DeviceError,
    WriteProtected,
    OutOfResources,
    NotFound,
    AccessDenied,
    /// Another error code, with the error bit cleared.
    Error(u64),
    /// A non-zero code without the error bit.
    Warning(u64),
}

/// The status that the raw firmware code `code` stands for.
pub open spec fn status_of(code: u64) -> Status {
    if code == 0 {
        Status::Success
    } else if code < ERROR_BIT {
        Status::Warning(code)
    } else {
        let n = (code - ERROR_BIT) as u64;
        if n == 1 {
            Status::LoadError
        } else if n == 2 {
            Status::InvalidParameter
        } else if n == 3 {
            Status::Unsupported
        } else if n == 4 {
            Status::BadBufferSize
        } else if n == 5 {
            Status::BufferTooSmall
        } else if n == 6 {
            Status::NotReady
        } else if n == 7 {
            Status::DeviceError
        } else if n == 8 {
            Status::WriteProtected
        } else if n == 9 {
            Status::OutOfResources
        } else if n == 14 {
            Status::NotFound
        } else if n == 15 {
            Status::AccessDenied
        } else {
            Status::Error(n)
        }
    }
}

/// A status is well formed when it has one representation only: the payload
/// of `Error` and `Warning` is not a code that has a variant of its own.
pub open spec fn status_wf(s: Status) -> bool {
    match s {
        Status::Error(n) => n < ERROR_BIT && !(1 <= n <= 9 || n == 14 || n == 15),
        Status::Warning(n) => 0 < n < ERROR_BIT,
        _ => true,
    }
}

/// The payload of `Error` and `Warning` leaves the error bit free, so the
/// status has a raw code.
pub open spec fn status_fits(s: Status) -> bool {
    match s {
        Status::Error(n) => n < ERROR_BIT,
        Status::Warning(n) => n < ERROR_BIT,
        _ => true,
    }
}

/// The raw firmware code of a status.
pub open spec fn code_of(s: Status) -> u64 {
    match s {
        Status::Success => 0,
        Status::LoadError => (ERROR_BIT + 1) as u64,
        Status::InvalidParameter => (ERROR_BIT + 2) as u64,
        Status::Unsupported => (ERROR_BIT + 3) as u64,
        Status::BadBufferSize => (ERROR_BIT + 4) as u64,
        Status::BufferTooSmall => (ERROR_BIT + 5) as u64,
        Status::NotReady => (ERROR_BIT + 6) as u64,
        Status::DeviceError => (ERROR_BIT + 7) as u64,
        Status::WriteProtected => (ERROR_BIT + 8) as u64,
        Status::OutOfResources => (ERROR_BIT + 9) as u64,
        Status::NotFound => (ERROR_BIT + 14) as u64,
        Status::AccessDenied => (ERROR_BIT + 15) as u64,
        Status::Error(n) => (ERROR_BIT + n) as u64,
        Status::Warning(n) => n,
    }
}

impl Status {
    /// Decodes a raw firmware status code.
    pub fn from_code(code: u64) -> (r: Status)
        ensures
            r == status_of(code),
            status_wf(r),
            status_fits(r),
            code_of(r) == code,
    {
        if code == 0 {
            Status::Success
        } else if code < ERROR_BIT {
            Status::Warning(code)
        } else {
            let n = code - ERROR_BIT;
            if n == 1 {
                Status::LoadError
            } else if n == 2 {
                Status::InvalidParameter
            } else if n == 3 {
                Status::Unsupported
            } else if n == 4 {
                Status::BadBufferSize
            } else if n == 5 {
                Status::BufferTooSmall
            } else if n == 6 {
                Status::NotReady
            } else if n == 7 {
                Status::DeviceError
            } else if n == 8 {
                Status::WriteProtected
            } else if n == 9 {
                Status::OutOfResources
            } else if n == 14 {
                Status::NotFound
            } else if n == 15 {
                Status::AccessDenied
            } else {
                Status::Error(n)
            }
        }
    }

    /// The raw firmware code of this status.
    pub fn code(&self) -> (r: u64)
        requires
            status_fits(*self),
        ensures
            r == code_of(*self),
            status_wf(*self) ==> status_of(r) == *self,
    {
        match *self {
            Status::Success => 0,
            Status::LoadError => ERROR_BIT + 1,
            Status::InvalidParameter => ERROR_BIT + 2,
            Status::Unsupported => ERROR_BIT + 3,
            Status::BadBufferSize => ERROR_BIT + 4,
            Status::BufferTooSmall => ERROR_BIT + 5,
            Status::NotReady => ERROR_BIT + 6,
            Status::DeviceError => ERROR_BIT + 7,
            Status::WriteProtected => ERROR_BIT + 8,
            Status::OutOfResources => ERROR_BIT + 9,
            Status::NotFound => ERROR_BIT + 14,
            Status::AccessDenied => ERROR_BIT + 15,
            Status::Error(n) => ERROR_BIT + n,
            Status::Warning(n) => n,
        }
    }

    pub fn is_success(&self) -> (r: bool)
        ensures
            r == (*self == Status::Success),
    {
        match *self {
            Status::Success => true,
            _ => false,
        }
    }
}

/// A 128-bit globally unique identifier, laid out as (32, 16, 16, 8 x 8) bits.
/// It names a capability (protocol) or a configuration-table entry.
#[derive(Clone, Copy, Debug, PartialEq, Eq, Structural)]
pub struct Guid(pub u32, pub u16, pub u16, pub u8, pub u8, pub u8, pub u8, pub u8, pub u8, pub u8, pub u8);

/// An opaque firmware-assigned token for a firmware object.
#[derive(Clone, Copy, Debug, PartialEq, Eq, Structural)]
pub struct Handle {
    address: u64,
}

impl Handle {
    pub closed spec fn spec_address(&self) -> u64 {
        self.address
    }

    /// Wraps the token that the firmware handed out.
    pub fn from_address(address: u64) -> (r: Handle)
        ensures
            r.spec_address() == address,
    {
        Handle { address }
    }

    /// The firmware's token, to be handed back to it unchanged.
    pub fn address(&self) -> (r: u64)
        ensures
            r == self.spec_address(),
    {
        self.address
    }
}

/// The size in bytes of a firmware timestamp record.
pub const TIME_SIZE: usize = 16;

/// A firmware timestamp, as the firmware stores it.
#[derive(Clone, Copy, Debug, PartialEq, Eq, Structural)]
pub struct Time {
    pub year: u16,
    pub month: u8,
    pub day: u8,
    pub hour: u8,
    pub minute: u8,
    pub second: u8,
    pub nanosecond: u32,
    pub time_zone: i16,
    pub daylight: u8,
}

/// The timestamp that the 16 bytes of `b` from `at` encode.
pub open spec fn time_at(b: Seq<u8>, at: int) -> Time {
    Time {
        year: le_value(b, at, 2) as u16,
        month: b[at + 2],
        day: b[at + 3],
        hour: b[at + 4],
        minute: b[at + 5],
        second: b[at + 6],
        nanosecond: le_value(b, at + 8, 4) as u32,
        time_zone: le_value(b, at + 12, 2) as u16 as i16,
        daylight: b[at + 14],
    }
}

impl Time {
    /// Reads a timestamp record from `b` at offset `at`.
    pub fn read(b: &[u8], at: usize) -> (r: Time)
        requires
            at + TIME_SIZE <= b@.len(),
        ensures
            r == time_at(b@, at as int),
    {
        reveal_with_fuel(le_value, 2);
        let _n = b.len();
        Time {
            year: read_u16(b, at),
            month: read_u8(b, at + 2),
            day: read_u8(b, at + 3),
            hour: read_u8(b, at + 4),
            minute: read_u8(b, at + 5),
            second: read_u8(b, at + 6),
            nanosecond: read_u32(b, at + 8),
            time_zone: #[verifier::truncate] (read_u16(b, at + 12) as i16),
            daylight: read_u8(b, at + 14),
        }
    }
}

} // verus!
