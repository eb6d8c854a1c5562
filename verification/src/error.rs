//! The closed taxonomy of kernel-call failure reasons, bidirectionally
//! convertible to a compact integer for transport. Integers that no
//! defined variant claims decode to `UnknownError`, so a peer speaking a
//! newer revision of the protocol degrades gracefully instead of failing.

use vstd::prelude::*;

verus! {

/// A kernel-call failure reason.
#[derive(Debug, Clone, Copy, PartialEq, Eq)]
pub enum Error {
    NoError,
    BadAlignment,
    BadAddress,
    OutOfMemory,
    MemoryInUse,
    InterruptNotFound,
    InterruptInUse,
    InvalidString,
    ServerExists,
    ServerNotFound,
    ProcessNotFound,
    ProcessNotChild,
    ProcessTerminated,
    Timeout,
    InternalError,
    ServerQueueFull,
    ThreadNotAvailable,
    UnhandledSyscall,
    InvalidSyscall,
    ShareViolation,
    InvalidThread,
    InvalidPID,
    UnknownError,
}

impl Error {
    /// The transport integer of each variant. `UnknownError` is sent as the
    /// all-ones word so that it can never collide with a defined code.
    pub open spec fn code(self) -> usize {
        match self {
            Error::NoError => 0,
            Error::BadAlignment => 1,
            Error::BadAddress => 2,
            Error::OutOfMemory => 3,
            Error::MemoryInUse => 4,
            Error::InterruptNotFound => 5,
            Error::InterruptInUse => 6,
            Error::InvalidString => 7,
            Error::ServerExists => 8,
            Error::ServerNotFound => 9,
            Error::ProcessNotFound => 10,
            Error::ProcessNotChild => 11,
            Error::ProcessTerminated => 12,
            Error::Timeout => 13,
            Error::InternalError => 14,
            Error::ServerQueueFull => 15,
            Error::ThreadNotAvailable => 16,
            Error::UnhandledSyscall => 17,
            Error::InvalidSyscall => 18,
            Error::ShareViolation => 19,
            Error::InvalidThread => 20,
            Error::InvalidPID => 21,
            Error::UnknownError => usize::MAX,
        }
    }

    /// The variant a transport integer decodes to: the defined codes map
    /// back to their variants, every other integer to `UnknownError`.
    pub open spec fn from_code(arg: usize) -> Error {
        if arg == 0 { Error::NoError }
        else if arg == 1 { Error::BadAlignment }
        else if arg == 2 { Error::BadAddress }
        else if arg == 3 { Error::OutOfMemory }
        else if arg == 4 { Error::MemoryInUse }
        else if arg == 5 { Error::InterruptNotFound }
        else if arg == 6 { Error::InterruptInUse }
        else if arg == 7 { Error::InvalidString }
        else if arg == 8 { Error::ServerExists }
        else if arg == 9 { Error::ServerNotFound }
        else if arg == 10 { Error::ProcessNotFound }
        else if arg == 11 { Error::ProcessNotChild }
        else if arg == 12 { Error::ProcessTerminated }
        else if arg == 13 { Error::Timeout }
        else if arg == 14 { Error::InternalError }
        else if arg == 15 { Error::ServerQueueFull }
        else if arg == 16 { Error::ThreadNotAvailable }
        else if arg == 17 { Error::UnhandledSyscall }
        else if arg == 18 { Error::InvalidSyscall }
        else if arg == 19 { Error::ShareViolation }
        else if arg == 20 { Error::InvalidThread }
        else if arg == 21 { Error::InvalidPID }
        else { Error::UnknownError }
    }

    /// Decode a transport integer.
    pub fn from_usize(arg: usize) -> (r: Self)
        ensures
            r == Error::from_code(arg),
    {
        match arg {
            0 => Error::NoError,
            1 => Error::BadAlignment,
            2 => Error::BadAddress,
            3 => Error::OutOfMemory,
            4 => Error::MemoryInUse,
            5 => Error::InterruptNotFound,
            6 => Error::InterruptInUse,
            7 => Error::InvalidString,
            8 => Error::ServerExists,
            9 => Error::ServerNotFound,
            10 => Error::ProcessNotFound,
            11 => Error::ProcessNotChild,
            12 => Error::ProcessTerminated,
            13 => Error::Timeout,
            14 => Error::InternalError,
            15 => Error::ServerQueueFull,
            16 => Error::ThreadNotAvailable,
            17 => Error::UnhandledSyscall,
            18 => Error::InvalidSyscall,
            19 => Error::ShareViolation,
            20 => Error::InvalidThread,
            21 => Error::InvalidPID,
            _ => Error::UnknownError,
        }
    }

    /// Encode for transport.
    pub fn to_usize(&self) -> (r: usize)
        ensures
            r == self.code(),
    {
        match *self {
            Error::NoError => 0,
            Error::BadAlignment => 1,
            Error::BadAddress => 2,
            Error::OutOfMemory => 3,
            Error::MemoryInUse => 4,
            Error::InterruptNotFound => 5,
            Error::InterruptInUse => 6,
            Error::InvalidString => 7,
            Error::ServerExists => 8,
            Error::ServerNotFound => 9,
            Error::ProcessNotFound => 10,
            Error::ProcessNotChild => 11,
            Error::ProcessTerminated => 12,
            Error::Timeout => 13,
            Error::InternalError => 14,
            Error::ServerQueueFull => 15,
            Error::ThreadNotAvailable => 16,
            Error::UnhandledSyscall => 17,
            Error::InvalidSyscall => 18,
            Error::ShareViolation => 19,
            Error::InvalidThread => 20,
            Error::InvalidPID => 21,
            Error::UnknownError => usize::MAX,
        }
    }
}

/// Every variant survives an encode/decode cycle, `UnknownError` included:
/// the defined codes are distinct, and the all-ones word of `UnknownError`
/// is outside the defined range.
pub proof fn lemma_error_round_trip(e: Error)
    ensures
        Error::from_code(e.code()) == e,
{
}

} // verus!
