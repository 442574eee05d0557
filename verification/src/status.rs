//! The uniform failure contract of the layer: a closed enumeration of the
//! engine's numeric result codes, with a verified round trip between the
//! enumeration and the numeric form.

use vstd::prelude::*;

verus! {

/// Outcome of an engine operation.
///
/// `Success` is the only non-error variant. `LastStatus` is a sentinel:
/// it counts the valid codes and is the fallback for unrecognized numeric
/// codes; the engine never reports it as a genuine outcome.
#[derive(Debug, Clone, Copy, PartialEq, Eq, Structural)]
pub enum Status {
    /// No error occurred.
    Success,
    /// Out of memory.
    OutOfMemory,
    /// An attempt was made to write to a database opened in read-only mode.
    ReadOnlyDatabase,
    /// An exception occurred inside the engine's index.
    XapianException,
    /// An error occurred trying to read or write to a file.
    FileError,
    /// A file was presented that doesn't appear to be an email message.
    FileNotEmail,
    /// A file contains a message ID identical to a message already in the database.
    DuplicateMessageId,
    /// A null argument was erroneously passed to an engine function.
    NullPointer,
    /// A tag value is too long.
    TagTooLong,
    /// Thaw was called more times than freeze.
    UnbalancedFreezeThaw,
    /// An atomic section was ended more times than it was begun.
    UnbalancedAtomic,
    /// The operation is not supported.
    UnsupportedOperation,
    /// The operation requires a database upgrade.
    UpgradeRequired,
    /// There is a problem with the proposed path.
    PathError,
    /// The requested operation was ignored.
    Ignored,
    /// One of the arguments violates the preconditions for the function.
    IllegalArgument,
    /// A MIME object claimed cryptographic protection under an unintelligible protocol.
    MalformedCryptoProtocol,
    /// The engine could not initialize the machinery needed for crypto processing.
    FailedCryptoContextCreation,
    /// A MIME object claimed cryptographic protection under an unknown protocol.
    UnknownCryptoProtocol,
    /// Unable to load a config file.
    NoConfig,
    /// Unable to load a database.
    NoDatabase,
    /// Database exists, so it was not (re-)created.
    DatabaseExists,
    /// Not an actual status value: the count of valid statuses, used only
    /// for range checking and as the image of unrecognized codes.
    LastStatus,
}

impl Status {
    /// The engine's numeric representation of this status.
    pub open spec fn as_code(self) -> int {
        match self {
            Status::Success => 0,
            Status::OutOfMemory => 1,
            Status::ReadOnlyDatabase => 2,
            Status::XapianException => 3,
            Status::FileError => 4,
            Status::FileNotEmail => 5,
            Status::DuplicateMessageId => 6,
            Status::NullPointer => 7,
            Status::TagTooLong => 8,
            Status::UnbalancedFreezeThaw => 9,
            Status::UnbalancedAtomic => 10,
            Status::UnsupportedOperation => 11,
            Status::UpgradeRequired => 12,
            Status::PathError => 13,
            Status::Ignored => 14,
            Status::IllegalArgument => 15,
            Status::MalformedCryptoProtocol => 16,
            Status::FailedCryptoContextCreation => 17,
            Status::UnknownCryptoProtocol => 18,
            Status::NoConfig => 19,
            Status::NoDatabase => 20,
            Status::DatabaseExists => 21,
            Status::LastStatus => 22,
        }
    }

    /// The status a numeric engine code denotes. Codes outside the valid
    /// range fall back to the sentinel, never to a genuine outcome.
    pub open spec fn of_code(code: int) -> Status {
        if code == 0 {
            Status::Success
        } else if code == 1 {
            Status::OutOfMemory
        } else if code == 2 {
            Status::ReadOnlyDatabase
        } else if code == 3 {
            Status::XapianException
        } else if code == 4 {
            Status::FileError
        } else if code == 5 {
            Status::FileNotEmail
        } else if code == 6 {
            Status::DuplicateMessageId
        } else if code == 7 {
            Status::NullPointer
        } else if code == 8 {
            Status::TagTooLong
        } else if code == 9 {
            Status::UnbalancedFreezeThaw
        } else if code == 10 {
            Status::UnbalancedAtomic
        } else if code == 11 {
            Status::UnsupportedOperation
        } else if code == 12 {
            Status::UpgradeRequired
        } else if code == 13 {
            Status::PathError
        } else if code == 14 {
            Status::Ignored
        } else if code == 15 {
            Status::IllegalArgument
        } else if code == 16 {
            Status::MalformedCryptoProtocol
        } else if code == 17 {
            Status::FailedCryptoContextCreation
        } else if code == 18 {
            Status::UnknownCryptoProtocol
        } else if code == 19 {
            Status::NoConfig
        } else if code == 20 {
            Status::NoDatabase
        } else if code == 21 {
            Status::DatabaseExists
        } else {
            Status::LastStatus
        }
    }

    /// Map a numeric code reported by the engine to its status.
    /// Unrecognized codes map to the sentinel; no code causes a failure.
    pub fn from_code(code: u32) -> (s: Status)
        ensures
            s == Status::of_code(code as int),
    {
        match code {
            0 => Status::Success,
            1 => Status::OutOfMemory,
            2 => Status::ReadOnlyDatabase,
            3 => Status::XapianException,
            4 => Status::FileError,
            5 => Status::FileNotEmail,
            6 => Status::DuplicateMessageId,
            7 => Status::NullPointer,
            8 => Status::TagTooLong,
            9 => Status::UnbalancedFreezeThaw,
            10 => Status::UnbalancedAtomic,
            11 => Status::UnsupportedOperation,
            12 => Status::UpgradeRequired,
            13 => Status::PathError,
            14 => Status::Ignored,
            15 => Status::IllegalArgument,
            16 => Status::MalformedCryptoProtocol,
            17 => Status::FailedCryptoContextCreation,
            18 => Status::UnknownCryptoProtocol,
            19 => Status::NoConfig,
            20 => Status::NoDatabase,
            21 => Status::DatabaseExists,
            _ => Status::LastStatus,
        }
    }

    /// The numeric code that represents this status to the engine.
    pub fn code(self) -> (c: u32)
        ensures
            c as int == self.as_code(),
    {
        match self {
            Status::Success => 0,
            Status::OutOfMemory => 1,
            Status::ReadOnlyDatabase => 2,
            Status::XapianException => 3,
            Status::FileError => 4,
            Status::FileNotEmail => 5,
            Status::DuplicateMessageId => 6,
            Status::NullPointer => 7,
            Status::TagTooLong => 8,
            Status::UnbalancedFreezeThaw => 9,
            Status::UnbalancedAtomic => 10,
            Status::UnsupportedOperation => 11,
            Status::UpgradeRequired => 12,
            Status::PathError => 13,
            Status::Ignored => 14,
            Status::IllegalArgument => 15,
            Status::MalformedCryptoProtocol => 16,
            Status::FailedCryptoContextCreation => 17,
            Status::UnknownCryptoProtocol => 18,
            Status::NoConfig => 19,
            Status::NoDatabase => 20,
            Status::DatabaseExists => 21,
            Status::LastStatus => 22,
        }
    }

    /// Whether this status reports success.
    pub fn is_success(self) -> (b: bool)
        ensures
            b <==> self == Status::Success,
    {
        matches!(self, Status::Success)
    }

    /// Round trip: converting any status to its numeric code and back
    /// yields the same status.
    pub proof fn lemma_code_round_trip(s: Status)
        ensures
            Status::of_code(s.as_code()) == s,
    {
    }

    /// Every numeric code outside the range of genuine outcomes maps to
    /// the sentinel, so an unrecognized engine reply can never be mistaken
    /// for a genuine outcome.
    pub proof fn lemma_unknown_code_is_sentinel(code: int)
        requires
            !(0 <= code < 22),
        ensures
            Status::of_code(code) == Status::LastStatus,
    {
    }
}

} // verus!
