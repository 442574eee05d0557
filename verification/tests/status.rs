//! The status codec: round trips and the sentinel fallback.

use notmuch_rs::status::Status;

const ALL: [Status; 23] = [
    Status::Success,
    Status::OutOfMemory,
    Status::ReadOnlyDatabase,
    Status::XapianException,
    Status::FileError,
    Status::FileNotEmail,
    Status::DuplicateMessageId,
    Status::NullPointer,
    Status::TagTooLong,
    Status::UnbalancedFreezeThaw,
    Status::UnbalancedAtomic,
    Status::UnsupportedOperation,
    Status::UpgradeRequired,
    Status::PathError,
    Status::Ignored,
    Status::IllegalArgument,
    Status::MalformedCryptoProtocol,
    Status::FailedCryptoContextCreation,
    Status::UnknownCryptoProtocol,
    Status::NoConfig,
    Status::NoDatabase,
    Status::DatabaseExists,
    Status::LastStatus,
];

/// Round-tripping every variant through the numeric conversion yields
/// the original variant.
#[test]
fn status_round_trip_all() {
    for s in ALL {
        assert_eq!(s, Status::from_code(s.code()));
    }
}

/// The numeric codes are distinct and dense: each genuine outcome has
/// its own code below the sentinel's.
#[test]
fn status_codes_dense() {
    for (i, s) in ALL.iter().enumerate() {
        assert_eq!(i as u32, s.code());
    }
}

/// Unrecognized numeric codes always map to the sentinel, never to a
/// genuine outcome and never to a failure.
#[test]
fn status_unknown_codes_map_to_sentinel() {
    assert_eq!(Status::LastStatus, Status::from_code(22));
    assert_eq!(Status::LastStatus, Status::from_code(23));
    assert_eq!(Status::LastStatus, Status::from_code(1000));
    assert_eq!(Status::LastStatus, Status::from_code(u32::MAX));
}

/// Success is the one non-error variant.
#[test]
fn status_is_success() {
    assert!(Status::Success.is_success());
    for s in ALL.iter().skip(1) {
        assert!(!s.is_success());
    }
}
