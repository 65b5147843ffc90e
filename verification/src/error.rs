//! Mapping of native status codes to structured errors.
//!
//! Every call across the C ABI returns an integer status. Status `0` means
//! success; every other value names a failure condition. [`status_to_result`]
//! is the single place where a raw status becomes a typed outcome, so that no
//! caller ever inspects a bare integer.

use vstd::prelude::*;

verus! {

/// A failure reported by the native layer.
///
/// One variant per documented nonzero status code; a code outside the
/// documented range is preserved verbatim in [`Error::Undefined`], never
/// silently collapsed.
#[derive(Clone, Copy, Debug, PartialEq, Eq, Hash, Structural)]
pub enum Error {
    ServiceUnavailable,
    InvalidVersion,
    LockFailed,
    Internal,
    InvalidPayload,
    InvalidCommand,
    InvalidPermissions,
    NotFetched,
    NotFound,
    Conflict,
    InvalidSecret,
    InvalidJoinSecret,
    NoEligibleActivity,
    InvalidInvite,
    NotAuthenticated,
    InvalidAccessToken,
    ApplicationMismatch,
    InvalidDataUrl,
    InvalidBase64,
    NotFiltered,
    LobbyFull,
    InvalidLobbySecret,
    InvalidFilename,
    InvalidFileSize,
    InvalidEntitlement,
    NotInstalled,
    NotRunning,
    InsufficientBuffer,
    PurchaseCanceled,
    InvalidGuild,
    InvalidEvent,
    InvalidChannel,
    InvalidOrigin,
    RateLimited,
    OAuth2Error,
    SelectChannelTimeout,
    GetGuildTimeout,
    SelectVoiceForceRequired,
    CaptureShortcutAlreadyListening,
    UnauthorizedForAchievement,
    InvalidGiftCode,
    PurchaseError,
    TransactionAborted,
    /// A status code with no documented meaning, kept as received.
    Undefined(i32),
}

/// The error that a given nonzero native status denotes.
pub open spec fn spec_error_of(status: i32) -> Error {
    if status == 1i32 {
        Error::ServiceUnavailable
    } else if status == 2i32 {
        Error::InvalidVersion
    } else if status == 3i32 {
        Error::LockFailed
    } else if status == 4i32 {
        Error::Internal
    } else if status == 5i32 {
        Error::InvalidPayload
    } else if status == 6i32 {
        Error::InvalidCommand
    } else if status == 7i32 {
        Error::InvalidPermissions
    } else if status == 8i32 {
        Error::NotFetched
    } else if status == 9i32 {
        Error::NotFound
    } else if status == 10i32 {
        Error::Conflict
    } else if status == 11i32 {
        Error::InvalidSecret
    } else if status == 12i32 {
        Error::InvalidJoinSecret
    } else if status == 13i32 {
        Error::NoEligibleActivity
    } else if status == 14i32 {
        Error::InvalidInvite
    } else if status == 15i32 {
        Error::NotAuthenticated
    } else if status == 16i32 {
        Error::InvalidAccessToken
    } else if status == 17i32 {
        Error::ApplicationMismatch
    } else if status == 18i32 {
        Error::InvalidDataUrl
    } else if status == 19i32 {
        Error::InvalidBase64
    } else if status == 20i32 {
        Error::NotFiltered
    } else if status == 21i32 {
        Error::LobbyFull
    } else if status == 22i32 {
        Error::InvalidLobbySecret
    } else if status == 23i32 {
        Error::InvalidFilename
    } else if status == 24i32 {
        Error::InvalidFileSize
    } else if status == 25i32 {
        Error::InvalidEntitlement
    } else if status == 26i32 {
        Error::NotInstalled
    } else if status == 27i32 {
        Error::NotRunning
    } else if status == 28i32 {
        Error::InsufficientBuffer
    } else if status == 29i32 {
        Error::PurchaseCanceled
    } else if status == 30i32 {
        Error::InvalidGuild
    } else if status == 31i32 {
        Error::InvalidEvent
    } else if status == 32i32 {
        Error::InvalidChannel
    } else if status == 33i32 {
        Error::InvalidOrigin
    } else if status == 34i32 {
        Error::RateLimited
    } else if status == 35i32 {
        Error::OAuth2Error
    } else if status == 36i32 {
        Error::SelectChannelTimeout
    } else if status == 37i32 {
        Error::GetGuildTimeout
    } else if status == 38i32 {
        Error::SelectVoiceForceRequired
    } else if status == 39i32 {
        Error::CaptureShortcutAlreadyListening
    } else if status == 40i32 {
        Error::UnauthorizedForAchievement
    } else if status == 41i32 {
        Error::InvalidGiftCode
    } else if status == 42i32 {
        Error::PurchaseError
    } else if status == 43i32 {
        Error::TransactionAborted
    } else {
        Error::Undefined(status)
    }
}

/// The outcome that a raw native status denotes: success exactly for `0`.
pub open spec fn spec_result_of(status: i32) -> Result<(), Error> {
    if status == 0i32 {
        Ok(())
    } else {
        Err(spec_error_of(status))
    }
}

impl Error {
    /// Builds the error that a nonzero native status denotes.
    pub fn from_status(status: i32) -> (e: Error)
        requires
            status != 0i32,
        ensures
            e == spec_error_of(status),
    {
        if status == 1 {
            Error::ServiceUnavailable
        } else if status == 2 {
            Error::InvalidVersion
        } else if status == 3 {
            Error::LockFailed
        } else if status == 4 {
            Error::Internal
        } else if status == 5 {
            Error::InvalidPayload
        } else if status == 6 {
            Error::InvalidCommand
        } else if status == 7 {
            Error::InvalidPermissions
        } else if status == 8 {
            Error::NotFetched
        } else if status == 9 {
            Error::NotFound
        } else if status == 10 {
            Error::Conflict
        } else if status == 11 {
            Error::InvalidSecret
        } else if status == 12 {
            Error::InvalidJoinSecret
        } else if status == 13 {
            Error::NoEligibleActivity
        } else if status == 14 {
            Error::InvalidInvite
        } else if status == 15 {
            Error::NotAuthenticated
        } else if status == 16 {
            Error::InvalidAccessToken
        } else if status == 17 {
            Error::ApplicationMismatch
        } else if status == 18 {
            Error::InvalidDataUrl
        } else if status == 19 {
            Error::InvalidBase64
        } else if status == 20 {
            Error::NotFiltered
        } else if status == 21 {
            Error::LobbyFull
        } else if status == 22 {
            Error::InvalidLobbySecret
        } else if status == 23 {
            Error::InvalidFilename
        } else if status == 24 {
            Error::InvalidFileSize
        } else if status == 25 {
            Error::InvalidEntitlement
        } else if status == 26 {
            Error::NotInstalled
        } else if status == 27 {
            Error::NotRunning
        } else if status == 28 {
            Error::InsufficientBuffer
        } else if status == 29 {
            Error::PurchaseCanceled
        } else if status == 30 {
            Error::InvalidGuild
        } else if status == 31 {
            Error::InvalidEvent
        } else if status == 32 {
            Error::InvalidChannel
        } else if status == 33 {
            Error::InvalidOrigin
        } else if status == 34 {
            Error::RateLimited
        } else if status == 35 {
            Error::OAuth2Error
        } else if status == 36 {
            Error::SelectChannelTimeout
        } else if status == 37 {
            Error::GetGuildTimeout
        } else if status == 38 {
            Error::SelectVoiceForceRequired
        } else if status == 39 {
            Error::CaptureShortcutAlreadyListening
        } else if status == 40 {
            Error::UnauthorizedForAchievement
        } else if status == 41 {
            Error::InvalidGiftCode
        } else if status == 42 {
            Error::PurchaseError
        } else if status == 43 {
            Error::TransactionAborted
        } else {
            Error::Undefined(status)
        }
    }
}

/// Converts a native completion into the mapped domain outcome: the payload
/// exactly when the status is `0`, the mapped error otherwise. The
/// one-argument callback shape is [`status_to_result`]; this is the
/// two-argument shape, for completions that deliver a payload beside the
/// status.
pub fn completion_result<T>(status: i32, payload: T) -> (r: Result<T, Error>)
    ensures
        status == 0i32 ==> r == Ok::<T, Error>(payload),
        status != 0i32 ==> r == Err::<T, Error>(spec_error_of(status)),
{
    if status == 0 {
        Ok(payload)
    } else {
        Err(Error::from_status(status))
    }
}

/// Checks a raw native status: `Ok` exactly for `0`, the mapped error
/// otherwise.
pub fn status_to_result(status: i32) -> (r: Result<(), Error>)
    ensures
        r == spec_result_of(status),
        r is Ok <==> status == 0i32,
{
    if status == 0 {
        Ok(())
    } else {
        Err(Error::from_status(status))
    }
}

} // verus!
