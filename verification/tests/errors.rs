//! Mapping of native status codes to structured errors.

use discord_game_sdk::error::{completion_result, status_to_result, Error};

#[test]
fn zero_is_success() {
    assert_eq!(status_to_result(0), Ok(()));
}

#[test]
fn not_found_round_trip() {
    // The known "not found" native status maps to the bare not-found kind:
    // no payload is preserved or invented.
    let e = Error::from_status(9);
    assert_eq!(e, Error::NotFound);
    assert!(matches!(e, Error::NotFound));
    assert_eq!(status_to_result(9), Err(Error::NotFound));
}

#[test]
fn session_gone_maps_to_not_running() {
    assert_eq!(status_to_result(27), Err(Error::NotRunning));
}

#[test]
fn documented_codes_map_to_their_kinds() {
    assert_eq!(Error::from_status(1), Error::ServiceUnavailable);
    assert_eq!(Error::from_status(2), Error::InvalidVersion);
    assert_eq!(Error::from_status(4), Error::Internal);
    assert_eq!(Error::from_status(5), Error::InvalidPayload);
    assert_eq!(Error::from_status(6), Error::InvalidCommand);
    assert_eq!(Error::from_status(21), Error::LobbyFull);
    assert_eq!(Error::from_status(28), Error::InsufficientBuffer);
    assert_eq!(Error::from_status(34), Error::RateLimited);
    assert_eq!(Error::from_status(43), Error::TransactionAborted);
}

#[test]
fn completions_map_status_and_payload() {
    assert_eq!(completion_result(0, 1234i64), Ok(1234));
    // A failing completion keeps no partial payload.
    assert_eq!(completion_result(9, 1234i64), Err(Error::NotFound));
}

#[test]
fn undocumented_codes_are_preserved_verbatim() {
    assert_eq!(Error::from_status(44), Error::Undefined(44));
    assert_eq!(Error::from_status(-3), Error::Undefined(-3));
    assert_eq!(status_to_result(1000), Err(Error::Undefined(1000)));
}
