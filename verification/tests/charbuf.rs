//! The fixed-capacity text buffer adapter: termination on the way in,
//! decoding on the way out.

use discord_game_sdk::charbuf::{
    bytes_eq, charbuf_decode, charbuf_len, copy_bytes, nul_terminated, LOBBY_SECRET_CAPACITY,
    METADATA_KEY_CAPACITY, METADATA_VALUE_CAPACITY, TERMINATOR,
};

#[test]
fn unterminated_text_gains_exactly_one_terminator() {
    let text = b"hello".to_vec();
    let out = nul_terminated(&text);
    assert_eq!(out, b"hello\0".to_vec());
    // The caller's buffer is unchanged in length and contents.
    assert_eq!(text, b"hello".to_vec());
}

#[test]
fn terminated_text_is_returned_unchanged() {
    let text = b"hello\0".to_vec();
    let out = nul_terminated(&text);
    assert_eq!(out, b"hello\0".to_vec());
    assert_eq!(text, b"hello\0".to_vec());
}

#[test]
fn termination_is_idempotent() {
    let once = nul_terminated(&b"abc".to_vec());
    let twice = nul_terminated(&once);
    assert_eq!(once, twice);
}

#[test]
fn empty_text_becomes_a_lone_terminator() {
    let out = nul_terminated(&Vec::new());
    assert_eq!(out, vec![TERMINATOR]);
}

#[test]
fn interior_terminator_does_not_count_as_ending() {
    let out = nul_terminated(&b"a\0b".to_vec());
    assert_eq!(out, b"a\0b\0".to_vec());
}

#[test]
fn decode_stops_at_first_terminator() {
    let buf = b"net\0rest of the capacity".to_vec();
    assert_eq!(charbuf_decode(&buf), b"net".to_vec());
    assert_eq!(charbuf_len(&buf), 3);
}

#[test]
fn decode_without_terminator_takes_the_whole_buffer() {
    let buf = b"full".to_vec();
    assert_eq!(charbuf_decode(&buf), b"full".to_vec());
    assert_eq!(charbuf_len(&buf), 4);
}

#[test]
fn decode_of_empty_and_all_zero_buffers() {
    assert_eq!(charbuf_decode(&Vec::new()), Vec::<u8>::new());
    assert_eq!(charbuf_decode(&vec![0u8; 16]), Vec::<u8>::new());
    assert_eq!(charbuf_len(&vec![0u8; 16]), 0);
}

#[test]
fn round_trip_through_a_buffer() {
    let text = b"secret".to_vec();
    let sent = nul_terminated(&text);
    assert_eq!(charbuf_decode(&sent), text);
}

#[test]
fn copy_and_compare_helpers() {
    let a = b"xyz".to_vec();
    let b = copy_bytes(&a);
    assert_eq!(a, b);
    assert!(bytes_eq(&a, &b));
    assert!(!bytes_eq(&a, &b"xy".to_vec()));
    assert!(!bytes_eq(&a, &b"xyw".to_vec()));
}

#[test]
fn field_capacities_match_the_native_layout() {
    assert_eq!(METADATA_KEY_CAPACITY, 256);
    assert_eq!(METADATA_VALUE_CAPACITY, 4096);
    assert_eq!(LOBBY_SECRET_CAPACITY, 128);
}
