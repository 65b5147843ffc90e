//! The collection adapter over a mock count + per-index accessor pair.

use discord_game_sdk::collection::Collection;
use discord_game_sdk::error::Error;

/// A mock per-index accessor: reports how often it was invoked and can be
/// configured to fail at one index.
struct MockAccessor {
    calls: usize,
    fail_at: Option<u32>,
}

impl MockAccessor {
    fn new() -> Self {
        MockAccessor { calls: 0, fail_at: None }
    }

    fn failing_at(index: u32) -> Self {
        MockAccessor { calls: 0, fail_at: Some(index) }
    }

    fn fetch(&mut self, index: u32) -> Result<u32, Error> {
        self.calls += 1;
        if self.fail_at == Some(index) {
            Err(Error::NotFound)
        } else {
            Ok(index * 10)
        }
    }
}

/// Drives a forward walk to the end, as the driver around the library does:
/// each yielded item is itself fallible, and the first error terminates the
/// walk.
fn drive_forward(cursor: &mut Collection, accessor: &mut MockAccessor) -> Vec<Result<u32, Error>> {
    let mut items = Vec::new();
    while let Some(index) = cursor.next_index() {
        match accessor.fetch(index) {
            Ok(v) => items.push(Ok(v)),
            Err(e) => {
                cursor.record_failure();
                items.push(Err(e));
            }
        }
    }
    items
}

#[test]
fn forward_iteration_yields_each_element_in_order() {
    let mut cursor = Collection::from_native_count(5).unwrap();
    let mut accessor = MockAccessor::new();
    let items = drive_forward(&mut cursor, &mut accessor);
    assert_eq!(items, vec![Ok(0), Ok(10), Ok(20), Ok(30), Ok(40)]);
    assert_eq!(accessor.calls, 5);
}

#[test]
fn exhausted_walk_stays_exhausted_without_new_native_calls() {
    let mut cursor = Collection::from_native_count(5).unwrap();
    let mut accessor = MockAccessor::new();
    drive_forward(&mut cursor, &mut accessor);
    assert!(cursor.is_exhausted());
    assert_eq!(cursor.next_index(), None);
    assert_eq!(cursor.next_back_index(), None);
    // No index was handed out, so the accessor was not re-invoked.
    assert_eq!(accessor.calls, 5);
    assert_eq!(cursor.remaining(), 0);
}

#[test]
fn backward_iteration_yields_the_same_elements_reversed() {
    let mut cursor = Collection::from_native_count(5).unwrap();
    let mut accessor = MockAccessor::new();
    let mut items = Vec::new();
    while let Some(index) = cursor.next_back_index() {
        items.push(accessor.fetch(index).unwrap());
    }
    assert_eq!(items, vec![40, 30, 20, 10, 0]);
}

#[test]
fn walking_both_ends_visits_each_position_once() {
    let mut cursor = Collection::from_native_count(4).unwrap();
    assert_eq!(cursor.next_index(), Some(0));
    assert_eq!(cursor.next_back_index(), Some(3));
    assert_eq!(cursor.next_index(), Some(1));
    assert_eq!(cursor.next_back_index(), Some(2));
    assert_eq!(cursor.next_index(), None);
    assert_eq!(cursor.next_back_index(), None);
}

#[test]
fn failing_fetch_terminates_the_walk() {
    let mut cursor = Collection::from_native_count(5).unwrap();
    let mut accessor = MockAccessor::failing_at(3);
    let items = drive_forward(&mut cursor, &mut accessor);
    assert_eq!(items, vec![Ok(0), Ok(10), Ok(20), Err(Error::NotFound)]);
    // Three successes, one failure; after the error no index is handed out,
    // so no further native call occurs.
    assert_eq!(accessor.calls, 4);
    assert_eq!(cursor.next_index(), None);
    assert_eq!(accessor.calls, 4);
}

#[test]
fn remaining_reports_the_unvisited_span() {
    let mut cursor = Collection::from_native_count(3).unwrap();
    assert_eq!(cursor.remaining(), 3);
    cursor.next_index();
    assert_eq!(cursor.remaining(), 2);
    cursor.next_back_index();
    assert_eq!(cursor.remaining(), 1);
}

#[test]
fn nth_index_skips_and_consumes() {
    let mut cursor = Collection::from_native_count(5).unwrap();
    assert_eq!(cursor.nth_index(2), Some(2));
    assert_eq!(cursor.next_index(), Some(3));
    // Skipping past the end exhausts the walk.
    assert_eq!(cursor.nth_index(7), None);
    assert!(cursor.is_exhausted());
}

#[test]
fn empty_collection_is_exhausted_at_once() {
    let mut cursor = Collection::from_native_count(0).unwrap();
    assert!(cursor.is_exhausted());
    assert_eq!(cursor.next_index(), None);
    assert_eq!(cursor.remaining(), 0);
}

#[test]
fn negative_native_count_is_rejected() {
    assert_eq!(Collection::from_native_count(-1).err(), Some(Error::Internal));
    assert_eq!(Collection::from_native_count(i32::MIN).err(), Some(Error::Internal));
}
