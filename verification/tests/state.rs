use lazy_pregen::controller::{ControllerError, PregenController};
use lazy_pregen::state::PregenState;

/// The cells of a ring in the order of their indices, from the corner of least
/// coordinates.
fn cells(ring: u32) -> Vec<(u32, u32)> {
    (0..PregenState::new(ring, 0).num_values())
        .map(|index| PregenState::new(ring, index).xy())
        .collect()
}

#[test]
fn accessors_return_what_was_stored() {
    let state = PregenState::new(7, 11);
    assert_eq!(state.ring(), 7);
    assert_eq!(state.index(), 11);
}

#[test]
fn ring_zero_is_walked_as_illustrated() {
    assert_eq!(cells(0), vec![(0, 0), (1, 0), (1, 1), (0, 1)]);
}

#[test]
fn ring_one_is_walked_as_illustrated() {
    assert_eq!(
        cells(1),
        vec![
            (0, 0),
            (1, 0),
            (2, 0),
            (3, 0),
            (3, 1),
            (3, 2),
            (3, 3),
            (2, 3),
            (1, 3),
            (0, 3),
            (0, 2),
            (0, 1),
        ]
    );
}

#[test]
fn index_past_the_ring_closes_the_walk() {
    assert_eq!(PregenState::new(1, 12).xy(), (0, 0));
}

#[test]
fn largest_ring_with_coordinates() {
    assert_eq!(PregenState::new(1073741822, 2147483645).xy(), (2147483645, 0));
    assert_eq!(PregenState::new(1073741822, 2147483646).xy(), (2147483645, 1));
}

#[test]
fn number_of_values_grows_by_eight() {
    assert_eq!(PregenState::new(0, 0).num_values(), 4);
    assert_eq!(PregenState::new(1, 0).num_values(), 12);
    assert_eq!(PregenState::new(536870911, 0).num_values(), 4294967292);
}

#[test]
fn increment_within_a_ring() {
    let mut state = PregenState::new(1, 4);
    assert!(!state.increment());
    assert_eq!(state, PregenState::new(1, 5));
}

#[test]
fn increment_into_the_next_ring() {
    let mut state = PregenState::new(1, 11);
    assert!(state.increment());
    assert_eq!(state, PregenState::new(2, 0));
}

#[test]
fn increment_of_an_invalid_state_stays_in_the_ring() {
    let mut state = PregenState::new(0, 4);
    assert!(!state.increment());
    assert_eq!(state, PregenState::new(0, 5));
}

#[test]
fn validity_is_decided_by_the_size_of_the_ring() {
    assert!(PregenState::new(0, 3).is_valid());
    assert!(!PregenState::new(0, 4).is_valid());
    assert!(PregenState::new(2, 19).is_valid());
    assert!(!PregenState::new(2, 20).is_valid());
    assert!(PregenState::new(u32::MAX, u32::MAX).is_valid());
}

#[test]
fn chunks_surround_the_origin() {
    assert_eq!(PregenState::new(0, 0).chunk(), (-1, -1));
    assert_eq!(PregenState::new(0, 2).chunk(), (0, 0));
    assert_eq!(PregenState::new(1, 6).chunk(), (1, 1));
    assert_eq!(PregenState::new(1, 11).chunk(), (-2, -1));
}

#[test]
fn blocks_are_in_the_middle_of_chunks() {
    assert_eq!(PregenState::new(0, 0).block(), (-8, -8));
    assert_eq!(PregenState::new(0, 2).block(), (8, 8));
    assert_eq!(PregenState::new(134217727, 0).block(), (-2147483640, -2147483640));
}

#[test]
fn walk_visits_every_chunk_of_a_square_once() {
    let mut state = PregenState::new(0, 0);
    let mut seen = Vec::new();
    while state.ring() <= 4 {
        let chunk = state.chunk();
        assert!(!seen.contains(&chunk));
        seen.push(chunk);
        state.increment();
    }
    assert_eq!(seen.len(), 100);
    for x in -5..5 {
        for z in -5..5 {
            assert!(seen.contains(&(x, z)));
        }
    }
}

#[test]
fn walk_is_connected_within_a_ring() {
    let cells = cells(5);
    for pair in cells.windows(2) {
        let (x0, y0) = pair[0];
        let (x1, y1) = pair[1];
        assert_eq!(x0.abs_diff(x1) + y0.abs_diff(y1), 1);
    }
}

#[test]
fn controller_for_no_radius_has_no_work() {
    assert!(PregenController::new(0, None).unwrap().is_none());
    assert!(PregenController::new(0, Some(PregenState::new(0, 0))).unwrap().is_none());
}

#[test]
fn controller_rounds_the_radius_up() {
    let radius = |radius| PregenController::new(radius, None).unwrap().unwrap().radius();
    assert_eq!(radius(1), 16);
    assert_eq!(radius(16), 16);
    assert_eq!(radius(17), 32);
    assert_eq!(radius(5000), 5008);
    assert_eq!(radius(29999984), 29999984);
    assert_eq!(radius(4294967280), 4294967280);
}

#[test]
fn controller_rejects_a_corrupt_state() {
    let error = PregenController::new(100, Some(PregenState::new(0, 4))).unwrap_err();
    assert_eq!(error, ControllerError::CorruptState);
    assert_eq!(error.message(), "corrupt pregeneration state");
    assert!(PregenController::new(0, Some(PregenState::new(0, 4))).is_err());
}

#[test]
fn controller_has_work_up_to_its_last_ring() {
    let work = |ring, index| {
        PregenController::new(32, Some(PregenState::new(ring, index)))
            .unwrap()
            .is_some()
    };
    assert!(work(0, 3));
    assert!(work(1, 0));
    assert!(work(1, 11));
    assert!(!work(2, 0));
    assert!(!work(u32::MAX, 0));
}
