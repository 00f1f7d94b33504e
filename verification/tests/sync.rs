//! Transform synchronization: delta suppression on the sending side,
//! bounded interpolation on the receiving side.

use combat_core::sync::{Interpolation, TransformSnapshot, TransformUpdateSendData};

fn snapshot(x: i64, y: i64, direction: i64) -> TransformSnapshot {
    TransformSnapshot { x, y, direction }
}

#[test]
fn unchanged_transform_is_sent_exactly_once() {
    // Ten sender passes over an entity that never moves: one update on the
    // first pass, none after.
    let mut sender = TransformUpdateSendData::new(40);
    let entities = vec![(7u32, snapshot(100, 200, 300))];
    let mut total = 0;
    for tick in 0..10u64 {
        let updates = sender.collect_updates(&entities, tick * 40);
        if tick == 0 {
            assert_eq!(updates.len(), 1);
            assert_eq!(updates[0].entity, 7);
            assert_eq!(updates[0].transform, snapshot(100, 200, 300));
        } else {
            assert!(updates.is_empty());
        }
        total += updates.len();
    }
    assert_eq!(total, 1);
}

#[test]
fn only_moving_entities_are_sent() {
    let mut sender = TransformUpdateSendData::new(40);
    let first = vec![(1u32, snapshot(0, 0, 0)), (2u32, snapshot(5_000, 0, 0))];
    assert_eq!(sender.collect_updates(&first, 0).len(), 2);

    // Entity 2 moves, entity 1 stands still: only entity 2 goes out.
    let second = vec![(1u32, snapshot(0, 0, 0)), (2u32, snapshot(5_100, 0, 0))];
    let updates = sender.collect_updates(&second, 40);
    assert_eq!(updates.len(), 1);
    assert_eq!(updates[0].entity, 2);
    assert_eq!(updates[0].transform, snapshot(5_100, 0, 0));
}

#[test]
fn sender_waits_for_the_sync_interval() {
    let mut sender = TransformUpdateSendData::new(40);
    let entities = vec![(1u32, snapshot(0, 0, 0))];
    assert_eq!(sender.collect_updates(&entities, 0).len(), 1);
    // Not due yet: nothing is diffed, nothing is sent.
    let moved = vec![(1u32, snapshot(9_000, 0, 0))];
    assert!(sender.collect_updates(&moved, 39).is_empty());
    assert_eq!(sender.collect_updates(&moved, 40).len(), 1);
}

#[test]
fn interpolation_blends_between_snapshots() {
    let mut buffer = Interpolation::new(snapshot(0, 0, 0), 0);
    buffer.update(snapshot(1_000, -2_000, 0), 40, 0);
    let quarter = buffer.get_interpolated_transform(40, 10);
    assert_eq!(quarter.x, 250);
    assert_eq!(quarter.y, -500);
    let half = buffer.get_interpolated_transform(40, 20);
    assert_eq!(half.x, 500);
    assert_eq!(half.y, -1_000);
}

#[test]
fn interpolation_hits_the_target_after_one_interval() {
    let mut buffer = Interpolation::new(snapshot(0, 0, 0), 0);
    let received = snapshot(1_000, 400, 1_571);
    buffer.update(received, 40, 100);
    assert_eq!(buffer.get_interpolated_transform(40, 140), received);
    // With no further updates the interpolation saturates: the latest
    // snapshot keeps rendering, never extrapolated past.
    assert_eq!(buffer.get_interpolated_transform(40, 10_000), received);
}

#[test]
fn interpolated_position_stays_on_the_segment() {
    let mut buffer = Interpolation::new(snapshot(-400, 900, 0), 0);
    buffer.update(snapshot(600, -100, 0), 40, 0);
    for now in 0..=80u64 {
        let rendered = buffer.get_interpolated_transform(40, now);
        assert!((-400..=600).contains(&rendered.x));
        assert!((-100..=900).contains(&rendered.y));
    }
}

#[test]
fn direction_blends_along_the_shortest_turn() {
    // From 3000 to -3000 milliradians the short way is 284 forward across
    // the seam, not 6000 backward.
    let mut buffer = Interpolation::new(snapshot(0, 0, 3_000), 0);
    buffer.update(snapshot(0, 0, -3_000), 40, 0);
    let halfway = buffer.get_interpolated_transform(40, 20);
    assert_eq!(halfway.direction, -3_142);
    let done = buffer.get_interpolated_transform(40, 40);
    assert_eq!(done.direction, -3_000);
}

#[test]
fn receiving_mid_blend_starts_from_the_rendered_transform() {
    let mut buffer = Interpolation::new(snapshot(0, 0, 0), 0);
    buffer.update(snapshot(1_000, 0, 0), 40, 0);
    // Halfway through the blend a new snapshot arrives: the origin of the
    // new blend is what was on screen, not the old target.
    buffer.update(snapshot(2_000, 0, 0), 40, 20);
    assert_eq!(buffer.origin, snapshot(500, 0, 0));
    assert_eq!(buffer.target, snapshot(2_000, 0, 0));
    assert_eq!(buffer.start_time, 20);
}
