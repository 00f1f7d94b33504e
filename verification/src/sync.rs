//! Transform synchronization: the sender diffs current transforms against
//! a last-sent cache and emits unreliable delta updates; the receiver
//! buffers the latest snapshot per entity and renders a time-interpolated
//! transform between the previously rendered one and the latest received.

use crate::math::{lemma_lerp_bounds, spec_angle_difference, spec_div_trunc, spec_lerp,
    spec_norm_angle, spec_progress, angle_difference, div_trunc, lerp_i64, norm_angle,
    progress_per_mille, HALF_TURN_MRAD};
use crate::timer::Timer;
use crate::vec2::WORLD_LIMIT;
use std::collections::HashMap;
use vstd::prelude::*;

verus! {

broadcast use vstd::std_specs::hash::group_hash_axioms;

/// Longest sync interval the synchronization accepts, in milliseconds.
pub const MAX_SYNC_INTERVAL: u64 = 1_000_000_000;

/// A compact transform: a position in millimeters and a facing direction
/// in milliradians.
#[derive(Clone, Copy, Debug, PartialEq, Eq, Structural)]
pub struct TransformSnapshot {
    /// The x coordinate.
    pub x: i64,
    /// The y coordinate.
    pub y: i64,
    /// The facing direction, normalized into a half-open full turn.
    pub direction: i64,
}

impl TransformSnapshot {
    /// Bounds every snapshot obeys: world coordinates and a normalized
    /// direction.
    pub open spec fn wf(self) -> bool {
        &&& -WORLD_LIMIT <= self.x <= WORLD_LIMIT
        &&& -WORLD_LIMIT <= self.y <= WORLD_LIMIT
        &&& -HALF_TURN_MRAD <= self.direction < HALF_TURN_MRAD
    }
}

/// One outbound unreliable update: which entity moved, and where to.
#[derive(Clone, Copy, Debug, PartialEq, Eq, Structural)]
pub struct TransformUpdate {
    /// The entity the transform belongs to.
    pub entity: u32,
    /// The transform to apply.
    pub transform: TransformSnapshot,
}

/// The cache and updates after one sender pass over the listed entities,
/// in order: an entity whose transform matches the cache is skipped, any
/// other is emitted and cached.
pub open spec fn spec_send_pass(
    cache: Map<u32, TransformSnapshot>,
    entities: Seq<(u32, TransformSnapshot)>,
) -> (Map<u32, TransformSnapshot>, Seq<TransformUpdate>)
    decreases entities.len(),
{
    if entities.len() == 0 {
        (cache, Seq::empty())
    } else {
        let prior = spec_send_pass(cache, entities.drop_last());
        let entry = entities.last();
        if prior.0.contains_key(entry.0) && prior.0[entry.0] == entry.1 {
            prior
        } else {
            (
                prior.0.insert(entry.0, entry.1),
                prior.1.push(TransformUpdate { entity: entry.0, transform: entry.1 }),
            )
        }
    }
}

/// Sender-side state: the send timer and the last-sent transform of every
/// entity observed so far.
pub struct TransformUpdateSendData {
    /// Paces the passes to the sync interval.
    pub timer: Timer,
    /// The last transform sent for each entity.
    pub cache: HashMap<u32, TransformSnapshot>,
}

impl TransformUpdateSendData {
    /// Fresh sender state: an empty cache and a repeating timer that is
    /// due at once.
    pub fn new(sync_interval: u64) -> (r: TransformUpdateSendData)
        ensures
            r.timer == (Timer { target: 0u64, interval: sync_interval, enabled: true }),
            r.cache@ == Map::<u32, TransformSnapshot>::empty(),
    {
        TransformUpdateSendData { timer: Timer::new(sync_interval), cache: HashMap::new() }
    }

    /// One sender tick: when the sync interval has elapsed, diffs every
    /// listed entity against the cache and returns the updates to send
    /// unreliably; otherwise returns nothing and changes nothing.
    pub fn collect_updates(&mut self, entities: &Vec<(u32, TransformSnapshot)>, now: u64) -> (r:
        Vec<TransformUpdate>)
        requires
            now <= 1_000_000_000_000,
            old(self).timer.interval <= MAX_SYNC_INTERVAL,
        ensures
            !(old(self).timer.enabled && now >= old(self).timer.target) ==> r@ == Seq::<
                TransformUpdate,
            >::empty() && *final(self) == *old(self),
            old(self).timer.enabled && now >= old(self).timer.target ==> {
                &&& final(self).timer == (Timer {
                    target: (now + old(self).timer.interval) as u64,
                    ..old(self).timer
                })
                &&& (final(self).cache@, r@) == spec_send_pass(old(self).cache@, entities@)
            },
    {
        let ghost all = entities@;
        let mut updates: Vec<TransformUpdate> = Vec::new();

        if !self.timer.next_if_done(now) {
            return updates;
        }

        let ghost timer_after = self.timer;
        let mut i: usize = 0;
        while i < entities.len()
            invariant
                i <= all.len(),
                entities@ == all,
                (self.cache@, updates@) == spec_send_pass(old(self).cache@, all.take(i as int)),
                self.timer == timer_after,
            decreases all.len() - i,
        {
            let entity: u32 = entities[i].0;
            let transform: TransformSnapshot = entities[i].1;
            let cached = self.cache.get(&entity);
            let changed: bool = match cached {
                Some(prior) => *prior != transform,
                None => true,
            };
            proof {
                assert(all.take(i as int + 1).drop_last() =~= all.take(i as int));
                assert(all.take(i as int + 1).last() == all[i as int]);
            }
            if changed {
                updates.push(TransformUpdate { entity, transform });
                self.cache.insert(entity, transform);
            }
            i = i + 1;
        }
        proof {
            assert(all.take(all.len() as int) =~= all);
        }
        updates
    }
}

/// Suppressed sends stay suppressed: a pass over entities whose transforms
/// all match the cache emits nothing and leaves the cache alone.
pub proof fn lemma_send_pass_steady(
    cache: Map<u32, TransformSnapshot>,
    entities: Seq<(u32, TransformSnapshot)>,
)
    requires
        forall|i: int|
            0 <= i < entities.len() ==> cache.contains_key(#[trigger] entities[i].0)
                && cache[entities[i].0] == entities[i].1,
    ensures
        spec_send_pass(cache, entities) == (cache, Seq::<TransformUpdate>::empty()),
    decreases entities.len(),
{
    if entities.len() > 0 {
        lemma_send_pass_steady(cache, entities.drop_last());
    }
}

/// The cache and concatenated updates of `n` sender passes over the same
/// entity list.
pub open spec fn spec_send_ticks(
    cache: Map<u32, TransformSnapshot>,
    entities: Seq<(u32, TransformSnapshot)>,
    n: nat,
) -> (Map<u32, TransformSnapshot>, Seq<TransformUpdate>)
    decreases n,
{
    if n == 0 {
        (cache, Seq::empty())
    } else {
        let first = spec_send_pass(cache, entities);
        let rest = spec_send_ticks(first.0, entities, (n - 1) as nat);
        (rest.0, first.1 + rest.1)
    }
}

/// Sync suppression: over any number of sender passes in which one
/// entity's transform never changes, exactly one update for it goes out —
/// on the first pass that observes it — and none after.
pub proof fn lemma_sync_suppression(
    cache: Map<u32, TransformSnapshot>,
    entity: u32,
    transform: TransformSnapshot,
    n: nat,
)
    requires
        !cache.contains_key(entity),
        n > 0,
    ensures
        spec_send_ticks(cache, seq![(entity, transform)], n).1 =~= seq![
            TransformUpdate { entity, transform },
        ],
        spec_send_ticks(cache, seq![(entity, transform)], n).0 == cache.insert(entity, transform),
    decreases n,
{
    let entities = seq![(entity, transform)];
    assert(entities.drop_last() =~= Seq::<(u32, TransformSnapshot)>::empty());
    let first = spec_send_pass(cache, entities);
    assert(spec_send_pass(cache, entities.drop_last()) == (
        cache,
        Seq::<TransformUpdate>::empty(),
    ));
    assert(entities.last() == (entity, transform));
    assert(first.1 =~= seq![TransformUpdate { entity, transform }]);
    lemma_send_ticks_steady(cache.insert(entity, transform), entity, transform, (n - 1) as nat);
    assert(spec_send_ticks(cache, entities, n).1 =~= first.1 + spec_send_ticks(
        first.0,
        entities,
        (n - 1) as nat,
    ).1);
}

/// Passes over an unchanged, already-cached entity emit nothing, however
/// many run.
pub proof fn lemma_send_ticks_steady(
    cache: Map<u32, TransformSnapshot>,
    entity: u32,
    transform: TransformSnapshot,
    n: nat,
)
    requires
        cache.contains_key(entity),
        cache[entity] == transform,
    ensures
        spec_send_ticks(cache, seq![(entity, transform)], n) == (cache, Seq::<
            TransformUpdate,
        >::empty()),
    decreases n,
{
    let entities = seq![(entity, transform)];
    if n > 0 {
        lemma_send_pass_steady(cache, entities);
        lemma_send_ticks_steady(cache, entity, transform, (n - 1) as nat);
        assert(spec_send_ticks(cache, entities, n).1 =~= Seq::<TransformUpdate>::empty());
    }
}

/// Receiver-side interpolation state of one entity: the transform rendered
/// when the latest update arrived, the latest received transform, and the
/// receipt time.
#[derive(Clone, Copy, Debug, PartialEq, Eq, Structural)]
pub struct Interpolation {
    /// The transform rendered at the moment the latest update arrived.
    pub origin: TransformSnapshot,
    /// The latest received transform.
    pub target: TransformSnapshot,
    /// When the latest update arrived, in milliseconds.
    pub start_time: u64,
}

/// The rendered transform at `now`: position blended linearly and
/// direction blended along the shortest turn, by the progress of `now`
/// through one sync interval since receipt; progress saturates at one, so
/// a silent sender leaves the latest snapshot standing, never extrapolated.
pub open spec fn spec_interpolated(i: Interpolation, sync_interval: int, now: int)
    -> TransformSnapshot {
    let progress = spec_progress(i.start_time as int, sync_interval, now);
    TransformSnapshot {
        x: spec_lerp(i.origin.x as int, i.target.x as int, progress) as i64,
        y: spec_lerp(i.origin.y as int, i.target.y as int, progress) as i64,
        direction: spec_norm_angle(
            i.origin.direction + spec_div_trunc(
                spec_angle_difference(i.origin.direction as int, i.target.direction as int)
                    * progress,
                1000,
            ),
        ) as i64,
    }
}

impl Interpolation {
    /// Bounds every buffer entry obeys.
    pub open spec fn wf(self) -> bool {
        &&& self.origin.wf()
        &&& self.target.wf()
        &&& self.start_time <= 1_000_000_000_000
    }

    /// A fresh buffer entry: renders `initial` standing still.
    pub fn new(initial: TransformSnapshot, now: u64) -> (r: Interpolation)
        requires
            initial.wf(),
            now <= 1_000_000_000_000,
        ensures
            r.wf(),
            r == (Interpolation { origin: initial, target: initial, start_time: now }),
    {
        Interpolation { origin: initial, target: initial, start_time: now }
    }

    /// Applies a newly received transform at `now`: what was rendered at
    /// this moment becomes the blend origin, and the new transform the
    /// blend target.
    pub fn update(&mut self, received: TransformSnapshot, sync_interval: u64, now: u64)
        requires
            old(self).wf(),
            received.wf(),
            sync_interval <= MAX_SYNC_INTERVAL,
            now <= 1_000_000_000_000,
        ensures
            final(self).wf(),
            *final(self) == (Interpolation {
                origin: spec_interpolated(*old(self), sync_interval as int, now as int),
                target: received,
                start_time: now,
            }),
    {
        let rendered: TransformSnapshot = self.get_interpolated_transform(sync_interval, now);
        self.origin = rendered;
        self.target = received;
        self.start_time = now;
    }

    /// The transform to render at `now`.
    pub fn get_interpolated_transform(&self, sync_interval: u64, now: u64) -> (r:
        TransformSnapshot)
        requires
            self.wf(),
            sync_interval <= MAX_SYNC_INTERVAL,
            now <= 1_000_000_000_000,
        ensures
            r == spec_interpolated(*self, sync_interval as int, now as int),
            r.wf(),
    {
        let progress: u32 = progress_per_mille(self.start_time, sync_interval, now);
        let x: i64 = lerp_i64(self.origin.x, self.target.x, progress);
        let y: i64 = lerp_i64(self.origin.y, self.target.y, progress);
        proof {
            lemma_lerp_bounds(self.origin.x as int, self.target.x as int, progress as int);
            lemma_lerp_bounds(self.origin.y as int, self.target.y as int, progress as int);
        }
        let turn: i64 = angle_difference(self.origin.direction, self.target.direction);
        proof {
            assert(-3_142_000 <= turn as int * progress as int <= 3_142_000_000int)
                by (nonlinear_arith)
                requires
                    -3_142 <= turn as int && (turn as int) < 3_142,
                    0 <= progress as int && (progress as int) <= 1000,
            ;
        }
        let swing: i64 = div_trunc(turn * (progress as i64), 1000);
        let direction: i64 = norm_angle(self.origin.direction + swing);
        TransformSnapshot { x, y, direction }
    }
}

/// Interpolation bounds: between two snapshots the rendered position never
/// leaves the axis-aligned span of the two endpoints, and one full sync
/// interval after receipt the rendered transform is exactly the latest
/// snapshot.
pub proof fn lemma_interpolation_bounds(i: Interpolation, sync_interval: int, now: int)
    requires
        i.wf(),
        0 <= sync_interval,
    ensures
        ({
            let r = spec_interpolated(i, sync_interval, now);
            &&& i.origin.x <= i.target.x ==> i.origin.x <= r.x <= i.target.x
            &&& i.target.x <= i.origin.x ==> i.target.x <= r.x <= i.origin.x
            &&& i.origin.y <= i.target.y ==> i.origin.y <= r.y <= i.target.y
            &&& i.target.y <= i.origin.y ==> i.target.y <= r.y <= i.origin.y
        }),
        now >= i.start_time + sync_interval ==> spec_interpolated(i, sync_interval, now)
            == i.target,
{
    let progress = spec_progress(i.start_time as int, sync_interval, now);
    crate::math::lemma_progress_bounds(i.start_time as int, sync_interval, now);
    lemma_lerp_bounds(i.origin.x as int, i.target.x as int, progress);
    lemma_lerp_bounds(i.origin.y as int, i.target.y as int, progress);
    if now >= i.start_time + sync_interval {
        assert(progress == 1000);
        let turn = spec_angle_difference(i.origin.direction as int, i.target.direction as int);
        assert(spec_div_trunc(turn * 1000, 1000) == turn) by (nonlinear_arith);
        crate::math::lemma_norm_angle_add_difference(
            i.origin.direction as int,
            i.target.direction as int,
        );
    }
}

} // verus!
