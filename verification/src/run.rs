//! What whole pregenerations have in common, over the steps of a session.

use crate::commands::{
    block_text, flush_command, law_block_texts_tell_blocks_apart, load_commands, stop_command,
};
use crate::config::Config;
use crate::controller::{has_work, rounded_radius, Plan};
use crate::dimensions::Dimensions;
use crate::generate::{
    polled, replied, sound, started, Next, Outcome, Reply, Session, SAVE_INTERVAL,
};
use crate::lines::lines;
use crate::lock::{law_without_lock_all_is_to_do, resume_spot, LockFile};
use crate::steps::law_going_on_sends_the_line_of_each_chosen_dimension;
use crate::walk::{
    chunk_at, chunks_up_to, first_spot, in_square, last_ring, law_every_chunk_has_a_spot,
    law_no_chunk_has_two_spots, law_radius_is_covered, law_rank_bounds_ring,
    law_rings_fill_a_square,
    law_step_keeps_valid_and_advances_by_one, law_steps_advance_by_their_number,
    law_walk_reaches_every_later_spot, middle_block, next_spot, rank, spot_after, spot_of, valid,
    Spot,
};
use vstd::prelude::*;

verus! {

/// Going on with one chunk, and waiting until the server has saved if that is due.
pub open spec fn round(s: Session) -> Session {
    let t = polled(s, true).0;
    if t.phase is Saving {
        replied(t, Reply::Saved).0
    } else {
        t
    }
}

/// Going on with `n` chunks.
pub open spec fn rounds(s: Session, n: nat) -> Session
    decreases n,
{
    if n == 0 {
        s
    } else {
        round(rounds(s, (n - 1) as nat))
    }
}

/// The number of chunks that a session has left to load.
pub open spec fn chunks_left(s: Session) -> int {
    chunks_up_to(s.max_ring) - rank(s.spot)
}

/// A run that is neither interrupted nor left by the server goes through the
/// walk chunk by chunk, up to the last chunk of the last ring.
pub proof fn law_run_follows_the_walk(s: Session, n: nat)
    requires
        sound(s),
        s.phase is Generating,
        n <= chunks_left(s),
    ensures
        sound(rounds(s, n)),
        rounds(s, n) == (Session {
            spot: spot_after(s.spot, n),
            unsaved: (s.unsaved + n) % (SAVE_INTERVAL as nat),
            reported: if n == 0 {
                s.reported
            } else {
                Some(spot_after(s.spot, (n - 1) as nat).ring)
            },
            ..s
        }),
        n < chunks_left(s) ==> rounds(s, n).spot.ring <= s.max_ring,
    decreases n,
{
    law_steps_advance_by_their_number(s.spot, n);
    law_rank_bounds_ring(spot_after(s.spot, n), s.max_ring);
    if n > 0 {
        let m = (n - 1) as nat;
        law_run_follows_the_walk(s, m);
        lemma_round(rounds(s, m));
        assert(((s.unsaved + m) % (SAVE_INTERVAL as nat) + 1) % (SAVE_INTERVAL as nat) == (s.unsaved
            + n) % (SAVE_INTERVAL as nat));
    }
}

proof fn lemma_round(s: Session)
    requires
        sound(s),
        s.phase is Generating,
        s.spot.ring <= s.max_ring,
    ensures
        sound(round(s)),
        round(s) == (Session {
            spot: next_spot(s.spot),
            unsaved: (s.unsaved + 1) % (SAVE_INTERVAL as nat),
            reported: Some(s.spot.ring),
            ..s
        }),
{
    law_step_keeps_valid_and_advances_by_one(s.spot);
}

/// After the last chunk the run saves the world, stops the server and, once the
/// server has saved, ends successfully: it caches the first spot beyond the
/// generated square and tells the generated radius.
pub proof fn law_run_completes(s: Session)
    requires
        sound(s),
        s.phase is Generating,
        rounded_radius(s.max_ring) <= u32::MAX,
    ensures
        chunks_left(s) >= 0,
        ({
            let end = rounds(s, chunks_left(s) as nat);
            let (waiting, stop) = polled(end, true);
            let (done, last) = replied(waiting, Reply::Saved);
            &&& end.spot == (Spot { ring: s.max_ring + 1, index: 0 })
            &&& stop.next == Next::ReadConsole
            &&& last.cache == Some(end.spot)
            &&& last.next matches Next::Finish(Outcome::Completed { radius })
            &&& radius == rounded_radius(s.max_ring)
            &&& done.phase is Finished
        }),
{
    let beyond = Spot { ring: s.max_ring + 1, index: 0 };
    law_rank_bounds_ring(s.spot, s.max_ring);
    law_run_follows_the_walk(s, chunks_left(s) as nat);
    law_walk_reaches_every_later_spot(s.spot, beyond);
}

/// Every chunk of the square that has not been passed yet is loaded by the run,
/// in each chosen dimension, and in one round only.
pub proof fn law_run_loads_each_chunk_left_once(s: Session, chunk: (int, int))
    requires
        sound(s),
        s.phase is Generating,
        in_square(chunk, s.max_ring),
        rank(s.spot) <= rank(spot_of(chunk)),
    ensures
        ({
            let k = rank(spot_of(chunk)) - rank(s.spot);
            &&& k < chunks_left(s)
            &&& chunk_at(rounds(s, k as nat).spot) == chunk
            &&& load_commands(
                s.dimensions,
                middle_block(chunk.0),
                middle_block(chunk.1),
            ).is_prefix_of(polled(rounds(s, k as nat), true).1.commands)
            &&& forall|j: nat|
                #![trigger rounds(s, j)]
                j < chunks_left(s) && chunk_at(rounds(s, j).spot) == chunk ==> j == k
        }),
{
    let spot = spot_of(chunk);
    let k = (rank(spot) - rank(s.spot)) as nat;
    law_every_chunk_has_a_spot(chunk);
    law_rings_fill_a_square(spot, s.max_ring);
    law_rank_bounds_ring(spot, s.max_ring);
    law_run_follows_the_walk(s, k);
    law_walk_reaches_every_later_spot(s.spot, spot);
    assert forall|j: nat|
        #![trigger rounds(s, j)]
        j < chunks_left(s) && chunk_at(rounds(s, j).spot) == chunk implies j == k by {
        law_run_follows_the_walk(s, j);
        law_steps_advance_by_their_number(s.spot, j);
        law_no_chunk_has_two_spots(rounds(s, j).spot, spot);
    }
}

/// An interrupted run stops the server, and if the server ends without reporting a
/// save, the run ends without caching a state and without an error.
pub proof fn law_unconfirmed_interruption_caches_nothing(s: Session)
    ensures
        ({
            let (waiting, stop) = polled(s, false);
            let (done, last) = replied(waiting, Reply::Ended);
            &&& stop.cache is None
            &&& stop.commands == flush_command() + stop_command()
            &&& stop.next == Next::ReadConsole
            &&& last.cache is None
            &&& last.next == Next::Finish(Outcome::Interrupted)
            &&& done.phase is Finished
        }),
{
}

/// A run that starts afresh for a radius loads every chunk within the radius.
pub proof fn law_fresh_run_loads_every_chunk(radius: nat, dimensions: Dimensions, x: int, z: int)
    requires
        0 < radius <= u32::MAX,
        -radius <= x < radius,
        -radius <= z < radius,
    ensures
        ({
            let s = started(
                Plan { spot: first_spot(), max_ring: last_ring(radius) },
                dimensions,
            );
            let k = rank(spot_of((x / 16, z / 16)));
            &&& k < chunks_left(s)
            &&& load_commands(
                dimensions,
                middle_block(x / 16),
                middle_block(z / 16),
            ).is_prefix_of(polled(rounds(s, k), true).1.commands)
        }),
{
    let s = started(Plan { spot: first_spot(), max_ring: last_ring(radius) }, dimensions);
    assert(rank(first_spot()) == 0);
    law_run_loads_each_chunk_left_once(s, (x / 16, z / 16));
}

/// The run loads no chunk outside of the square.
pub proof fn law_run_stays_in_the_square(s: Session, n: nat)
    requires
        sound(s),
        s.phase is Generating,
        n < chunks_left(s),
    ensures
        in_square(chunk_at(rounds(s, n).spot), s.max_ring),
{
    law_run_follows_the_walk(s, n);
    law_rings_fill_a_square(rounds(s, n).spot, s.max_ring);
}

/// A run saves after every 512 chunks, counted from its start.
pub proof fn law_run_saves_at_intervals(s: Session, n: nat)
    requires
        sound(s),
        s.phase is Generating,
        n < chunks_left(s),
    ensures
        polled(rounds(s, n), true).0.phase is Saving <==> (s.unsaved + n + 1) % 512 == 0,
{
    law_run_follows_the_walk(s, n);
}

/// A run that was just started reports each ring that it loads chunks of once:
/// before the first of them, with the number of them.
pub proof fn law_run_reports_each_ring_once(plan: Plan, dimensions: Dimensions, n: nat)
    requires
        sound(started(plan, dimensions)),
        n < chunks_left(started(plan, dimensions)),
    ensures
        ({
            let s = started(plan, dimensions);
            let now = rounds(s, n).spot;
            let step = polled(rounds(s, n), true).1;
            &&& step.report is Some <==> n == 0 || rounds(s, (n - 1) as nat).spot.ring != now.ring
            &&& step.report matches Some((radius, chunks)) ==> {
                &&& radius == 16 * now.ring
                &&& rank(now) + chunks == chunks_up_to(now.ring)
            }
        }),
{
    let s = started(plan, dimensions);
    law_run_follows_the_walk(s, n);
    if n > 0 {
        law_run_follows_the_walk(s, (n - 1) as nat);
    }
    let r = rounds(s, n).spot.ring;
    assert((r + 1) * (r + 1) == r * r + 2 * r + 1) by (nonlinear_arith);
}

/// For every radius that can be configured, a run stays within the coordinates and
/// radii that fit 32 bits.
pub proof fn law_configured_radius_is_within_limits(s: Session, radius: nat)
    requires
        sound(s),
        0 < radius <= Config::MAX_RADIUS,
        s.max_ring == last_ring(radius),
    ensures
        s.spot.ring <= s.max_ring ==> 16 * (s.spot.ring + 1) <= i32::MAX + 1,
        16 * s.spot.ring <= u32::MAX,
        rounded_radius(s.max_ring) <= u32::MAX,
{
}

/// A state is cached only when the server has reported a save, and then always.
/// This holds after an interruption too.
pub proof fn law_cache_follows_a_save(s: Session, running: bool, reply: Reply)
    ensures
        polled(s, running).1.cache is None,
        replied(s, reply).1.cache is Some <==> reply is Saved,
{
}

/// A cached state is valid, so that a later run accepts it, and it points at the
/// chunk that this run would load next.
pub proof fn law_cached_state_is_the_next_chunk(s: Session, reply: Reply)
    requires
        sound(s),
    ensures
        replied(s, reply).1.cache matches Some(spot) ==> valid(spot) && spot == replied(
            s,
            reply,
        ).0.spot,
{
}

/// No chunk is skipped: every chunk from the one that a run started with up to the
/// one that its cached state points at was loaded by the run.
pub proof fn law_cached_progress_skips_no_chunk(s: Session, n: nat, chunk: (int, int))
    requires
        sound(s),
        s.phase is Generating,
        n <= chunks_left(s),
        rank(s.spot) <= rank(spot_of(chunk)) < rank(rounds(s, n).spot),
    ensures
        ({
            let k = rank(spot_of(chunk)) - rank(s.spot);
            &&& k < n
            &&& chunk_at(rounds(s, k as nat).spot) == chunk
        }),
{
    law_run_follows_the_walk(s, n);
    law_steps_advance_by_their_number(s.spot, n);
    law_every_chunk_has_a_spot(chunk);
    law_rank_bounds_ring(spot_of(chunk), s.max_ring);
    law_rings_fill_a_square(spot_of(chunk), s.max_ring);
    law_run_loads_each_chunk_left_once(s, chunk);
}

/// A run that continues from the state that an interrupted run cached, once the
/// server had saved, loads the chunks that the other would have loaded, in the same
/// order.
pub proof fn law_resumed_run_goes_on(s: Session, n: nat)
    requires
        sound(s),
        s.phase is Generating,
        n <= chunks_left(s),
    ensures
        ({
            let (_, last) = replied(polled(s, false).0, Reply::Saved);
            let cached = last.cache->0;
            let resumed = started(Plan { spot: cached, max_ring: s.max_ring }, s.dimensions);
            &&& last.cache is Some
            &&& last.next == Next::Finish(Outcome::Interrupted)
            &&& sound(resumed)
            &&& rounds(resumed, n).spot == rounds(s, n).spot
        }),
{
    law_run_follows_the_walk(s, n);
    law_run_follows_the_walk(
        started(Plan { spot: s.spot, max_ring: s.max_ring }, s.dimensions),
        n,
    );
}

/// The state that a completed run caches leaves no work for the radius that it
/// was run for, and leaves work, from the next ring on, for each radius that
/// reaches further rings.
pub proof fn law_completed_radius_leaves_no_work(radius: nat, other: nat)
    requires
        radius > 0,
        other > 0,
    ensures
        ({
            let beyond = Spot { ring: last_ring(radius) + 1, index: 0 };
            &&& !has_work(radius, beyond)
            &&& has_work(other, beyond) <==> last_ring(radius) < last_ring(other)
        }),
{
}

/// Every chunk of the square that has not been passed yet is named, by the coordinates
/// of its middle block, in a line that the run sends, and in such a line for each chosen
/// dimension.
pub proof fn law_run_sends_a_line_for_each_chunk_and_dimension(s: Session, chunk: (int, int))
    requires
        sound(s),
        s.phase is Generating,
        in_square(chunk, s.max_ring),
        rank(s.spot) <= rank(spot_of(chunk)),
    ensures
        ({
            let k = rank(spot_of(chunk)) - rank(s.spot);
            let sent = lines(polled(rounds(s, k as nat), true).1.commands);
            let block = block_text(16 * chunk.0 + 8, 16 * chunk.1 + 8);
            &&& 0 <= k < chunks_left(s)
            &&& s.dimensions.overworld ==> sent.contains(
                "execute in overworld run forceload add "@ + block,
            )
            &&& s.dimensions.nether ==> sent.contains(
                "execute in the_nether run forceload add "@ + block,
            )
            &&& s.dimensions.end ==> sent.contains(
                "execute in the_end run forceload add "@ + block,
            )
        }),
{
    let k = (rank(spot_of(chunk)) - rank(s.spot)) as nat;
    law_run_loads_each_chunk_left_once(s, chunk);
    law_run_follows_the_walk(s, k);
    law_going_on_sends_the_line_of_each_chosen_dimension(rounds(s, k));
}

/// The run that is prepared for a radius without a lock file sends, for the chunk of
/// each block within the radius and for each chosen dimension, the line that loads it.
pub proof fn law_first_run_sends_a_line_for_each_block(
    radius: nat,
    lock: LockFile,
    dimensions: Dimensions,
    x: int,
    z: int,
)
    requires
        0 < radius <= u32::MAX,
        lock is Missing,
        -radius <= x < radius,
        -radius <= z < radius,
    ensures
        has_work(radius, resume_spot(lock)),
        ({
            let s = started(
                Plan { spot: resume_spot(lock), max_ring: last_ring(radius) },
                dimensions,
            );
            let k = rank(spot_of((x / 16, z / 16)));
            let sent = lines(polled(rounds(s, k), true).1.commands);
            let block = block_text(16 * (x / 16) + 8, 16 * (z / 16) + 8);
            &&& k < chunks_left(s)
            &&& dimensions.overworld ==> sent.contains(
                "execute in overworld run forceload add "@ + block,
            )
            &&& dimensions.nether ==> sent.contains(
                "execute in the_nether run forceload add "@ + block,
            )
            &&& dimensions.end ==> sent.contains("execute in the_end run forceload add "@ + block)
        }),
{
    let s = started(Plan { spot: resume_spot(lock), max_ring: last_ring(radius) }, dimensions);
    law_without_lock_all_is_to_do(lock, radius);
    law_radius_is_covered(radius, x, z);
    assert(rank(Spot { ring: 0, index: 0 }) == 0);
    law_run_sends_a_line_for_each_chunk_and_dimension(s, (x / 16, z / 16));
}

/// No chunk is named twice: two rounds of a run that name the same block are the same
/// round.
pub proof fn law_run_names_no_block_twice(s: Session, i: nat, j: nat)
    requires
        sound(s),
        s.phase is Generating,
        i < chunks_left(s),
        j < chunks_left(s),
        ({
            let (x, z) = chunk_at(rounds(s, i).spot);
            let (x2, z2) = chunk_at(rounds(s, j).spot);
            block_text(16 * x + 8, 16 * z + 8) == block_text(16 * x2 + 8, 16 * z2 + 8)
        }),
    ensures
        i == j,
{
    let (x, z) = chunk_at(rounds(s, i).spot);
    let (x2, z2) = chunk_at(rounds(s, j).spot);
    law_block_texts_tell_blocks_apart(16 * x + 8, 16 * z + 8, 16 * x2 + 8, 16 * z2 + 8);
    law_run_follows_the_walk(s, i);
    law_run_follows_the_walk(s, j);
    law_steps_advance_by_their_number(s.spot, i);
    law_steps_advance_by_their_number(s.spot, j);
    law_no_chunk_has_two_spots(rounds(s, i).spot, rounds(s, j).spot);
}

} // verus!
