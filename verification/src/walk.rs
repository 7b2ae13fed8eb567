//! The order in which chunks are visited, as mathematics: square rings around
//! the origin, each walked once around, and the facts that make this a complete
//! enumeration of the plane.

use vstd::prelude::*;

verus! {

/// A place in the walk: a ring and an index into it.
pub struct Spot {
    pub ring: nat,
    pub index: nat,
}

/// The number of chunks in a ring.
pub open spec fn ring_size(ring: nat) -> nat {
    8 * ring + 4
}

/// Whether the index is one of the ring's.
pub open spec fn valid(spot: Spot) -> bool {
    spot.index < ring_size(spot.ring)
}

/// The largest coordinate in the square that a ring bounds, counted from its
/// lower left corner.
pub open spec fn side(ring: nat) -> int {
    2 * ring as int + 1
}

/// The cell reached after `i` steps counterclockwise around the border of the
/// square whose coordinates run from 0 to `m`, starting in the corner `(0, 0)`.
pub open spec fn around(m: int, i: int) -> (int, int) {
    if i <= m {
        (i, 0)
    } else if i <= 2 * m {
        (m, i - m)
    } else if i <= 3 * m {
        (3 * m - i, m)
    } else {
        (0, 4 * m - i)
    }
}

/// The chunk at a spot. A ring is centred on the corner that the four chunks of
/// ring 0 share.
pub open spec fn chunk_at(spot: Spot) -> (int, int) {
    let (x, y) = around(side(spot.ring), spot.index as int);
    (x - (spot.ring + 1), y - (spot.ring + 1))
}

/// The first spot of all.
pub open spec fn first_spot() -> Spot {
    Spot { ring: 0, index: 0 }
}

/// The spot that comes after a spot.
pub open spec fn next_spot(spot: Spot) -> Spot {
    if spot.index + 1 == ring_size(spot.ring) {
        Spot { ring: spot.ring + 1, index: 0 }
    } else {
        Spot { ring: spot.ring, index: spot.index + 1 }
    }
}

/// The spot `n` steps after a spot.
pub open spec fn spot_after(spot: Spot, n: nat) -> Spot
    decreases n,
{
    if n == 0 {
        spot
    } else {
        next_spot(spot_after(spot, (n - 1) as nat))
    }
}

/// How many spots come before a spot.
pub open spec fn rank(spot: Spot) -> nat {
    4 * (spot.ring * spot.ring) + spot.index
}

/// The number of chunks in the rings up to and with `max_ring`.
pub open spec fn chunks_up_to(max_ring: nat) -> nat {
    4 * ((max_ring + 1) * (max_ring + 1))
}

/// Whether a chunk lies in the square that ring `max_ring` bounds.
pub open spec fn in_square(chunk: (int, int), max_ring: nat) -> bool {
    &&& -(max_ring + 1) <= chunk.0 <= max_ring
    &&& -(max_ring + 1) <= chunk.1 <= max_ring
}

/// The ring that a column or a row of chunks first appears in.
pub open spec fn reach(v: int) -> int {
    if v >= 0 {
        v
    } else {
        -v - 1
    }
}

/// The spot of a chunk.
pub open spec fn spot_of(chunk: (int, int)) -> Spot {
    let ring = if reach(chunk.0) >= reach(chunk.1) {
        reach(chunk.0)
    } else {
        reach(chunk.1)
    };
    let m = 2 * ring + 1;
    let x = chunk.0 + ring + 1;
    let y = chunk.1 + ring + 1;
    let index = if y == 0 {
        x
    } else if x == m {
        m + y
    } else if y == m {
        3 * m - x
    } else {
        4 * m - y
    };
    Spot { ring: ring as nat, index: index as nat }
}

/// The block coordinate in the middle of a chunk, in one direction.
pub open spec fn middle_block(chunk: int) -> int {
    16 * chunk + 8
}

/// The last ring that a radius in blocks reaches into.
pub open spec fn last_ring(radius: nat) -> nat
    recommends
        radius > 0,
{
    ((radius - 1) / 16) as nat
}

/// Every chunk of the plane is visited: it has a spot.
pub proof fn law_every_chunk_has_a_spot(chunk: (int, int))
    ensures
        valid(spot_of(chunk)),
        chunk_at(spot_of(chunk)) == chunk,
{
}

/// No chunk is visited twice: a chunk determines its spot.
pub proof fn law_no_chunk_has_two_spots(a: Spot, b: Spot)
    requires
        valid(a),
        valid(b),
        chunk_at(a) == chunk_at(b),
    ensures
        a == b,
{
    lemma_spot_of_chunk_at(a);
    lemma_spot_of_chunk_at(b);
}

proof fn lemma_spot_of_chunk_at(spot: Spot)
    requires
        valid(spot),
    ensures
        spot_of(chunk_at(spot)) == spot,
{
}

/// The rings up to and with a ring fill a square around the origin.
pub proof fn law_rings_fill_a_square(spot: Spot, max_ring: nat)
    requires
        valid(spot),
    ensures
        spot.ring <= max_ring <==> in_square(chunk_at(spot), max_ring),
{
}

/// Within a ring, the walk goes from each chunk to one that shares an edge
/// with it.
pub proof fn law_walk_is_connected(spot: Spot)
    requires
        valid(spot),
        next_spot(spot).ring == spot.ring,
    ensures
        ({
            let (x0, z0) = chunk_at(spot);
            let (x1, z1) = chunk_at(next_spot(spot));
            ||| x0 == x1 && (z1 == z0 + 1 || z1 == z0 - 1)
            ||| z0 == z1 && (x1 == x0 + 1 || x1 == x0 - 1)
        }),
{
}

/// The walk enters each ring in its corner of least coordinates.
pub proof fn law_ring_starts_in_its_corner(ring: nat)
    ensures
        chunk_at(Spot { ring, index: 0 }) == (-(ring + 1), -(ring + 1)),
{
}

/// A step leads from a valid spot to a valid spot, and exactly one spot further.
pub proof fn law_step_keeps_valid_and_advances_by_one(spot: Spot)
    requires
        valid(spot),
    ensures
        valid(next_spot(spot)),
        rank(next_spot(spot)) == rank(spot) + 1,
{
    let r = spot.ring;
    assert((r + 1) * (r + 1) == r * r + 2 * r + 1) by (nonlinear_arith);
}

/// After `n` steps the walk is `n` spots further.
pub proof fn law_steps_advance_by_their_number(spot: Spot, n: nat)
    requires
        valid(spot),
    ensures
        valid(spot_after(spot, n)),
        rank(spot_after(spot, n)) == rank(spot) + n,
    decreases n,
{
    if n > 0 {
        law_steps_advance_by_their_number(spot, (n - 1) as nat);
        law_step_keeps_valid_and_advances_by_one(spot_after(spot, (n - 1) as nat));
    }
}

/// A spot is in a ring up to and with `max_ring` exactly if its rank is below
/// the number of their chunks.
pub proof fn law_rank_bounds_ring(spot: Spot, max_ring: nat)
    requires
        valid(spot),
    ensures
        spot.ring <= max_ring <==> rank(spot) < chunks_up_to(max_ring),
{
    let r = spot.ring;
    let q = max_ring + 1;
    assert((r + 1) * (r + 1) == r * r + 2 * r + 1) by (nonlinear_arith);
    if r <= max_ring {
        assert((r + 1) * (r + 1) <= q * q) by (nonlinear_arith)
            requires
                r + 1 <= q,
        ;
    } else {
        assert(q * q <= r * r) by (nonlinear_arith)
            requires
                q <= r,
        ;
    }
}

/// Two valid spots of the same rank are the same spot.
pub proof fn law_rank_determines_the_spot(a: Spot, b: Spot)
    requires
        valid(a),
        valid(b),
        rank(a) == rank(b),
    ensures
        a == b,
{
    law_rank_bounds_ring(a, a.ring);
    law_rank_bounds_ring(b, a.ring);
    law_rank_bounds_ring(a, b.ring);
    law_rank_bounds_ring(b, b.ring);
}

/// The walk from any valid spot on passes through every spot that is not
/// before it.
pub proof fn law_walk_reaches_every_later_spot(start: Spot, spot: Spot)
    requires
        valid(start),
        valid(spot),
        rank(start) <= rank(spot),
    ensures
        spot_after(start, (rank(spot) - rank(start)) as nat) == spot,
{
    let n = (rank(spot) - rank(start)) as nat;
    law_steps_advance_by_their_number(start, n);
    law_rank_determines_the_spot(spot_after(start, n), spot);
}

/// The walk from the first spot visits each chunk of the square that
/// `max_ring` bounds exactly once, in as many steps as the square has chunks.
pub proof fn law_walk_visits_the_square_once(chunk: (int, int), max_ring: nat)
    requires
        in_square(chunk, max_ring),
    ensures
        ({
            let n = rank(spot_of(chunk));
            &&& n < chunks_up_to(max_ring)
            &&& chunk_at(spot_after(first_spot(), n)) == chunk
            &&& forall|k: nat|
                #![trigger spot_after(first_spot(), k)]
                chunk_at(spot_after(first_spot(), k)) == chunk ==> k == n
        }),
{
    let spot = spot_of(chunk);
    law_every_chunk_has_a_spot(chunk);
    law_rings_fill_a_square(spot, max_ring);
    law_rank_bounds_ring(spot, max_ring);
    law_walk_reaches_every_later_spot(first_spot(), spot);
    assert forall|k: nat|
        #![trigger spot_after(first_spot(), k)]
        chunk_at(spot_after(first_spot(), k)) == chunk implies k == rank(spot) by {
        law_steps_advance_by_their_number(first_spot(), k);
        law_no_chunk_has_two_spots(spot_after(first_spot(), k), spot);
    }
}

/// The first steps of the walk stay in the square: as many as it has chunks.
pub proof fn law_walk_stays_in_the_square(max_ring: nat, n: nat)
    requires
        n < chunks_up_to(max_ring),
    ensures
        in_square(chunk_at(spot_after(first_spot(), n)), max_ring),
{
    law_steps_advance_by_their_number(first_spot(), n);
    law_rank_bounds_ring(spot_after(first_spot(), n), max_ring);
    law_rings_fill_a_square(spot_after(first_spot(), n), max_ring);
}

/// The block that stands for a chunk lies in that chunk.
pub proof fn law_middle_block_lies_in_its_chunk(chunk: int)
    ensures
        middle_block(chunk) / 16 == chunk,
{
}

/// The square for a radius holds the chunk of every block within the radius.
pub proof fn law_radius_is_covered(radius: nat, x: int, z: int)
    requires
        radius > 0,
        -radius <= x < radius,
        -radius <= z < radius,
    ensures
        in_square((x / 16, z / 16), last_ring(radius)),
{
}

/// No smaller square does.
pub proof fn law_square_for_radius_is_least(radius: nat, max_ring: nat)
    requires
        radius > 0,
        max_ring < last_ring(radius),
    ensures
        !in_square(((radius - 1) / 16, 0), max_ring),
{
}

/// The walk goes around each ring in the same sense: towards +X along the edge of
/// least Z, towards +Z along the edge of greatest X, then back towards -X and, along
/// the edge of least X, towards -Z up to the chunk before the corner of its start.
pub proof fn law_walk_goes_around_counterclockwise(spot: Spot)
    requires
        valid(spot),
    ensures
        ({
            let low = -(spot.ring + 1);
            let high = spot.ring as int;
            let (x, z) = chunk_at(spot);
            let (x1, z1) = chunk_at(next_spot(spot));
            &&& z == low && x < high ==> (x1, z1) == (x + 1, z)
            &&& x == high && z < high ==> (x1, z1) == (x, z + 1)
            &&& z == high && x > low ==> (x1, z1) == (x - 1, z)
            &&& x == low && z > low + 1 ==> (x1, z1) == (x, z - 1)
            &&& x == low && z == low + 1 ==> next_spot(spot) == (Spot {
                ring: spot.ring + 1,
                index: 0,
            })
        }),
{
}

/// The coordinates within a ring are those in the world, counted from the corner of
/// the ring with the least coordinates.
pub proof fn law_ring_coordinates_start_in_its_corner(spot: Spot)
    requires
        valid(spot),
    ensures
        ({
            let (x, y) = around(side(spot.ring), spot.index as int);
            &&& chunk_at(spot) == (x - spot.ring - 1, y - spot.ring - 1)
            &&& 0 <= x <= 2 * spot.ring + 1
            &&& 0 <= y <= 2 * spot.ring + 1
            &&& x == 0 || y == 0 || x == 2 * spot.ring + 1 || y == 2 * spot.ring + 1
        }),
{
}

/// One step past the last chunk of a ring is the chunk that it started with.
pub proof fn law_walk_around_a_ring_closes(ring: nat)
    ensures
        around(side(ring), ring_size(ring) as int) == around(side(ring), 0),
        around(side(ring), 0) == (0int, 0int),
{
}

/// A ring holds the chunks of its square that are not in the square within.
pub proof fn law_ring_size_is_the_border(ring: nat)
    ensures
        ring_size(ring) == (2 * ring + 2) * (2 * ring + 2) - (2 * ring) * (2 * ring),
        chunks_up_to(ring) == (2 * ring + 2) * (2 * ring + 2),
{
    assert((2 * ring + 2) * (2 * ring + 2) - (2 * ring) * (2 * ring) == 8 * ring + 4)
        by (nonlinear_arith);
    assert((2 * ring + 2) * (2 * ring + 2) == 4 * ((ring + 1) * (ring + 1))) by (nonlinear_arith);
}

/// A step changes the ring only from the last index of a ring, and then to the first
/// index of the next; else, from an index that the ring does not have too, only the
/// index grows.
pub proof fn law_step_changes_one_number(spot: Spot)
    ensures
        ({
            let next = next_spot(spot);
            ||| next.ring == spot.ring && next.index == spot.index + 1 && next.index != 8 * spot.ring
                + 4
            ||| next.ring == spot.ring + 1 && next.index == 0 && spot.index == 8 * spot.ring + 3
        }),
{
}

/// A chunk is sixteen blocks long, and eight of them come before its middle block.
pub proof fn law_middle_block_is_in_the_middle(chunk: int)
    ensures
        middle_block(chunk) - 8 == 16 * chunk,
        (middle_block(chunk) - 8) / 16 == chunk,
        (middle_block(chunk) + 7) / 16 == chunk,
        middle_block(chunk + 1) == middle_block(chunk) + 16,
{
}

} // verus!
