//! The progress of a pregeneration.

use crate::walk::{around, chunk_at, middle_block, next_spot, ring_size, side, valid, Spot};
use vstd::prelude::*;

verus! {

/// A cacheable structure holding the "ring" and an index to that "ring". It
/// can easily be converted into 2D X and Y coordinates (which would be used
/// as X and Z coordinates for a chunk in Minecraft).
///
/// # Illustration
///
/// ```text
/// Ring 0:
///    -X +X
/// +Z  3  2
/// -Z  0  1
///
/// Ring 1:
///    -X       +X
/// +Z  9  8  7  6
///    10  .  .  5
///    11  .  .  4
/// -Z  0  1  2  3
/// ```
#[derive(Clone, Copy, Debug, PartialEq, Eq, Structural)]
pub struct PregenState {
    /// The radius of chunks generated so far.
    ring: u32,
    /// The index within the ring of chunks.
    index: u32,
}

impl View for PregenState {
    type V = Spot;

    closed spec fn view(&self) -> Spot {
        Spot { ring: self.ring as nat, index: self.index as nat }
    }
}

impl PregenState {
    /// Creates a new `PregenState`. Opts not to check ring and index, use
    /// `is_valid` for that.
    pub fn new(ring: u32, index: u32) -> (state: PregenState)
        ensures
            state@ == (Spot { ring: ring as nat, index: index as nat }),
    {
        PregenState { ring, index }
    }

    /// Returns the ring stored in this state.
    pub fn ring(self) -> (ring: u32)
        ensures
            ring == self@.ring,
    {
        self.ring
    }

    /// Returns the index stored in this state.
    pub fn index(self) -> (index: u32)
        ensures
            index == self@.index,
    {
        self.index
    }

    /// Increments the state to point to the next chunk.
    ///
    /// Returns whether the incrementation resulted in a ring change.
    pub fn increment(&mut self) -> (changed: bool)
        requires
            old(self)@.index < u32::MAX,
            ring_size(old(self)@.ring) <= u32::MAX,
        ensures
            final(self)@ == next_spot(old(self)@),
            changed == (final(self)@.ring != old(self)@.ring),
    {
        let next_index: u32 = self.index + 1;

        if next_index == self.num_values() {
            self.ring = self.ring + 1;
            self.index = 0;
            true
        } else {
            self.index = next_index;
            false
        }
    }

    /// Calculates the X and Y (in 2D terms) of the chunk based on the internal
    /// state, counted from the corner of least coordinates of the ring.
    pub fn xy(self) -> (xy: (u32, u32))
        requires
            4 * (self@.ring + 1) <= u32::MAX,
            self@.index <= ring_size(self@.ring),
        ensures
            (xy.0 as int, xy.1 as int) == around(side(self@.ring), self@.index as int),
    {
        let PregenState { ring, index } = self;

        // A "ring" is just the radius in chunks minus one. Therefore, this value is
        // equal to the diameter. A "side" of a ring is 2 shorter than a "base" (i.e.
        // top or bottom) because for calculation purposes we consider the corners to be
        // part of the top/bottom in all cases.
        let base_length: u32 = (ring + 1) * 2;

        if let Some(index) = index.checked_sub(base_length * 2 - 2) {
            // The +Y edge or the -X edge.
            if let Some(index) = index.checked_sub(base_length) {
                (0, base_length - 2 - index)
            } else {
                (base_length - 1 - index, base_length - 1)
            }
        } else {
            // The -Y edge or the +X edge.
            if let Some(index) = index.checked_sub(base_length) {
                (base_length - 1, index + 1)
            } else {
                (index, 0)
            }
        }
    }

    /// Calculates the X and Z of the chunk in the world.
    pub fn chunk(self) -> (chunk: (i32, i32))
        requires
            4 * (self@.ring + 1) <= u32::MAX,
            self@.index <= ring_size(self@.ring),
        ensures
            (chunk.0 as int, chunk.1 as int) == chunk_at(self@),
    {
        let (x, y) = self.xy();
        let offset: i32 = (self.ring + 1) as i32;
        ((x as i32) - offset, (y as i32) - offset)
    }

    /// Calculates the X and Z of the block in the middle of the chunk.
    pub fn block(self) -> (block: (i32, i32))
        requires
            16 * (self@.ring + 1) <= i32::MAX + 1,
            self@.index <= ring_size(self@.ring),
        ensures
            block.0 == middle_block(chunk_at(self@).0),
            block.1 == middle_block(chunk_at(self@).1),
    {
        let (chunk_x, chunk_z) = self.chunk();
        (chunk_x * 16 + 8, chunk_z * 16 + 8)
    }

    /// Checks whether the ring and index are valid. The only time they will be
    /// invalid is right after decoding or creation.
    ///
    /// The size of the ring is computed in 64 bits, so that the answer is right
    /// for every ring.
    pub fn is_valid(self) -> (b: bool)
        ensures
            b == valid(self@),
    {
        (self.index as u64) < (self.ring as u64) * 8 + 4
    }

    /// Retrieves the number of possible values in the current ring.
    pub fn num_values(self) -> (n: u32)
        requires
            ring_size(self@.ring) <= u32::MAX,
        ensures
            n == ring_size(self@.ring),
    {
        self.ring * 8 + 4
    }
}

/// What a state answers agrees: it is valid exactly if its index is below the number of
/// values of its ring, its coordinates in the world are those in its ring, moved by half
/// the side of the square, and its block is in the middle of its chunk.
pub proof fn law_answers_of_a_state_agree(
    state: PregenState,
    ring: u32,
    index: u32,
    values: u32,
    ok: bool,
    xy: (u32, u32),
    chunk: (i32, i32),
    block: (i32, i32),
)
    requires
        call_ensures(PregenState::new, (ring, index), state),
        call_ensures(PregenState::num_values, (state,), values),
        call_ensures(PregenState::is_valid, (state,), ok),
        call_ensures(PregenState::xy, (state,), xy),
        call_ensures(PregenState::chunk, (state,), chunk),
        call_ensures(PregenState::block, (state,), block),
    ensures
        values == 8 * ring + 4,
        ok <==> index < 8 * ring + 4,
        chunk.0 == xy.0 - (ring + 1),
        chunk.1 == xy.1 - (ring + 1),
        block.0 == 16 * chunk.0 + 8,
        block.1 == 16 * chunk.1 + 8,
{
}

} // verus!
