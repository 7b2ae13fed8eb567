//! What is left to generate for a radius.

use crate::state::PregenState;
use crate::walk::{first_spot, last_ring, valid, Spot};
use vstd::prelude::*;

verus! {

/// Why a controller could not be created.
#[derive(Clone, Copy, Debug, PartialEq, Eq, Structural)]
pub enum ControllerError {
    /// The cached state holds an index that its ring does not have.
    CorruptState,
}

impl ControllerError {
    /// Describes the error.
    pub fn message(self) -> (text: &'static str)
        ensures
            text@ == "corrupt pregeneration state"@,
    {
        match self {
            ControllerError::CorruptState => "corrupt pregeneration state",
        }
    }
}

/// The spot where a pregeneration starts and the last ring that it generates.
pub struct Plan {
    pub spot: Spot,
    pub max_ring: nat,
}

/// Whether a radius leaves anything to do from a spot on.
pub open spec fn has_work(radius: nat, spot: Spot) -> bool {
    radius > 0 && spot.ring <= last_ring(radius)
}

/// The spot that a pregeneration starts from: the cached one, if there is one.
pub open spec fn start_spot(state: Option<PregenState>) -> Spot {
    match state {
        Some(state) => state@,
        None => first_spot(),
    }
}

/// A radius in blocks, rounded up to a chunk boundary.
pub open spec fn rounded_radius(max_ring: nat) -> nat {
    16 * (max_ring + 1)
}

/// Holds the next chunk to generate and the last ring to generate.
#[derive(Clone, Copy, Debug)]
pub struct PregenController {
    state: PregenState,
    max_ring: u32,
}

impl View for PregenController {
    type V = Plan;

    closed spec fn view(&self) -> Plan {
        Plan { spot: self.state@, max_ring: self.max_ring as nat }
    }
}

impl PregenController {
    /// There is a chunk to generate, and the last ring is that of some radius.
    pub open spec fn wf(self) -> bool {
        &&& valid(self@.spot)
        &&& self@.spot.ring <= self@.max_ring
        &&& self@.max_ring <= last_ring(u32::MAX as nat)
    }

    /// Creates a new `PregenController` with a potentially cached state.
    /// This is infallible usually, but an invalid state (if the lock file was
    /// corrupted) will cause an error to be returned.
    ///
    /// The radius is in blocks and is rounded up to a chunk boundary and converted
    /// internally to a chunk count.
    ///
    /// Returns None if the radius is 0 or if it is clear from the state that the
    /// ring was already generated.
    pub fn new(radius: u32, state: Option<PregenState>) -> (r: Result<
        Option<PregenController>,
        ControllerError,
    >)
        ensures
            r is Err <==> !valid(start_spot(state)),
            r matches Err(e) ==> e == ControllerError::CorruptState,
            r matches Ok(c) ==> (c is Some <==> has_work(radius as nat, start_spot(state))),
            r matches Ok(Some(c)) ==> c.wf() && c@ == (Plan {
                spot: start_spot(state),
                max_ring: last_ring(radius as nat),
            }),
    {
        if let Some(state) = state {
            if !state.is_valid() {
                Err(ControllerError::CorruptState)
            } else if radius == 0 {
                Ok(None)
            } else {
                let max_ring: u32 = (radius - 1) / 16;

                if state.ring() > max_ring || (state.ring() == max_ring && state.index()
                    == state.num_values()) {
                    // No work to do. We've already generated this ring.
                    Ok(None)
                } else {
                    Ok(Some(PregenController { state, max_ring }))
                }
            }
        } else if radius == 0 {
            Ok(None)
        } else {
            let max_ring: u32 = (radius - 1) / 16;
            Ok(Some(PregenController { state: PregenState::new(0, 0), max_ring }))
        }
    }

    /// Returns the radius in blocks that will be generated.
    pub fn radius(&self) -> (radius: u32)
        requires
            rounded_radius(self@.max_ring) <= u32::MAX,
        ensures
            radius == rounded_radius(self@.max_ring),
    {
        (self.max_ring + 1) * 16
    }

    /// Takes the controller apart into the next chunk and the last ring.
    pub(crate) fn into_parts(self) -> (parts: (PregenState, u32))
        ensures
            parts.0@ == self@.spot,
            parts.1 == self@.max_ring,
    {
        (self.state, self.max_ring)
    }
}

/// The generated radius is the least multiple of the chunk length that is not
/// below the requested radius.
pub proof fn law_radius_is_rounded_up(radius: nat)
    requires
        radius > 0,
    ensures
        rounded_radius(last_ring(radius)) % 16 == 0,
        radius <= rounded_radius(last_ring(radius)) < radius + 16,
{
}

/// There is work for a radius exactly if it is not zero and reaches beyond the rings
/// that come before the spot.
pub proof fn law_work_is_left_for_a_larger_radius(radius: nat, spot: Spot)
    ensures
        has_work(radius, spot) <==> radius > 0 && 16 * spot.ring < radius,
{
}

/// Without a cached state a pregeneration starts with the first chunk, and with one
/// it starts with the chunk that the state points at.
pub proof fn law_start_is_the_cached_state(state: PregenState)
    ensures
        start_spot(Some(state)) == state@,
        start_spot(None) == (Spot { ring: 0, index: 0 }),
{
}

/// A controller is created exactly if the state, where there is one, is valid, and the
/// radius reaches beyond the rings before it. It starts where the state points, or else
/// with the first chunk, and ends with the ring that the radius reaches into.
pub proof fn law_controller_is_for_the_radius_and_the_state(
    radius: u32,
    state: Option<PregenState>,
    r: Result<Option<PregenController>, ControllerError>,
)
    requires
        call_ensures(PregenController::new, (radius, state), r),
    ensures
        r is Err <==> (state matches Some(s) && s@.index >= 8 * s@.ring + 4),
        state is None && radius == 0 ==> r == Ok::<_, ControllerError>(None::<PregenController>),
        state is None && radius > 0 ==> (r matches Ok(Some(c)) && c@.spot == (Spot {
            ring: 0,
            index: 0,
        })),
        state matches Some(s) ==> (r is Ok ==> (r->Ok_0 is Some <==> radius > 16 * s@.ring)),
        r matches Ok(Some(c)) ==> {
            &&& 16 * c@.max_ring < radius <= 16 * (c@.max_ring + 1)
            &&& state matches Some(s) ==> c@.spot == s@
        },
{
}

/// The radius of a controller is the requested one, rounded up to whole chunks.
pub proof fn law_controller_tells_the_rounded_radius(
    radius: u32,
    state: Option<PregenState>,
    c: PregenController,
    told: u32,
)
    requires
        call_ensures(
            PregenController::new,
            (radius, state),
            Ok::<Option<PregenController>, ControllerError>(Some(c)),
        ),
        call_ensures(PregenController::radius, (&c,), told),
    ensures
        told % 16 == 0,
        radius <= told < radius + 16,
{
}

} // verus!
