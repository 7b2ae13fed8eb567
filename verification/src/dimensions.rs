//! The dimensions of a world.

use vstd::prelude::*;

verus! {

/// A set of booleans indicating whether the corresponding dimension will be
/// pregenerated.
#[derive(Clone, Copy, Debug, PartialEq, Eq, Structural)]
pub struct Dimensions {
    pub overworld: bool,
    pub nether: bool,
    pub end: bool,
}

impl Dimensions {
    /// The dimensions that the given flags restrict generation to. Without any
    /// flag, generation is not restricted.
    pub fn from_flags(overworld: bool, nether: bool, end: bool) -> (d: Dimensions)
        ensures
            overworld || nether || end ==> d == (Dimensions { overworld, nether, end }),
            !overworld && !nether && !end ==> d == (Dimensions {
                overworld: true,
                nether: true,
                end: true,
            }),
            d.overworld || d.nether || d.end,
    {
        if overworld || nether || end {
            Dimensions { overworld, nether, end }
        } else {
            Dimensions { overworld: true, nether: true, end: true }
        }
    }
}

/// A dimension is chosen exactly if its flag is given or no flag is.
pub proof fn law_flags_choose_dimensions(overworld: bool, nether: bool, end: bool, d: Dimensions)
    requires
        call_ensures(Dimensions::from_flags, (overworld, nether, end), d),
    ensures
        d.overworld <==> overworld || !(overworld || nether || end),
        d.nether <==> nether || !(overworld || nether || end),
        d.end <==> end || !(overworld || nether || end),
{
}

} // verus!
