//! Lanterns: the places at which a fallen player comes back.

use vstd::prelude::*;
use crate::rect::Point;

verus! {

/// A lantern. At most one lantern is claimed at a time: the one that the
/// player reached last.
#[derive(Clone, Copy, Debug, PartialEq, Eq, Structural)]
pub struct Lantern {
    pub pos: Point,
    pub is_claimed: bool,
}

impl Lantern {
    /// An unclaimed lantern at `pos`.
    pub fn new(pos: Point) -> (l: Lantern)
        ensures
            l == (Lantern { pos, is_claimed: false }),
    {
        Lantern { pos, is_claimed: false }
    }
}

} // verus!
