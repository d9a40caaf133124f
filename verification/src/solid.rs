//! Static obstacles.

use vstd::prelude::*;
use crate::rect::Rect;

verus! {

/// A static obstacle: a rectangle that never moves and that no body may enter.
#[derive(Clone, Copy, Debug, PartialEq, Eq, Structural)]
pub struct Solid {
    pub collider: Rect,
}

impl Solid {
    /// An obstacle covers at least one cell.
    pub open spec fn wf(self) -> bool {
        self.collider.wf()
    }

    /// The obstacle that fills `rect`.
    pub fn new(rect: Rect) -> (s: Solid)
        requires
            rect.wf(),
        ensures
            s.collider == rect,
            s.wf(),
    {
        Solid { collider: rect }
    }
}

} // verus!
