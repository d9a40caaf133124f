//! Moving bodies: rectangles that travel one whole unit at a time and stop at
//! the first obstacle in their way.

use vstd::prelude::*;
use crate::rect::{Point, Rect};
use crate::solid::Solid;
use crate::units::{
    lemma_residue_bounded, magnitude, residue, round_units, signum, split_units, HALF_UNIT,
};

verus! {

/// What one move along one axis came to.
#[derive(Clone, Copy, Debug, PartialEq, Eq, Structural)]
pub struct ActorCollisionResult {
    /// Direction of the motion that was stopped: -1 or 1, and 0 if none was.
    pub collision_side: i8,
    /// Whether the body was stopped before it had travelled all it set out to.
    pub has_collided: bool,
    /// Whether the body changed place by at least one unit.
    pub has_moved: bool,
}

impl ActorCollisionResult {
    /// A report made of its three parts.
    pub fn new(moved: bool, collided: bool, side: i8) -> (r: ActorCollisionResult)
        ensures
            r == (ActorCollisionResult {
                collision_side: side,
                has_collided: collided,
                has_moved: moved,
            }),
    {
        ActorCollisionResult { collision_side: side, has_collided: collided, has_moved: moved }
    }
}

/// Whether `rect`, pushed by `(dx, dy)`, would share area with one of `solids`.
pub open spec fn hits(rect: Rect, dx: int, dy: int, solids: Seq<Solid>) -> bool {
    exists|i: int|
        0 <= i < solids.len() && rect.overlaps_at(dx, dy, (#[trigger] solids[i]).collider)
}

/// Whether `rect` cannot be pushed by `(dx, dy)`: an obstacle is in the way, or
/// the grid ends there.
pub open spec fn blocked(rect: Rect, dx: int, dy: int, solids: Seq<Solid>) -> bool {
    !rect.fits_at(dx, dy) || hits(rect, dx, dy, solids)
}

/// How many pushes by `(dx, dy)`, out of `want`, `rect` can make before one is
/// blocked.
pub open spec fn free_run(rect: Rect, dx: int, dy: int, want: nat, solids: Seq<Solid>) -> nat
    decreases want,
{
    if want == 0 || blocked(rect, dx, dy, solids) {
        0
    } else {
        1 + free_run(rect.shifted(dx, dy), dx, dy, (want - 1) as nat, solids)
    }
}

/// The report of a move that set out to travel `units` and got `run` far.
pub open spec fn outcome(units: int, run: nat) -> ActorCollisionResult {
    ActorCollisionResult {
        collision_side: if run < magnitude(units) {
            signum(units) as i8
        } else {
            0
        },
        has_collided: run < magnitude(units),
        has_moved: run > 0,
    }
}

/// A moving body: its rectangle, and for each axis the distance below one unit
/// that it has been asked to travel and has not travelled yet, in sub-units.
#[derive(Clone, Copy, Debug, PartialEq, Eq, Structural)]
pub struct Actor {
    pub collider: Rect,
    pub x_remainder: i64,
    pub y_remainder: i64,
}

impl Actor {
    /// The rectangle is a rectangle, and no more than half a unit is owed along
    /// either axis.
    pub open spec fn wf(self) -> bool {
        &&& self.collider.wf()
        &&& -HALF_UNIT <= self.x_remainder <= HALF_UNIT
        &&& -HALF_UNIT <= self.y_remainder <= HALF_UNIT
    }

    /// Whole units that a move by `amount` along x sets out to travel, signed.
    pub open spec fn units_x(self, amount: int) -> int {
        round_units(self.x_remainder + amount)
    }

    /// Whole units that a move by `amount` along y sets out to travel, signed.
    pub open spec fn units_y(self, amount: int) -> int {
        round_units(self.y_remainder + amount)
    }

    /// Units that a move by `amount` along x travels before it is stopped.
    pub open spec fn run_x(self, amount: int, solids: Seq<Solid>) -> nat {
        let units = self.units_x(amount);
        free_run(self.collider, signum(units), 0, magnitude(units), solids)
    }

    /// Units that a move by `amount` along y travels before it is stopped.
    pub open spec fn run_y(self, amount: int, solids: Seq<Solid>) -> nat {
        let units = self.units_y(amount);
        free_run(self.collider, 0, signum(units), magnitude(units), solids)
    }

    /// The body after a move by `amount` sub-units along x.
    pub open spec fn moved_x(self, amount: int, solids: Seq<Solid>) -> Actor {
        Actor {
            collider: self.collider.shifted(
                signum(self.units_x(amount)) * self.run_x(amount, solids),
                0,
            ),
            x_remainder: residue(self.x_remainder + amount) as i64,
            y_remainder: self.y_remainder,
        }
    }

    /// The body after a move by `amount` sub-units along y.
    pub open spec fn moved_y(self, amount: int, solids: Seq<Solid>) -> Actor {
        Actor {
            collider: self.collider.shifted(
                0,
                signum(self.units_y(amount)) * self.run_y(amount, solids),
            ),
            x_remainder: self.x_remainder,
            y_remainder: residue(self.y_remainder + amount) as i64,
        }
    }

    /// The report of a move by `amount` sub-units along x.
    pub open spec fn outcome_x(self, amount: int, solids: Seq<Solid>) -> ActorCollisionResult {
        outcome(self.units_x(amount), self.run_x(amount, solids))
    }

    /// The report of a move by `amount` sub-units along y.
    pub open spec fn outcome_y(self, amount: int, solids: Seq<Solid>) -> ActorCollisionResult {
        outcome(self.units_y(amount), self.run_y(amount, solids))
    }

    /// The body put down at `at`, owing nothing.
    pub open spec fn placed_at(self, at: Point) -> Actor {
        Actor {
            collider: Rect { x: at.x, y: at.y, ..self.collider },
            x_remainder: 0,
            y_remainder: 0,
        }
    }

    /// A body at rest in `rect`, with nothing owed.
    pub fn new(rect: Rect) -> (a: Actor)
        requires
            rect.wf(),
        ensures
            a == (Actor { collider: rect, x_remainder: 0, y_remainder: 0 }),
            a.wf(),
    {
        Actor { collider: rect, x_remainder: 0, y_remainder: 0 }
    }

    /// Asks the body to travel `amount` sub-units along x. The amount is added
    /// to what is owed along x; the nearest whole number of units is taken out
    /// of the sum and travelled one unit at a time, up to the first unit that
    /// is blocked.
    pub fn move_x(&mut self, amount: i64, solids: &Vec<Solid>) -> (result: ActorCollisionResult)
        ensures
            *final(self) == old(self).moved_x(amount as int, solids@),
            result == old(self).outcome_x(amount as int, solids@),
            -HALF_UNIT <= final(self).x_remainder <= HALF_UNIT,
            old(self).wf() ==> final(self).wf(),
    {
        proof {
            lemma_residue_bounded(self.x_remainder + amount);
        }
        let (units, rest) = split_units(self.x_remainder as i128 + amount as i128);
        self.x_remainder = rest;
        if units == 0 {
            return ActorCollisionResult::new(false, false, 0);
        }
        let sign: i8 = if units > 0 {
            1
        } else {
            -1
        };
        let want: u64 = if units > 0 {
            units as u64
        } else {
            (-(units as i128)) as u64
        };
        let run = self.travel(sign, 0, want, solids);
        if run < want {
            ActorCollisionResult::new(run > 0, true, sign)
        } else {
            ActorCollisionResult::new(true, false, 0)
        }
    }

    /// Asks the body to travel `amount` sub-units along y, as `move_x` does
    /// along x.
    pub fn move_y(&mut self, amount: i64, solids: &Vec<Solid>) -> (result: ActorCollisionResult)
        ensures
            *final(self) == old(self).moved_y(amount as int, solids@),
            result == old(self).outcome_y(amount as int, solids@),
            -HALF_UNIT <= final(self).y_remainder <= HALF_UNIT,
            old(self).wf() ==> final(self).wf(),
    {
        proof {
            lemma_residue_bounded(self.y_remainder + amount);
        }
        let (units, rest) = split_units(self.y_remainder as i128 + amount as i128);
        self.y_remainder = rest;
        if units == 0 {
            return ActorCollisionResult::new(false, false, 0);
        }
        let sign: i8 = if units > 0 {
            1
        } else {
            -1
        };
        let want: u64 = if units > 0 {
            units as u64
        } else {
            (-(units as i128)) as u64
        };
        let run = self.travel(0, sign, want, solids);
        if run < want {
            ActorCollisionResult::new(run > 0, true, sign)
        } else {
            ActorCollisionResult::new(true, false, 0)
        }
    }

    /// Puts the body down at `at`, whatever lies in between, and cancels what
    /// it owed.
    pub fn place_at(&mut self, at: Point)
        ensures
            *final(self) == old(self).placed_at(at),
            old(self).collider.wf() ==> final(self).wf(),
    {
        self.collider.x = at.x;
        self.collider.y = at.y;
        self.x_remainder = 0;
        self.y_remainder = 0;
    }

    /// Pushes the rectangle by `(dx, dy)` up to `want` times, stopping before
    /// the first push that is blocked, and returns the number of pushes made.
    fn travel(&mut self, dx: i8, dy: i8, want: u64, solids: &Vec<Solid>) -> (run: u64)
        requires
            -1 <= dx <= 1,
            -1 <= dy <= 1,
        ensures
            run == free_run(old(self).collider, dx as int, dy as int, want as nat, solids@),
            old(self).collider.fits_at(dx * run, dy * run),
            final(self).collider == old(self).collider.shifted(dx * run, dy * run),
            final(self).x_remainder == old(self).x_remainder,
            final(self).y_remainder == old(self).y_remainder,
    {
        let mut run: u64 = 0;
        while run < want && !self.is_blocked(dx, dy, solids)
            invariant
                -1 <= dx <= 1,
                -1 <= dy <= 1,
                run <= want,
                old(self).collider.fits_at(dx * run, dy * run),
                self.collider == old(self).collider.shifted(dx * run, dy * run),
                self.x_remainder == old(self).x_remainder,
                self.y_remainder == old(self).y_remainder,
                free_run(old(self).collider, dx as int, dy as int, want as nat, solids@) == run
                    + free_run(self.collider, dx as int, dy as int, (want - run) as nat, solids@),
            decreases want - run,
        {
            proof {
                assert(dx * (run + 1) == dx * run + dx) by (nonlinear_arith);
                assert(dy * (run + 1) == dy * run + dy) by (nonlinear_arith);
            }
            self.collider.x = self.collider.x + dx as i32;
            self.collider.y = self.collider.y + dy as i32;
            run = run + 1;
        }
        run
    }

    /// Whether the rectangle, pushed by `(dx, dy)`, would share area with one
    /// of `solids`.
    pub fn is_colliding_solids(&self, dx: i8, dy: i8, solids: &Vec<Solid>) -> (hit: bool)
        ensures
            hit == hits(self.collider, dx as int, dy as int, solids@),
    {
        let mut i: usize = 0;
        while i < solids.len()
            invariant
                i <= solids.len(),
                forall|j: int|
                    0 <= j < i ==> !self.collider.overlaps_at(
                        dx as int,
                        dy as int,
                        (#[trigger] solids@[j]).collider,
                    ),
            decreases solids.len() - i,
        {
            if self.collider.is_overlapping_at(dx as i32, dy as i32, &solids[i].collider) {
                return true;
            }
            i = i + 1;
        }
        false
    }

    /// Whether the rectangle cannot be pushed by `(dx, dy)`.
    pub fn is_blocked(&self, dx: i8, dy: i8, solids: &Vec<Solid>) -> (stop: bool)
        ensures
            stop == blocked(self.collider, dx as int, dy as int, solids@),
    {
        let x: i64 = self.collider.x as i64 + dx as i64;
        let y: i64 = self.collider.y as i64 + dy as i64;
        if x < i32::MIN as i64 || x > i32::MAX as i64 || y < i32::MIN as i64 || y > i32::MAX as i64
        {
            return true;
        }
        self.is_colliding_solids(dx, dy, solids)
    }
}

} // verus!
