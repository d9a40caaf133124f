//! What holds of every move of a body, whatever the obstacles.

use vstd::prelude::*;
use crate::actor::{blocked, free_run, hits, Actor, ActorCollisionResult};
use crate::rect::Rect;
use crate::solid::Solid;
use crate::units::{lemma_residue_bounded, magnitude, signum, HALF_UNIT, UNIT};

verus! {

impl Rect {
    /// Whether `other` lies flush against this rectangle on the side that
    /// `(dx, dy)` points to: the facing edges coincide, and along the other
    /// axis the two share some extent. Such rectangles touch and do not
    /// overlap.
    pub open spec fn abuts(self, dx: int, dy: int, other: Rect) -> bool {
        if dx == 1 && dy == 0 {
            self.right() == other.left() && self.top() < other.bottom() && self.bottom()
                > other.top()
        } else if dx == -1 && dy == 0 {
            self.left() == other.right() && self.top() < other.bottom() && self.bottom()
                > other.top()
        } else if dx == 0 && dy == 1 {
            self.bottom() == other.top() && self.left() < other.right() && self.right()
                > other.left()
        } else if dx == 0 && dy == -1 {
            self.top() == other.bottom() && self.left() < other.right() && self.right()
                > other.left()
        } else {
            false
        }
    }
}

/// A rectangle flush against another does not overlap it, yet one more unit
/// towards it would.
pub proof fn lemma_abutting_is_touching(rect: Rect, dx: int, dy: int, other: Rect)
    requires
        rect.wf(),
        other.wf(),
        rect.abuts(dx, dy, other),
    ensures
        !rect.overlaps(other),
        rect.overlaps_at(dx, dy, other),
{
}

/// Whether `rect`, already pushed `k` times by `(dx, dy)`, can be pushed once
/// more.
pub open spec fn can_push_after(rect: Rect, dx: int, dy: int, k: int, solids: Seq<Solid>) -> bool {
    rect.fits_at(dx * k, dy * k) && !blocked(rect.shifted(dx * k, dy * k), dx, dy, solids)
}

/// A free run is the longest stretch of pushes of which none is blocked: it
/// is no longer than asked, each of its pushes can be made, and if it is
/// shorter than asked, the push after it cannot.
pub proof fn lemma_free_run(rect: Rect, dx: int, dy: int, want: nat, solids: Seq<Solid>)
    ensures
        free_run(rect, dx, dy, want, solids) <= want,
        rect.fits_at(
            dx * free_run(rect, dx, dy, want, solids),
            dy * free_run(rect, dx, dy, want, solids),
        ),
        forall|k: int|
            0 <= k < free_run(rect, dx, dy, want, solids) ==> #[trigger] can_push_after(
                rect,
                dx,
                dy,
                k,
                solids,
            ),
        free_run(rect, dx, dy, want, solids) < want ==> !can_push_after(
            rect,
            dx,
            dy,
            free_run(rect, dx, dy, want, solids) as int,
            solids,
        ),
    decreases want,
{
    let n = free_run(rect, dx, dy, want, solids);
    if want == 0 || blocked(rect, dx, dy, solids) {
    } else {
        let next = rect.shifted(dx, dy);
        let m = free_run(next, dx, dy, (want - 1) as nat, solids);
        lemma_free_run(next, dx, dy, (want - 1) as nat, solids);
        assert(dx * n == dx + dx * m && dy * n == dy + dy * m) by (nonlinear_arith)
            requires
                n == m + 1,
        ;
        assert forall|k: int| 0 <= k < n implies #[trigger] can_push_after(
            rect,
            dx,
            dy,
            k,
            solids,
        ) by {
            if k > 0 {
                assert(dx * k == dx + dx * (k - 1) && dy * k == dy + dy * (k - 1))
                    by (nonlinear_arith);
                assert(can_push_after(next, dx, dy, k - 1, solids));
            }
        }
    }
}

/// A body that overlaps no obstacle before a run overlaps none after it.
pub proof fn lemma_free_run_never_enters(
    rect: Rect,
    dx: int,
    dy: int,
    want: nat,
    solids: Seq<Solid>,
)
    requires
        !hits(rect, 0, 0, solids),
    ensures
        !hits(
            rect.shifted(
                dx * free_run(rect, dx, dy, want, solids),
                dy * free_run(rect, dx, dy, want, solids),
            ),
            0,
            0,
            solids,
        ),
    decreases want,
{
    if want == 0 || blocked(rect, dx, dy, solids) {
        assert(dx * 0 == 0 && dy * 0 == 0);
    } else {
        let n = free_run(rect, dx, dy, want, solids);
        let next = rect.shifted(dx, dy);
        let m = free_run(next, dx, dy, (want - 1) as nat, solids);
        lemma_free_run_never_enters(next, dx, dy, (want - 1) as nat, solids);
        lemma_free_run(next, dx, dy, (want - 1) as nat, solids);
        assert(dx * n == dx + dx * m && dy * n == dy + dy * m) by (nonlinear_arith)
            requires
                n == m + 1,
        ;
    }
}

/// A move along x never carries a body into an obstacle: if it overlapped
/// none before, it overlaps none after.
pub proof fn lemma_move_x_never_enters(a: Actor, amount: int, solids: Seq<Solid>)
    requires
        !hits(a.collider, 0, 0, solids),
    ensures
        !hits(a.moved_x(amount, solids).collider, 0, 0, solids),
{
    let units = a.units_x(amount);
    lemma_free_run_never_enters(a.collider, signum(units), 0, magnitude(units), solids);
}

/// A move along y never carries a body into an obstacle.
pub proof fn lemma_move_y_never_enters(a: Actor, amount: int, solids: Seq<Solid>)
    requires
        !hits(a.collider, 0, 0, solids),
    ensures
        !hits(a.moved_y(amount, solids).collider, 0, 0, solids),
{
    let units = a.units_y(amount);
    lemma_free_run_never_enters(a.collider, 0, signum(units), magnitude(units), solids);
}

impl Rect {
    /// Whether `other` lies beside this rectangle: the two share some extent
    /// vertically and none horizontally, so that one is wholly to the left of
    /// the other.
    pub open spec fn beside(self, other: Rect) -> bool {
        &&& self.top() < other.bottom()
        &&& self.bottom() > other.top()
        &&& (self.right() <= other.left() || other.right() <= self.left())
    }

    /// Whether `other` lies above or below this rectangle: the two share some
    /// extent horizontally and none vertically.
    pub open spec fn above_or_below(self, other: Rect) -> bool {
        &&& self.left() < other.right()
        &&& self.right() > other.left()
        &&& (self.bottom() <= other.top() || other.bottom() <= self.top())
    }
}

/// A run along x never passes an obstacle that lies beside the body: the
/// body ends on the side of it on which it began.
pub proof fn lemma_free_run_never_passes_x(
    rect: Rect,
    dx: int,
    want: nat,
    solids: Seq<Solid>,
    i: int,
)
    requires
        rect.wf(),
        0 <= i < solids.len(),
        solids[i].collider.wf(),
        dx == 1 || dx == -1 || dx == 0,
        rect.beside(solids[i].collider),
    ensures
        ({
            let end = rect.shifted(dx * free_run(rect, dx, 0, want, solids), 0);
            &&& end.beside(solids[i].collider)
            &&& end.right() <= solids[i].collider.left() <==> rect.right()
                <= solids[i].collider.left()
        }),
    decreases want,
{
    if want == 0 || blocked(rect, dx, 0, solids) {
        assert(dx * 0 == 0);
    } else {
        let n = free_run(rect, dx, 0, want, solids);
        let next = rect.shifted(dx, 0);
        let m = free_run(next, dx, 0, (want - 1) as nat, solids);
        assert(!rect.overlaps_at(dx, 0, solids[i].collider));
        lemma_free_run_never_passes_x(next, dx, (want - 1) as nat, solids, i);
        lemma_free_run(next, dx, 0, (want - 1) as nat, solids);
        assert(dx * n == dx + dx * m) by (nonlinear_arith)
            requires
                n == m + 1,
        ;
    }
}

/// A run along y never passes an obstacle that lies above or below the body.
pub proof fn lemma_free_run_never_passes_y(
    rect: Rect,
    dy: int,
    want: nat,
    solids: Seq<Solid>,
    i: int,
)
    requires
        rect.wf(),
        0 <= i < solids.len(),
        solids[i].collider.wf(),
        dy == 1 || dy == -1 || dy == 0,
        rect.above_or_below(solids[i].collider),
    ensures
        ({
            let end = rect.shifted(0, dy * free_run(rect, 0, dy, want, solids));
            &&& end.above_or_below(solids[i].collider)
            &&& end.bottom() <= solids[i].collider.top() <==> rect.bottom()
                <= solids[i].collider.top()
        }),
    decreases want,
{
    if want == 0 || blocked(rect, 0, dy, solids) {
        assert(dy * 0 == 0);
    } else {
        let n = free_run(rect, 0, dy, want, solids);
        let next = rect.shifted(0, dy);
        let m = free_run(next, 0, dy, (want - 1) as nat, solids);
        assert(!rect.overlaps_at(0, dy, solids[i].collider));
        lemma_free_run_never_passes_y(next, dy, (want - 1) as nat, solids, i);
        lemma_free_run(next, 0, dy, (want - 1) as nat, solids);
        assert(dy * n == dy + dy * m) by (nonlinear_arith)
            requires
                n == m + 1,
        ;
    }
}

/// A move along x never carries a body through an obstacle beside it,
/// however far the body is asked to go: it ends on the side on which it
/// began.
pub proof fn lemma_move_x_never_passes(a: Actor, amount: int, solids: Seq<Solid>, i: int)
    requires
        a.collider.wf(),
        0 <= i < solids.len(),
        solids[i].collider.wf(),
        a.collider.beside(solids[i].collider),
    ensures
        a.moved_x(amount, solids).collider.beside(solids[i].collider),
        a.moved_x(amount, solids).collider.right() <= solids[i].collider.left()
            <==> a.collider.right() <= solids[i].collider.left(),
{
    let units = a.units_x(amount);
    lemma_free_run_never_passes_x(a.collider, signum(units), magnitude(units), solids, i);
}

/// A move along y never carries a body through an obstacle above or below
/// it.
pub proof fn lemma_move_y_never_passes(a: Actor, amount: int, solids: Seq<Solid>, i: int)
    requires
        a.collider.wf(),
        0 <= i < solids.len(),
        solids[i].collider.wf(),
        a.collider.above_or_below(solids[i].collider),
    ensures
        a.moved_y(amount, solids).collider.above_or_below(solids[i].collider),
        a.moved_y(amount, solids).collider.bottom() <= solids[i].collider.top()
            <==> a.collider.bottom() <= solids[i].collider.top(),
{
    let units = a.units_y(amount);
    lemma_free_run_never_passes_y(a.collider, signum(units), magnitude(units), solids, i);
}

/// A body flush against an obstacle that is asked to move towards it, by
/// however many units, stays where it is and reports a collision on that side.
pub proof fn lemma_adjacent_blocks_x(a: Actor, amount: int, solids: Seq<Solid>, i: int, side: int)
    requires
        a.collider.wf(),
        0 <= i < solids.len(),
        solids[i].collider.wf(),
        side == 1 || side == -1,
        a.collider.abuts(side, 0, solids[i].collider),
        signum(a.units_x(amount)) == side,
    ensures
        a.moved_x(amount, solids).collider == a.collider,
        a.outcome_x(amount, solids) == (ActorCollisionResult {
            collision_side: side as i8,
            has_collided: true,
            has_moved: false,
        }),
{
    lemma_abutting_is_touching(a.collider, side, 0, solids[i].collider);
}

/// The same along y.
pub proof fn lemma_adjacent_blocks_y(a: Actor, amount: int, solids: Seq<Solid>, i: int, side: int)
    requires
        a.collider.wf(),
        0 <= i < solids.len(),
        solids[i].collider.wf(),
        side == 1 || side == -1,
        a.collider.abuts(0, side, solids[i].collider),
        signum(a.units_y(amount)) == side,
    ensures
        a.moved_y(amount, solids).collider == a.collider,
        a.outcome_y(amount, solids) == (ActorCollisionResult {
            collision_side: side as i8,
            has_collided: true,
            has_moved: false,
        }),
{
    lemma_abutting_is_touching(a.collider, 0, side, solids[i].collider);
}

/// A body that owes nothing and is asked for less than half a unit does not
/// move and reports nothing; it owes what it was asked for.
pub proof fn lemma_small_amount_is_kept_x(a: Actor, amount: int, solids: Seq<Solid>)
    requires
        a.x_remainder == 0,
        -HALF_UNIT < amount < HALF_UNIT,
    ensures
        a.moved_x(amount, solids) == (Actor { x_remainder: amount as i64, ..a }),
        a.outcome_x(amount, solids) == (ActorCollisionResult {
            collision_side: 0,
            has_collided: false,
            has_moved: false,
        }),
{
}

/// The same along y.
pub proof fn lemma_small_amount_is_kept_y(a: Actor, amount: int, solids: Seq<Solid>)
    requires
        a.y_remainder == 0,
        -HALF_UNIT < amount < HALF_UNIT,
    ensures
        a.moved_y(amount, solids) == (Actor { y_remainder: amount as i64, ..a }),
        a.outcome_y(amount, solids) == (ActorCollisionResult {
            collision_side: 0,
            has_collided: false,
            has_moved: false,
        }),
{
}

/// A move along x that is stopped short leaves the body where one more unit
/// the same way is blocked: flush against what stopped it.
pub proof fn lemma_stopped_where_blocked_x(a: Actor, amount: int, solids: Seq<Solid>)
    requires
        a.outcome_x(amount, solids).has_collided,
    ensures
        blocked(a.moved_x(amount, solids).collider, signum(a.units_x(amount)), 0, solids),
{
    let units = a.units_x(amount);
    lemma_free_run(a.collider, signum(units), 0, magnitude(units), solids);
}

/// The same along y.
pub proof fn lemma_stopped_where_blocked_y(a: Actor, amount: int, solids: Seq<Solid>)
    requires
        a.outcome_y(amount, solids).has_collided,
    ensures
        blocked(a.moved_y(amount, solids).collider, 0, signum(a.units_y(amount)), solids),
{
    let units = a.units_y(amount);
    lemma_free_run(a.collider, 0, signum(units), magnitude(units), solids);
}

/// A body that a move has stopped short stays stopped: asked again to travel
/// in the same direction, it keeps its place and reports the same collision.
pub proof fn lemma_stopped_stays_stopped_x(a: Actor, first: int, second: int, solids: Seq<Solid>)
    requires
        a.outcome_x(first, solids).has_collided,
        signum(a.moved_x(first, solids).units_x(second)) == signum(a.units_x(first)),
    ensures
        a.moved_x(first, solids).moved_x(second, solids).collider == a.moved_x(
            first,
            solids,
        ).collider,
        a.moved_x(first, solids).outcome_x(second, solids) == (ActorCollisionResult {
            collision_side: a.outcome_x(first, solids).collision_side,
            has_collided: true,
            has_moved: false,
        }),
{
    lemma_stopped_where_blocked_x(a, first, solids);
}

/// The same along y.
pub proof fn lemma_stopped_stays_stopped_y(a: Actor, first: int, second: int, solids: Seq<Solid>)
    requires
        a.outcome_y(first, solids).has_collided,
        signum(a.moved_y(first, solids).units_y(second)) == signum(a.units_y(first)),
    ensures
        a.moved_y(first, solids).moved_y(second, solids).collider == a.moved_y(
            first,
            solids,
        ).collider,
        a.moved_y(first, solids).outcome_y(second, solids) == (ActorCollisionResult {
            collision_side: a.outcome_y(first, solids).collision_side,
            has_collided: true,
            has_moved: false,
        }),
{
    lemma_stopped_where_blocked_y(a, first, solids);
}

/// Where there are no obstacles, only the end of the grid blocks a push.
pub proof fn lemma_no_obstacles_only_the_edge_blocks(
    rect: Rect,
    dx: int,
    dy: int,
    solids: Seq<Solid>,
)
    requires
        solids.len() == 0,
    ensures
        blocked(rect, dx, dy, solids) == !rect.fits_at(dx, dy),
{
}

/// The sum of a sequence of amounts.
pub open spec fn sum(amounts: Seq<i64>) -> int
    decreases amounts.len(),
{
    if amounts.len() == 0 {
        0
    } else {
        sum(amounts.drop_last()) + amounts.last()
    }
}

impl Actor {
    /// The body after one move along x for each of `amounts`, in order.
    pub open spec fn after_moves_x(self, amounts: Seq<i64>, solids: Seq<Solid>) -> Actor
        decreases amounts.len(),
    {
        if amounts.len() == 0 {
            self
        } else {
            self.after_moves_x(amounts.drop_last(), solids).moved_x(amounts.last() as int, solids)
        }
    }

    /// Whether one of those moves was stopped short.
    pub open spec fn stopped_in_moves_x(self, amounts: Seq<i64>, solids: Seq<Solid>) -> bool
        decreases amounts.len(),
    {
        amounts.len() > 0 && (self.stopped_in_moves_x(amounts.drop_last(), solids)
            || self.after_moves_x(amounts.drop_last(), solids).outcome_x(
            amounts.last() as int,
            solids,
        ).has_collided)
    }

    /// The body after one move along y for each of `amounts`, in order.
    pub open spec fn after_moves_y(self, amounts: Seq<i64>, solids: Seq<Solid>) -> Actor
        decreases amounts.len(),
    {
        if amounts.len() == 0 {
            self
        } else {
            self.after_moves_y(amounts.drop_last(), solids).moved_y(amounts.last() as int, solids)
        }
    }

    /// Whether one of those moves was stopped short.
    pub open spec fn stopped_in_moves_y(self, amounts: Seq<i64>, solids: Seq<Solid>) -> bool
        decreases amounts.len(),
    {
        amounts.len() > 0 && (self.stopped_in_moves_y(amounts.drop_last(), solids)
            || self.after_moves_y(amounts.drop_last(), solids).outcome_y(
            amounts.last() as int,
            solids,
        ).has_collided)
    }
}

/// A move along x that is not stopped short loses nothing: place and debt
/// together advance by exactly the amount asked for.
pub proof fn lemma_move_x_conserves(a: Actor, amount: int, solids: Seq<Solid>)
    requires
        !a.outcome_x(amount, solids).has_collided,
    ensures
        a.moved_x(amount, solids).collider.x * UNIT + a.moved_x(amount, solids).x_remainder
            == a.collider.x * UNIT + a.x_remainder + amount,
        -HALF_UNIT <= a.moved_x(amount, solids).x_remainder <= HALF_UNIT,
        a.moved_x(amount, solids).collider.y == a.collider.y,
        a.moved_x(amount, solids).collider.w == a.collider.w,
        a.moved_x(amount, solids).collider.h == a.collider.h,
        a.moved_x(amount, solids).y_remainder == a.y_remainder,
{
    let units = a.units_x(amount);
    let run = a.run_x(amount, solids);
    lemma_residue_bounded(a.x_remainder + amount);
    lemma_free_run(a.collider, signum(units), 0, magnitude(units), solids);
}

/// The same along y.
pub proof fn lemma_move_y_conserves(a: Actor, amount: int, solids: Seq<Solid>)
    requires
        !a.outcome_y(amount, solids).has_collided,
    ensures
        a.moved_y(amount, solids).collider.y * UNIT + a.moved_y(amount, solids).y_remainder
            == a.collider.y * UNIT + a.y_remainder + amount,
        -HALF_UNIT <= a.moved_y(amount, solids).y_remainder <= HALF_UNIT,
        a.moved_y(amount, solids).collider.x == a.collider.x,
        a.moved_y(amount, solids).collider.w == a.collider.w,
        a.moved_y(amount, solids).collider.h == a.collider.h,
        a.moved_y(amount, solids).x_remainder == a.x_remainder,
{
    let units = a.units_y(amount);
    let run = a.run_y(amount, solids);
    lemma_residue_bounded(a.y_remainder + amount);
    lemma_free_run(a.collider, 0, signum(units), magnitude(units), solids);
}

/// Moves along x of which none is stopped short lose nothing between them.
pub proof fn lemma_moves_x_conserve(a: Actor, amounts: Seq<i64>, solids: Seq<Solid>)
    requires
        -HALF_UNIT <= a.x_remainder <= HALF_UNIT,
        !a.stopped_in_moves_x(amounts, solids),
    ensures
        a.after_moves_x(amounts, solids).collider.x * UNIT + a.after_moves_x(
            amounts,
            solids,
        ).x_remainder == a.collider.x * UNIT + a.x_remainder + sum(amounts),
        -HALF_UNIT <= a.after_moves_x(amounts, solids).x_remainder <= HALF_UNIT,
        a.after_moves_x(amounts, solids).collider.y == a.collider.y,
        a.after_moves_x(amounts, solids).collider.w == a.collider.w,
        a.after_moves_x(amounts, solids).collider.h == a.collider.h,
        a.after_moves_x(amounts, solids).y_remainder == a.y_remainder,
    decreases amounts.len(),
{
    if amounts.len() > 0 {
        lemma_moves_x_conserve(a, amounts.drop_last(), solids);
        lemma_move_x_conserves(
            a.after_moves_x(amounts.drop_last(), solids),
            amounts.last() as int,
            solids,
        );
    }
}

/// The same along y.
pub proof fn lemma_moves_y_conserve(a: Actor, amounts: Seq<i64>, solids: Seq<Solid>)
    requires
        -HALF_UNIT <= a.y_remainder <= HALF_UNIT,
        !a.stopped_in_moves_y(amounts, solids),
    ensures
        a.after_moves_y(amounts, solids).collider.y * UNIT + a.after_moves_y(
            amounts,
            solids,
        ).y_remainder == a.collider.y * UNIT + a.y_remainder + sum(amounts),
        -HALF_UNIT <= a.after_moves_y(amounts, solids).y_remainder <= HALF_UNIT,
        a.after_moves_y(amounts, solids).collider.x == a.collider.x,
        a.after_moves_y(amounts, solids).collider.w == a.collider.w,
        a.after_moves_y(amounts, solids).collider.h == a.collider.h,
        a.after_moves_y(amounts, solids).x_remainder == a.x_remainder,
    decreases amounts.len(),
{
    if amounts.len() > 0 {
        lemma_moves_y_conserve(a, amounts.drop_last(), solids);
        lemma_move_y_conserves(
            a.after_moves_y(amounts.drop_last(), solids),
            amounts.last() as int,
            solids,
        );
    }
}

/// Amounts that add up to a whole number of units carry a body exactly that
/// many units along x, however they are cut up, as long as no move is stopped
/// short and the body owed less than half a unit at the start. The body then
/// owes what it owed before.
pub proof fn lemma_moves_x_add_up(a: Actor, amounts: Seq<i64>, solids: Seq<Solid>, whole: int)
    requires
        -HALF_UNIT < a.x_remainder < HALF_UNIT,
        !a.stopped_in_moves_x(amounts, solids),
        sum(amounts) == whole * UNIT,
    ensures
        a.after_moves_x(amounts, solids) == (Actor {
            collider: Rect { x: (a.collider.x + whole) as i32, ..a.collider },
            ..a
        }),
        a.after_moves_x(amounts, solids).collider.x == a.collider.x + whole,
{
    lemma_moves_x_conserve(a, amounts, solids);
    let b = a.after_moves_x(amounts, solids);
    let gap = b.collider.x - a.collider.x - whole;
}

/// The same along y.
pub proof fn lemma_moves_y_add_up(a: Actor, amounts: Seq<i64>, solids: Seq<Solid>, whole: int)
    requires
        -HALF_UNIT < a.y_remainder < HALF_UNIT,
        !a.stopped_in_moves_y(amounts, solids),
        sum(amounts) == whole * UNIT,
    ensures
        a.after_moves_y(amounts, solids) == (Actor {
            collider: Rect { y: (a.collider.y + whole) as i32, ..a.collider },
            ..a
        }),
        a.after_moves_y(amounts, solids).collider.y == a.collider.y + whole,
{
    lemma_moves_y_conserve(a, amounts, solids);
    let b = a.after_moves_y(amounts, solids);
    let gap = b.collider.y - a.collider.y - whole;
}

} // verus!
