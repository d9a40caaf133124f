//! What holds of every tick of a living player.

use vstd::prelude::*;
use crate::actor::hits;
use crate::actor_lemmas::{lemma_move_x_never_enters, lemma_move_y_never_enters};
use crate::player::{Controls, Player};
use crate::solid::Solid;
use crate::units::distance_in;

verus! {

/// A living player that overlaps no obstacle before a tick overlaps none
/// after it, whatever its speed and however long the tick.
pub proof fn lemma_update_never_enters(p: Player, controls: Controls, dt: int, solids: Seq<Solid>)
    requires
        !p.is_dead,
        !hits(p.actor.collider, 0, 0, solids),
    ensures
        !hits(p.updated(controls, dt, solids).actor.collider, 0, 0, solids),
{
    let q = p.before_moves(controls, dt);
    let ax = distance_in(q.velocity_x as int, dt);
    let ay = distance_in(q.velocity_y as int, dt);
    lemma_move_x_never_enters(q.actor, ax, solids);
    lemma_move_y_never_enters(q.actor.moved_x(ax, solids), ay, solids);
}

/// A tick leaves a living player on the ground only if its vertical move was
/// stopped on the way down, or if it tried no vertical move and was on the
/// ground already.
pub proof fn lemma_grounded_means_stopped_below(
    p: Player,
    controls: Controls,
    dt: int,
    solids: Seq<Solid>,
)
    requires
        !p.is_dead,
        p.updated(controls, dt, solids).is_grounded,
    ensures
        ({
            let y = p.y_outcome(controls, dt, solids);
            (y.has_collided && y.collision_side == 1) || (!y.has_moved && !y.has_collided
                && p.before_moves(controls, dt).is_grounded)
        }),
{
}

} // verus!
