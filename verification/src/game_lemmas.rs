//! What holds of every tick of the world.

use vstd::prelude::*;
use crate::actor_lemmas::{lemma_move_x_never_passes, lemma_move_y_never_passes};
use crate::game::{map_bounds, Game};
use crate::lantern::Lantern;
use crate::player::{Controls, Player};
use crate::rect::Rect;
use crate::solid::Solid;
use crate::units::distance_in;

verus! {

/// Whether `rect` lies within the four walls of the map.
pub open spec fn inside_map(rect: Rect) -> bool {
    &&& 0 <= rect.left()
    &&& rect.right() <= 100
    &&& 0 <= rect.top()
    &&& rect.bottom() <= 600
}

/// A living player within the four walls of the map is still within them
/// after a tick, whatever the other obstacles, its speed and the length of
/// the tick.
pub proof fn lemma_living_player_stays_in_map(
    p: Player,
    controls: Controls,
    dt: int,
    solids: Seq<Solid>,
)
    requires
        p.wf(),
        !p.is_dead,
        inside_map(p.actor.collider),
        forall|k: int| 0 <= k < 4 ==> solids.contains(#[trigger] map_bounds()[k]),
    ensures
        inside_map(p.updated(controls, dt, solids).actor.collider),
{
    let q = p.before_moves(controls, dt);
    let ax = distance_in(q.velocity_x as int, dt);
    let ay = distance_in(q.velocity_y as int, dt);
    let walls = map_bounds();
    let left = choose|i: int| 0 <= i < solids.len() && solids[i] == walls[0];
    let right = choose|i: int| 0 <= i < solids.len() && solids[i] == walls[1];
    let top = choose|i: int| 0 <= i < solids.len() && solids[i] == walls[2];
    let bottom = choose|i: int| 0 <= i < solids.len() && solids[i] == walls[3];
    assert(solids.contains(walls[0]) && solids.contains(walls[1]) && solids.contains(walls[2])
        && solids.contains(walls[3]));
    lemma_move_x_never_passes(q.actor, ax, solids, left);
    lemma_move_x_never_passes(q.actor, ax, solids, right);
    let after_x = q.actor.moved_x(ax, solids);
    lemma_move_y_never_passes(after_x, ay, solids, top);
    lemma_move_y_never_passes(after_x, ay, solids, bottom);
}

/// Whether no two of `lanterns` are claimed.
pub open spec fn at_most_one_claimed(lanterns: Seq<Lantern>) -> bool {
    forall|i: int, j: int|
        0 <= i < lanterns.len() && 0 <= j < lanterns.len() && (#[trigger] lanterns[i]).is_claimed
            && (#[trigger] lanterns[j]).is_claimed ==> i == j
}

/// Claiming never leaves two lanterns claimed, and moves no lantern.
pub proof fn lemma_claim_keeps_one_lantern(g: Game)
    requires
        at_most_one_claimed(g.lanterns@),
    ensures
        at_most_one_claimed(g.lanterns_after_claim()),
        g.lanterns_after_claim().len() == g.lanterns.len(),
        forall|i: int|
            0 <= i < g.lanterns.len() ==> (#[trigger] g.lanterns_after_claim()[i]).pos
                == g.lanterns[i].pos,
{
}

} // verus!
