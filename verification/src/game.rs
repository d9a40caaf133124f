//! The world: the obstacles, the player and the lanterns, and what a tick
//! does to them.

use vstd::prelude::*;
use crate::lantern::Lantern;
use crate::player::{Controls, Player, PlayerEvents};
use crate::rect::{Point, Rect};
use crate::solid::Solid;
use crate::units::{HALF_UNIT, UNIT};

verus! {

/// What happened during a tick that others may want to know.
#[derive(Clone, Copy, Debug, PartialEq, Eq, Structural)]
pub struct GameEvents {
    /// What happened to the player.
    pub player: PlayerEvents,
    /// The player claimed a lantern.
    pub claimed: bool,
}

/// The world.
pub struct Game {
    /// Width of the view, in units.
    pub game_width: u32,
    /// Height of the view, in units.
    pub game_height: u32,
    /// Where the view is centred along x, in sub-units.
    pub camera_x: i64,
    /// Where the view is centred along y, in sub-units.
    pub camera_y: i64,
    /// The obstacles, which never change.
    pub solids: Vec<Solid>,
    pub player: Player,
    pub lanterns: Vec<Lantern>,
}

/// The four walls around the map: left, right, top and bottom.
pub open spec fn map_bounds() -> Seq<Solid> {
    seq![
        Solid { collider: Rect { x: -1i32, y: 0, w: 1, h: 600 } },
        Solid { collider: Rect { x: 100, y: 0, w: 1, h: 600 } },
        Solid { collider: Rect { x: 0, y: -1i32, w: 100, h: 1 } },
        Solid { collider: Rect { x: 0, y: 600, w: 100, h: 1 } },
    ]
}

/// The lanterns of the map, the first of them claimed.
pub open spec fn map_lanterns() -> Seq<Lantern> {
    seq![
        Lantern { pos: Point { x: 7, y: 19 }, is_claimed: true },
        Lantern { pos: Point { x: 42, y: 90 }, is_claimed: false },
        Lantern { pos: Point { x: 1, y: 174 }, is_claimed: false },
        Lantern { pos: Point { x: 71, y: 262 }, is_claimed: false },
    ]
}

/// The place in `lanterns`, at or after `from`, of the first lantern that the
/// player reaches and that is not claimed; the length if there is none.
pub open spec fn first_claimable(player: Player, lanterns: Seq<Lantern>, from: int) -> int
    decreases lanterns.len() - from,
{
    if from >= lanterns.len() {
        lanterns.len() as int
    } else if player.reaches(lanterns[from]) && !lanterns[from].is_claimed {
        from
    } else {
        first_claimable(player, lanterns, from + 1)
    }
}

/// The lanterns once the one at `claimed` is claimed: it alone is.
pub open spec fn with_only_claimed(lanterns: Seq<Lantern>, claimed: int) -> Seq<Lantern> {
    Seq::new(lanterns.len(), |j: int| Lantern { pos: lanterns[j].pos, is_claimed: j == claimed })
}

/// The height of the middle of a rectangle, in sub-units.
pub open spec fn middle_y(rect: Rect) -> int {
    rect.y * UNIT + rect.h * HALF_UNIT
}

impl Game {
    /// The player is well-formed.
    pub open spec fn wf(self) -> bool {
        self.player.wf()
    }

    /// Whether the player claims a lantern now.
    pub open spec fn claims(self) -> bool {
        first_claimable(self.player, self.lanterns@, 0) < self.lanterns.len()
    }

    /// The lanterns after the player has claimed what it may.
    pub open spec fn lanterns_after_claim(self) -> Seq<Lantern> {
        if self.claims() {
            with_only_claimed(self.lanterns@, first_claimable(self.player, self.lanterns@, 0))
        } else {
            self.lanterns@
        }
    }

    /// The player after it has claimed what it may.
    pub open spec fn player_after_claim(self) -> Player {
        if self.claims() {
            let claimed = first_claimable(self.player, self.lanterns@, 0);
            Player { respawn_position: self.lanterns[claimed].pos, ..self.player }
        } else {
            self.player
        }
    }

    /// The world at its start: `map_solids` and the four walls around the
    /// map, the player in the air at the top-left, and the first lantern
    /// claimed.
    pub fn new(map_solids: Vec<Solid>) -> (g: Game)
        ensures
            g.game_width == 100,
            g.game_height == 150,
            g.camera_x == 50 * UNIT,
            g.camera_y == 0,
            g.solids@ == map_solids@ + map_bounds(),
            g.lanterns@ == map_lanterns(),
            g.player == (Player {
                velocity_x: 0,
                velocity_y: 0,
                is_flipped: false,
                is_grounded: false,
                jump_power: 0,
                is_dead: false,
                respawn_position: Point { x: 7, y: 19 },
                soul_x: 0,
                soul_y: 0,
                actor: crate::actor::Actor {
                    collider: Rect { x: 0, y: 8, w: 6, h: 8 },
                    x_remainder: 0,
                    y_remainder: 0,
                },
            }),
            g.wf(),
    {
        let mut solids = map_solids;
        solids.push(Solid::new(Rect::new(-1, 0, 1, 600)));
        solids.push(Solid::new(Rect::new(100, 0, 1, 600)));
        solids.push(Solid::new(Rect::new(0, -1, 100, 1)));
        solids.push(Solid::new(Rect::new(0, 600, 100, 1)));

        let mut player = Player::new();
        player.actor.collider.y = 8;

        let mut first = Lantern::new(Point { x: 7, y: 19 });
        player.claim_lantern(&mut first);
        let mut lanterns: Vec<Lantern> = Vec::new();
        lanterns.push(first);
        lanterns.push(Lantern::new(Point { x: 42, y: 90 }));
        lanterns.push(Lantern::new(Point { x: 1, y: 174 }));
        lanterns.push(Lantern::new(Point { x: 71, y: 262 }));

        Game {
            game_width: 100,
            game_height: 150,
            camera_x: 50_000_000,
            camera_y: 0,
            solids,
            player,
            lanterns,
        }
    }

    /// Lets the player claim the first lantern that it reaches and that is
    /// not claimed, if there is one: that lantern alone is then claimed, and
    /// the player comes back there. Tells whether a lantern was claimed.
    pub fn claim_lanterns(&mut self) -> (claimed: bool)
        ensures
            claimed == old(self).claims(),
            final(self).lanterns@ == old(self).lanterns_after_claim(),
            final(self).player == old(self).player_after_claim(),
            final(self).solids == old(self).solids,
            final(self).game_width == old(self).game_width,
            final(self).game_height == old(self).game_height,
            final(self).camera_x == old(self).camera_x,
            final(self).camera_y == old(self).camera_y,
    {
        let count = self.lanterns.len();
        let mut index: usize = 0;
        while index < count && !(self.player.can_claim_lantern(&self.lanterns[index])
            && !self.lanterns[index].is_claimed)
            invariant
                *self == *old(self),
                count == self.lanterns.len(),
                index <= count,
                first_claimable(self.player, self.lanterns@, 0) == first_claimable(
                    self.player,
                    self.lanterns@,
                    index as int,
                ),
            decreases count - index,
        {
            index = index + 1;
        }
        if index >= count {
            return false;
        }
        let mut j: usize = 0;
        while j < count
            invariant
                count == self.lanterns.len(),
                count == old(self).lanterns.len(),
                index < count,
                j <= count,
                self.player == old(self).player,
                self.solids == old(self).solids,
                self.game_width == old(self).game_width,
                self.game_height == old(self).game_height,
                self.camera_x == old(self).camera_x,
                self.camera_y == old(self).camera_y,
                forall|k: int|
                    0 <= k < j ==> #[trigger] self.lanterns[k] == (Lantern {
                        is_claimed: false,
                        ..old(self).lanterns[k]
                    }),
                forall|k: int|
                    j <= k < count ==> #[trigger] self.lanterns[k] == old(self).lanterns[k],
            decreases count - j,
        {
            let mut lantern = self.lanterns[j];
            lantern.is_claimed = false;
            self.lanterns.set(j, lantern);
            j = j + 1;
        }
        let mut lantern = self.lanterns[index];
        self.player.claim_lantern(&mut lantern);
        self.lanterns.set(index, lantern);
        true
    }

    /// Lets `dt` microseconds pass: the player is updated, a living player
    /// claims the lantern that it has reached, and the view follows the
    /// player's height.
    pub fn update(&mut self, controls: Controls, dt: u32) -> (events: GameEvents)
        requires
            old(self).wf(),
        ensures
            final(self).wf(),
            final(self).solids == old(self).solids,
            final(self).game_width == old(self).game_width,
            final(self).game_height == old(self).game_height,
            final(self).camera_x == old(self).camera_x,
            final(self).camera_y == middle_y(final(self).player.actor.collider),
            events.player == old(self).player.update_events(controls, dt as int, old(self).solids@),
            ({
                let moved = Game {
                    player: old(self).player.updated(controls, dt as int, old(self).solids@),
                    ..*old(self)
                };
                if moved.player.is_dead {
                    &&& !events.claimed
                    &&& final(self).player == moved.player
                    &&& final(self).lanterns@ == moved.lanterns@
                } else {
                    &&& events.claimed == moved.claims()
                    &&& final(self).player == moved.player_after_claim()
                    &&& final(self).lanterns@ == moved.lanterns_after_claim()
                }
            }),
    {
        let player = self.player.update(controls, dt, &self.solids);
        let mut claimed = false;
        if !self.player.is_dead {
            claimed = self.claim_lanterns();
        }
        let collider = self.player.actor.collider;
        self.camera_y = collider.y as i64 * UNIT + collider.h as i64 * HALF_UNIT;
        GameEvents { player, claimed }
    }
}

} // verus!
