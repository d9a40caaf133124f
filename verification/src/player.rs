//! The player: a body under gravity that walks, charges jumps, bounces off
//! walls, and flies back to the last lantern after a fall too hard.
//!
//! Speeds are in sub-units a second, time in microseconds.

use vstd::prelude::*;
use crate::actor::{Actor, ActorCollisionResult};
use crate::lantern::Lantern;
use crate::rect::{Point, Rect};
use crate::solid::Solid;
use crate::units::{
    clamp_i64, distance_in, divide, int_sqrt, integer_sqrt, lemma_residue_bounded, quotient,
    saturate, settle, settled_cell, settled_rest, travel_in, HALF_UNIT, UNIT,
};

verus! {

/// Walking speed on the ground: 15 units a second.
pub const GROUND_SPEED: i64 = 15_000_000;

/// The charge that a jump starts from, in millionths of a full charge.
pub const MIN_JUMP_POWER: i64 = 300_000;

/// A full charge. A jump gains one full charge a second.
pub const MAX_JUMP_POWER: i64 = 1_000_000;

/// Sideways speed of a jump at full charge, in units a second.
pub const JUMP_REACH: i64 = 50;

/// Upward speed of a jump at full charge, in units a second.
pub const JUMP_LIFT: i64 = 100;

/// Downward speed gained in a second of falling, in units a second.
pub const GRAVITY: i64 = 98;

/// The downward speed above which a landing kills: 100 units a second.
pub const DEADLY_SPEED: i64 = 100_000_000;

/// Speed of the flight back to the lantern, in units a second.
pub const FLY_SPEED: i64 = 100;

/// How close to the lantern the flight ends: 2 units, in sub-units.
pub const ARRIVAL_DISTANCE: i64 = 2_000_000;

/// How close to a lantern the player claims it, in units.
pub const CLAIM_DISTANCE: i64 = 10;

/// What the one who plays asks for during a tick.
#[derive(Clone, Copy, Debug, PartialEq, Eq, Structural)]
pub struct Controls {
    /// Walk to the left.
    pub left: bool,
    /// Walk to the right.
    pub right: bool,
    /// Charge a jump; the jump starts when this ends.
    pub charge: bool,
}

/// What happened to the player during a tick that others may want to know.
#[derive(Clone, Copy, Debug, PartialEq, Eq, Structural)]
pub struct PlayerEvents {
    /// A jump started.
    pub jumped: bool,
    /// A wall turned the player around in the air.
    pub bounced: bool,
    /// The player came down on ground.
    pub landed: bool,
}

/// The player.
#[derive(Clone, Copy, Debug, PartialEq, Eq, Structural)]
pub struct Player {
    /// Speed to the right, in sub-units a second.
    pub velocity_x: i64,
    /// Speed downwards, in sub-units a second.
    pub velocity_y: i64,
    /// Whether the player faces left.
    pub is_flipped: bool,
    /// Whether the last vertical move that was tried was stopped on the way
    /// down.
    pub is_grounded: bool,
    /// The charge of the jump to come, in millionths of a full charge.
    pub jump_power: i64,
    /// Whether the player is on its flight back to the lantern.
    pub is_dead: bool,
    /// Where the claimed lantern is.
    pub respawn_position: Point,
    /// How far to the right of its body's corner a dead player is on its
    /// flight, in sub-units. A player comes back to life at the corner.
    pub soul_x: i64,
    /// How far below its body's corner a dead player is on its flight, in
    /// sub-units.
    pub soul_y: i64,
    /// The player's body.
    pub actor: Actor,
}

/// The direction that the controls ask for: -1 left, 1 right, 0 neither or
/// both.
pub open spec fn steer(controls: Controls) -> int {
    (if controls.right {
        1int
    } else {
        0int
    }) - (if controls.left {
        1int
    } else {
        0int
    })
}

/// The charge of a jump after `dt` more microseconds of charging.
pub open spec fn charged(power: int, dt: int) -> int {
    let from = if power > MIN_JUMP_POWER {
        power
    } else {
        MIN_JUMP_POWER as int
    };
    if from + dt < MAX_JUMP_POWER {
        from + dt
    } else {
        MAX_JUMP_POWER as int
    }
}

/// One component of a step of length `step` along the line `(dx, dy)`, whose
/// length is `length`; nothing if the line has no length.
pub open spec fn glide(d: int, length: int, step: int) -> int {
    if length == 0 {
        0
    } else {
        clamp_i64(quotient(d * step, length))
    }
}

/// The square of the length of the line `(dx, dy)`.
fn length_squared(dx: i128, dy: i128) -> (n: i128)
    requires
        -0x20_0000_0000_0000 <= dx <= 0x20_0000_0000_0000,
        -0x20_0000_0000_0000 <= dy <= 0x20_0000_0000_0000,
    ensures
        n == dx * dx + dy * dy,
        0 <= n <= 0x800_0000_0000_0000_0000_0000_0000,
{
    assert(0 <= dx * dx <= 0x20_0000_0000_0000 * 0x20_0000_0000_0000) by (nonlinear_arith)
        requires
            -0x20_0000_0000_0000 <= dx <= 0x20_0000_0000_0000,
    ;
    assert(0 <= dy * dy <= 0x20_0000_0000_0000 * 0x20_0000_0000_0000) by (nonlinear_arith)
        requires
            -0x20_0000_0000_0000 <= dy <= 0x20_0000_0000_0000,
    ;
    dx * dx + dy * dy
}

impl Player {
    /// The player's body is well-formed, and its soul is within half a unit
    /// of the body's corner.
    pub open spec fn wf(self) -> bool {
        &&& self.actor.wf()
        &&& -HALF_UNIT <= self.soul_x <= HALF_UNIT
        &&& -HALF_UNIT <= self.soul_y <= HALF_UNIT
    }

    /// Where a dead player is along x on its flight, in sub-units.
    pub open spec fn place_x(self) -> int {
        self.actor.collider.x * UNIT + self.soul_x
    }

    /// Where a dead player is along y on its flight, in sub-units.
    pub open spec fn place_y(self) -> int {
        self.actor.collider.y * UNIT + self.soul_y
    }

    /// A dead player carried `(dx, dy)` sub-units from where it is, whatever
    /// lies in between, and no farther than the end of the grid. Its body
    /// goes to the nearest grid point; what the body owes is left alone.
    pub open spec fn carried(self, dx: int, dy: int) -> Player {
        Player {
            actor: Actor {
                collider: Rect {
                    x: settled_cell(self.place_x() + dx) as i32,
                    y: settled_cell(self.place_y() + dy) as i32,
                    ..self.actor.collider
                },
                ..self.actor
            },
            soul_x: settled_rest(self.place_x() + dx) as i64,
            soul_y: settled_rest(self.place_y() + dy) as i64,
            ..self
        }
    }

    /// On the ground the controls set the sideways speed; in the air they
    /// have no say.
    pub open spec fn after_move_ground(self, controls: Controls) -> Player {
        if self.is_grounded {
            Player { velocity_x: (steer(controls) * GROUND_SPEED) as i64, ..self }
        } else {
            self
        }
    }

    /// A player that moves sideways faces the way it moves.
    pub open spec fn after_facing(self) -> Player {
        if self.velocity_x != 0 {
            Player { is_flipped: self.velocity_x < 0, ..self }
        } else {
            self
        }
    }

    /// Whether a jump starts: on the ground, once charging has ended with
    /// some charge.
    pub open spec fn jumps(self, controls: Controls) -> bool {
        self.is_grounded && !controls.charge && self.jump_power != 0
    }

    /// In the air any charge is lost. On the ground, charging stops the
    /// player and builds up charge; when charging ends, the charge becomes a
    /// jump the way the player faces.
    pub open spec fn after_do_jump(self, controls: Controls, dt: int) -> Player {
        if !self.is_grounded {
            Player { jump_power: 0, ..self }
        } else if controls.charge {
            Player { velocity_x: 0, jump_power: charged(self.jump_power as int, dt) as i64, ..self }
        } else if self.jump_power == 0 {
            self
        } else {
            Player {
                velocity_x: clamp_i64(
                    if self.is_flipped {
                        -(self.jump_power * JUMP_REACH)
                    } else {
                        self.jump_power * JUMP_REACH
                    },
                ) as i64,
                velocity_y: clamp_i64(-(self.jump_power * JUMP_LIFT)) as i64,
                jump_power: 0,
                is_grounded: false,
                ..self
            }
        }
    }

    /// Falling gains speed downwards with time.
    pub open spec fn after_gravity(self, dt: int) -> Player {
        Player { velocity_y: clamp_i64(self.velocity_y + GRAVITY * dt) as i64, ..self }
    }

    /// The player as it sets out to move in a tick of `dt` microseconds.
    pub open spec fn before_moves(self, controls: Controls, dt: int) -> Player {
        self.after_move_ground(controls).after_facing().after_do_jump(controls, dt).after_gravity(
            dt,
        )
    }

    /// The report of the sideways move of a tick.
    pub open spec fn x_outcome(
        self,
        controls: Controls,
        dt: int,
        solids: Seq<Solid>,
    ) -> ActorCollisionResult {
        let p = self.before_moves(controls, dt);
        p.actor.outcome_x(distance_in(p.velocity_x as int, dt), solids)
    }

    /// The report of the vertical move of a tick, which comes after the
    /// sideways one.
    pub open spec fn y_outcome(
        self,
        controls: Controls,
        dt: int,
        solids: Seq<Solid>,
    ) -> ActorCollisionResult {
        let p = self.before_moves(controls, dt);
        p.actor.moved_x(distance_in(p.velocity_x as int, dt), solids).outcome_y(
            distance_in(p.velocity_y as int, dt),
            solids,
        )
    }

    /// Whether a wall turns the player around: a sideways move was stopped
    /// while the player was in the air.
    pub open spec fn bounces(self, x: ActorCollisionResult) -> bool {
        !self.is_grounded && x.has_collided
    }

    /// Whether the player comes down on ground: a vertical move was stopped
    /// on the way down, and the player was in the air.
    pub open spec fn lands(self, y: ActorCollisionResult) -> bool {
        !self.is_grounded && y.has_collided && y.collision_side > 0
    }

    /// What the reports of the two moves do to the player. A sideways stop in
    /// the air turns it around. A vertical move that was tried puts it on the
    /// ground if it was stopped on the way down, and in the air if not. A
    /// vertical stop ends the fall, and kills if the fall was too fast.
    pub open spec fn after_contacts(
        self,
        x: ActorCollisionResult,
        y: ActorCollisionResult,
    ) -> Player {
        let velocity_x = if self.bounces(x) {
            clamp_i64(-self.velocity_x) as i64
        } else {
            self.velocity_x
        };
        Player {
            velocity_x,
            velocity_y: if y.has_collided {
                0
            } else {
                self.velocity_y
            },
            is_flipped: if self.bounces(x) {
                velocity_x < 0
            } else {
                self.is_flipped
            },
            is_grounded: if y.has_moved || y.has_collided {
                y.has_collided && y.collision_side > 0
            } else {
                self.is_grounded
            },
            is_dead: self.is_dead || (y.has_collided && self.velocity_y > DEADLY_SPEED),
            ..self
        }
    }

    /// A dead player after `dt` microseconds of flight: it is carried towards
    /// the lantern in a straight line, through whatever lies in between. Once
    /// it is near enough, it lives again, its body at the lantern and owing
    /// nothing.
    pub open spec fn flown(self, dt: int) -> Player {
        let dx = self.respawn_position.x * UNIT - self.place_x();
        let dy = self.respawn_position.y * UNIT - self.place_y();
        let length = int_sqrt(dx * dx + dy * dy);
        let carried = self.carried(
            glide(dx, length, FLY_SPEED * dt),
            glide(dy, length, FLY_SPEED * dt),
        );
        let left_x = self.respawn_position.x * UNIT - carried.place_x();
        let left_y = self.respawn_position.y * UNIT - carried.place_y();
        if left_x * left_x + left_y * left_y > ARRIVAL_DISTANCE * ARRIVAL_DISTANCE {
            carried
        } else {
            Player {
                actor: carried.actor.placed_at(self.respawn_position),
                soul_x: 0,
                soul_y: 0,
                is_dead: false,
                ..carried
            }
        }
    }

    /// The player after a tick of `dt` microseconds.
    pub open spec fn updated(self, controls: Controls, dt: int, solids: Seq<Solid>) -> Player {
        if self.is_dead {
            self.flown(dt)
        } else {
            let p = self.before_moves(controls, dt);
            let actor = p.actor.moved_x(distance_in(p.velocity_x as int, dt), solids).moved_y(
                distance_in(p.velocity_y as int, dt),
                solids,
            );
            (Player { actor, ..p }).after_contacts(
                self.x_outcome(controls, dt, solids),
                self.y_outcome(controls, dt, solids),
            )
        }
    }

    /// What happened during that tick.
    pub open spec fn update_events(
        self,
        controls: Controls,
        dt: int,
        solids: Seq<Solid>,
    ) -> PlayerEvents {
        if self.is_dead {
            PlayerEvents { jumped: false, bounced: false, landed: false }
        } else {
            let p = self.before_moves(controls, dt);
            PlayerEvents {
                jumped: self.after_move_ground(controls).after_facing().jumps(controls),
                bounced: p.bounces(self.x_outcome(controls, dt, solids)),
                landed: p.lands(self.y_outcome(controls, dt, solids)),
            }
        }
    }

    /// Whether the player's corner is within claiming distance of a lantern.
    pub open spec fn reaches(self, lantern: Lantern) -> bool {
        let dx = self.actor.collider.x - lantern.pos.x;
        let dy = self.actor.collider.y - lantern.pos.y;
        dx * dx + dy * dy < CLAIM_DISTANCE * CLAIM_DISTANCE
    }

    /// The column of the sprite sheet that shows a living player: standing,
    /// charging, rising or falling.
    pub open spec fn sprite_column(self) -> int {
        if !self.is_grounded {
            if self.velocity_y < 0 {
                16
            } else {
                24
            }
        } else if self.jump_power > 0 {
            8
        } else {
            0
        }
    }

    /// A player at rest in the air at the top-left of the grid, six units
    /// wide and eight high.
    pub fn new() -> (p: Player)
        ensures
            p == (Player {
                velocity_x: 0,
                velocity_y: 0,
                is_flipped: false,
                is_grounded: false,
                jump_power: 0,
                is_dead: false,
                respawn_position: Point { x: 0, y: 0 },
                soul_x: 0,
                soul_y: 0,
                actor: Actor {
                    collider: Rect { x: 0, y: 0, w: 6, h: 8 },
                    x_remainder: 0,
                    y_remainder: 0,
                },
            }),
            p.wf(),
    {
        Player {
            velocity_x: 0,
            velocity_y: 0,
            is_flipped: false,
            is_grounded: false,
            jump_power: 0,
            is_dead: false,
            respawn_position: Point { x: 0, y: 0 },
            soul_x: 0,
            soul_y: 0,
            actor: Actor::new(Rect::new(0, 0, 6, 8)),
        }
    }

    /// Sets the sideways speed from the controls, if the player is on the
    /// ground.
    pub fn move_ground(&mut self, controls: Controls)
        ensures
            *final(self) == old(self).after_move_ground(controls),
    {
        if !self.is_grounded {
            return ;
        }
        let right: i64 = if controls.right {
            1
        } else {
            0
        };
        let left: i64 = if controls.left {
            1
        } else {
            0
        };
        self.velocity_x = (right - left) * GROUND_SPEED;
    }

    /// Charges or starts a jump, and tells whether one started.
    pub fn do_jump(&mut self, controls: Controls, dt: u32) -> (jumped: bool)
        ensures
            *final(self) == old(self).after_do_jump(controls, dt as int),
            jumped == old(self).jumps(controls),
    {
        if !self.is_grounded {
            self.jump_power = 0;
            return false;
        }
        if controls.charge {
            self.velocity_x = 0;
            let from: i128 = if self.jump_power > MIN_JUMP_POWER {
                self.jump_power as i128
            } else {
                MIN_JUMP_POWER as i128
            };
            let reached: i128 = from + dt as i128;
            self.jump_power = if reached < MAX_JUMP_POWER as i128 {
                reached as i64
            } else {
                MAX_JUMP_POWER
            };
            return false;
        }
        if self.jump_power == 0 {
            return false;
        }
        let reach: i128 = self.jump_power as i128 * JUMP_REACH as i128;
        let lift: i128 = self.jump_power as i128 * JUMP_LIFT as i128;
        self.velocity_x = saturate(
            if self.is_flipped {
                -reach
            } else {
                reach
            },
        );
        self.velocity_y = saturate(-lift);
        self.jump_power = 0;
        self.is_grounded = false;
        true
    }

    /// Whether the player's corner is within claiming distance of a lantern.
    pub fn can_claim_lantern(&self, lantern: &Lantern) -> (near: bool)
        ensures
            near == self.reaches(*lantern),
    {
        let dx: i128 = self.actor.collider.x as i128 - lantern.pos.x as i128;
        let dy: i128 = self.actor.collider.y as i128 - lantern.pos.y as i128;
        length_squared(dx, dy) < (CLAIM_DISTANCE * CLAIM_DISTANCE) as i128
    }

    /// Claims a lantern: the player comes back there from now on.
    pub fn claim_lantern(&mut self, lantern: &mut Lantern)
        ensures
            *final(self) == (Player { respawn_position: old(lantern).pos, ..*old(self) }),
            *final(lantern) == (Lantern { is_claimed: true, ..*old(lantern) }),
    {
        lantern.is_claimed = true;
        self.respawn_position = lantern.pos;
    }

    /// Carries a dead player towards its lantern for `dt` microseconds.
    pub fn fly_towards_spawnpoint(&mut self, dt: u32)
        requires
            old(self).wf(),
        ensures
            *final(self) == old(self).flown(dt as int),
            final(self).wf(),
    {
        let target_x: i128 = self.respawn_position.x as i128 * 1_000_000;
        let target_y: i128 = self.respawn_position.y as i128 * 1_000_000;
        let from_x: i128 = self.actor.collider.x as i128 * 1_000_000 + self.soul_x as i128;
        let from_y: i128 = self.actor.collider.y as i128 * 1_000_000 + self.soul_y as i128;
        let dx: i128 = target_x - from_x;
        let dy: i128 = target_y - from_y;
        let length: i128 = integer_sqrt(length_squared(dx, dy) as u128) as i128;
        let step: i128 = FLY_SPEED as i128 * dt as i128;
        let mut off_x: i64 = 0;
        let mut off_y: i64 = 0;
        if length != 0 {
            assert(-0x20_0000_0000_0000 * 0x100_0000_0000 <= dx * step <= 0x20_0000_0000_0000
                * 0x100_0000_0000) by (nonlinear_arith)
                requires
                    -0x20_0000_0000_0000 <= dx <= 0x20_0000_0000_0000,
                    0 <= step <= 0x100_0000_0000,
            ;
            assert(-0x20_0000_0000_0000 * 0x100_0000_0000 <= dy * step <= 0x20_0000_0000_0000
                * 0x100_0000_0000) by (nonlinear_arith)
                requires
                    -0x20_0000_0000_0000 <= dy <= 0x20_0000_0000_0000,
                    0 <= step <= 0x100_0000_0000,
            ;
            off_x = saturate(divide(dx * step, length));
            off_y = saturate(divide(dy * step, length));
        }
        proof {
            lemma_residue_bounded(from_x + off_x);
            lemma_residue_bounded(from_y + off_y);
        }
        let (x, soul_x) = settle(from_x + off_x as i128);
        let (y, soul_y) = settle(from_y + off_y as i128);
        self.actor.collider.x = x;
        self.actor.collider.y = y;
        self.soul_x = soul_x;
        self.soul_y = soul_y;
        let left_x: i128 = target_x - (x as i128 * 1_000_000 + soul_x as i128);
        let left_y: i128 = target_y - (y as i128 * 1_000_000 + soul_y as i128);
        let near: i128 = 4_000_000_000_000;
        if length_squared(left_x, left_y) > near {
            return ;
        }
        self.actor.place_at(self.respawn_position);
        self.soul_x = 0;
        self.soul_y = 0;
        self.is_dead = false;
    }

    /// Lets `dt` microseconds pass. A dead player flies towards its lantern.
    /// A living one takes its speed from the controls and from gravity, moves
    /// sideways and then vertically against `solids`, and takes the
    /// consequences of what stopped it.
    pub fn update(&mut self, controls: Controls, dt: u32, solids: &Vec<Solid>) -> (events:
        PlayerEvents)
        requires
            old(self).wf(),
        ensures
            *final(self) == old(self).updated(controls, dt as int, solids@),
            events == old(self).update_events(controls, dt as int, solids@),
            final(self).wf(),
    {
        if self.is_dead {
            self.fly_towards_spawnpoint(dt);
            return PlayerEvents { jumped: false, bounced: false, landed: false };
        }
        self.move_ground(controls);
        if self.velocity_x != 0 {
            self.is_flipped = self.velocity_x < 0;
        }
        let jumped = self.do_jump(controls, dt);
        self.velocity_y = saturate(self.velocity_y as i128 + GRAVITY as i128 * dt as i128);
        assert(*self == old(self).before_moves(controls, dt as int));

        let x_collision = self.actor.move_x(travel_in(self.velocity_x, dt), solids);
        let y_collision = self.actor.move_y(travel_in(self.velocity_y, dt), solids);

        let (bounced, landed) = self.take_contacts(x_collision, y_collision);
        PlayerEvents { jumped, bounced, landed }
    }

    /// Takes the consequences of the reports of the two moves of a tick, and
    /// tells whether a wall turned the player around and whether the player
    /// came down on ground.
    pub fn take_contacts(&mut self, x: ActorCollisionResult, y: ActorCollisionResult) -> (r: (
        bool,
        bool,
    ))
        ensures
            *final(self) == old(self).after_contacts(x, y),
            r.0 == old(self).bounces(x),
            r.1 == old(self).lands(y),
    {
        let mut bounced = false;
        if !self.is_grounded && x.has_collided {
            self.velocity_x = saturate(-(self.velocity_x as i128));
            self.is_flipped = self.velocity_x < 0;
            bounced = true;
        }
        let mut landed = false;
        if y.has_moved || y.has_collided {
            let was_grounded = self.is_grounded;
            self.is_grounded = y.has_collided && y.collision_side > 0;
            landed = !was_grounded && self.is_grounded;
        }
        if y.has_collided {
            if self.velocity_y > DEADLY_SPEED {
                self.is_dead = true;
            }
            self.velocity_y = 0;
        }
        (bounced, landed)
    }

    /// The column of the sprite sheet that shows a living player.
    pub fn sprite_x(&self) -> (column: u8)
        ensures
            column == self.sprite_column(),
    {
        let mut column: u8 = 0;
        if self.jump_power > 0 {
            column = 8;
        }
        if !self.is_grounded {
            column = if self.velocity_y < 0 {
                16
            } else {
                24
            };
        }
        column
    }
}

} // verus!
