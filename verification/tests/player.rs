use hallowden::actor::Actor;
use hallowden::lantern::Lantern;
use hallowden::player::{Controls, Player, PlayerEvents};
use hallowden::rect::{Point, Rect};
use hallowden::solid::Solid;

const IDLE: Controls = Controls { left: false, right: false, charge: false };
const RIGHT: Controls = Controls { left: false, right: true, charge: false };
const LEFT: Controls = Controls { left: true, right: false, charge: false };
const BOTH: Controls = Controls { left: true, right: true, charge: false };
const CHARGE: Controls = Controls { left: false, right: false, charge: true };
const QUIET: PlayerEvents = PlayerEvents { jumped: false, bounced: false, landed: false };

fn floor() -> Vec<Solid> {
    vec![Solid::new(Rect::new(-100, 16, 300, 10))]
}

fn standing() -> Player {
    let mut p = Player::new();
    p.actor.collider.y = 8;
    p.is_grounded = true;
    p
}

#[test]
fn new_player_is_at_rest_in_the_air() {
    let p = Player::new();
    assert_eq!(p.velocity_x, 0);
    assert_eq!(p.velocity_y, 0);
    assert!(!p.is_flipped);
    assert!(!p.is_grounded);
    assert_eq!(p.jump_power, 0);
    assert!(!p.is_dead);
    assert_eq!(p.respawn_position, Point { x: 0, y: 0 });
    assert_eq!(p.soul_x, 0);
    assert_eq!(p.soul_y, 0);
    assert_eq!(p.actor, Actor::new(Rect::new(0, 0, 6, 8)));
}

#[test]
fn falling_gathers_speed_until_the_floor() {
    let solids = floor();
    let mut p = Player::new();

    assert_eq!(p.update(IDLE, 100_000, &solids), QUIET);
    assert_eq!(p.velocity_y, 9_800_000);
    assert_eq!(p.actor.collider.y, 1);
    assert_eq!(p.actor.y_remainder, -20_000);
    assert!(!p.is_grounded);

    assert_eq!(p.update(IDLE, 100_000, &solids), QUIET);
    assert_eq!(p.velocity_y, 19_600_000);
    assert_eq!(p.actor.collider.y, 3);
    assert_eq!(p.actor.y_remainder, -60_000);

    assert_eq!(p.update(IDLE, 100_000, &solids), QUIET);
    assert_eq!(p.velocity_y, 29_400_000);
    assert_eq!(p.actor.collider.y, 6);
    assert_eq!(p.actor.y_remainder, -120_000);

    let events = p.update(IDLE, 100_000, &solids);
    assert_eq!(events, PlayerEvents { jumped: false, bounced: false, landed: true });
    assert_eq!(p.velocity_y, 0);
    assert_eq!(p.actor.collider.y, 8);
    assert_eq!(p.actor.y_remainder, -200_000);
    assert!(p.is_grounded);
    assert!(!p.is_dead);
    assert_eq!(p.actor.collider.x, 0);
    assert_eq!(p.velocity_x, 0);
}

#[test]
fn standing_on_the_floor_stays_grounded() {
    let solids = floor();
    let mut p = standing();
    for _ in 0..20 {
        assert_eq!(p.update(IDLE, 16_667, &solids), QUIET);
        assert!(p.is_grounded);
        assert_eq!(p.actor.collider, Rect { x: 0, y: 8, w: 6, h: 8 });
    }
}

#[test]
fn walking_follows_the_controls() {
    let solids = floor();
    let mut p = standing();
    assert_eq!(p.update(RIGHT, 100_000, &solids), QUIET);
    assert_eq!(p.velocity_x, 15_000_000);
    assert!(!p.is_flipped);
    assert_eq!(p.actor.collider.x, 2);
    assert_eq!(p.actor.x_remainder, -500_000);
    assert_eq!(p.actor.collider.y, 8);
    assert_eq!(p.actor.y_remainder, -20_000);
    assert_eq!(p.velocity_y, 0);
    assert!(p.is_grounded);

    assert_eq!(p.update(LEFT, 100_000, &solids), QUIET);
    assert_eq!(p.velocity_x, -15_000_000);
    assert!(p.is_flipped);
    assert_eq!(p.actor.collider.x, 0);
    assert_eq!(p.actor.x_remainder, 0);

    assert_eq!(p.update(BOTH, 100_000, &solids), QUIET);
    assert_eq!(p.velocity_x, 0);
    assert!(p.is_flipped);
    assert_eq!(p.actor.collider.x, 0);

    assert_eq!(p.update(IDLE, 100_000, &solids), QUIET);
    assert_eq!(p.velocity_x, 0);
    assert!(p.is_flipped);
}

#[test]
fn controls_have_no_say_in_the_air() {
    let mut p = Player::new();
    p.velocity_x = 4_000_000;
    p.move_ground(LEFT);
    assert_eq!(p.velocity_x, 4_000_000);
    p.is_grounded = true;
    p.move_ground(LEFT);
    assert_eq!(p.velocity_x, -15_000_000);
    p.move_ground(RIGHT);
    assert_eq!(p.velocity_x, 15_000_000);
    p.move_ground(IDLE);
    assert_eq!(p.velocity_x, 0);
}

#[test]
fn charging_builds_up_from_three_tenths_to_full() {
    let mut p = standing();
    p.velocity_x = 15_000_000;
    assert!(!p.do_jump(CHARGE, 100_000));
    assert_eq!(p.jump_power, 400_000);
    assert_eq!(p.velocity_x, 0);
    assert!(!p.do_jump(CHARGE, 100_000));
    assert_eq!(p.jump_power, 500_000);
    assert!(!p.do_jump(CHARGE, 499_999));
    assert_eq!(p.jump_power, 999_999);
    assert!(!p.do_jump(CHARGE, 1));
    assert_eq!(p.jump_power, 1_000_000);
    assert!(!p.do_jump(CHARGE, u32::MAX));
    assert_eq!(p.jump_power, 1_000_000);
    assert!(p.is_grounded);
}

#[test]
fn charge_is_lost_in_the_air() {
    let mut p = Player::new();
    p.jump_power = 700_000;
    assert!(!p.do_jump(CHARGE, 100_000));
    assert_eq!(p.jump_power, 0);
    p.jump_power = 700_000;
    assert!(!p.do_jump(IDLE, 100_000));
    assert_eq!(p.jump_power, 0);
}

#[test]
fn released_charge_becomes_a_jump() {
    let mut p = standing();
    p.jump_power = 500_000;
    assert!(p.do_jump(IDLE, 100_000));
    assert_eq!(p.velocity_x, 25_000_000);
    assert_eq!(p.velocity_y, -50_000_000);
    assert_eq!(p.jump_power, 0);
    assert!(!p.is_grounded);

    let mut q = standing();
    q.is_flipped = true;
    q.jump_power = 1_000_000;
    assert!(q.do_jump(IDLE, 100_000));
    assert_eq!(q.velocity_x, -50_000_000);
    assert_eq!(q.velocity_y, -100_000_000);

    let mut r = standing();
    assert!(!r.do_jump(IDLE, 100_000));
    assert_eq!(r, standing());
}

#[test]
fn jump_over_a_tick() {
    let solids = floor();
    let mut p = standing();
    assert_eq!(p.update(CHARGE, 100_000, &solids), QUIET);
    assert_eq!(p.jump_power, 400_000);
    assert_eq!(p.update(CHARGE, 100_000, &solids), QUIET);
    assert_eq!(p.jump_power, 500_000);
    let events = p.update(IDLE, 100_000, &solids);
    assert_eq!(events, PlayerEvents { jumped: true, bounced: false, landed: false });
    assert_eq!(p.velocity_x, 25_000_000);
    assert_eq!(p.velocity_y, -40_200_000);
    assert!(!p.is_grounded);
    assert_eq!(p.jump_power, 0);
    assert_eq!(p.actor.collider.x, 3);
    assert_eq!(p.actor.x_remainder, -500_000);
    assert_eq!(p.actor.collider.y, 4);
    assert_eq!(p.actor.y_remainder, -60_000);
}

#[test]
fn a_wall_turns_the_player_around_in_the_air() {
    let solids = vec![Solid::new(Rect::new(10, -100, 5, 300))];
    let mut p = Player::new();
    p.velocity_x = 50_000_000;
    let events = p.update(IDLE, 100_000, &solids);
    assert_eq!(events, PlayerEvents { jumped: false, bounced: true, landed: false });
    assert_eq!(p.actor.collider.x, 4);
    assert_eq!(p.velocity_x, -50_000_000);
    assert!(p.is_flipped);
    assert_eq!(p.velocity_y, 9_800_000);
    assert_eq!(p.actor.collider.y, 1);
}

#[test]
fn a_wall_stops_a_walker_without_turning_it() {
    let mut solids = floor();
    solids.push(Solid::new(Rect::new(7, 0, 5, 16)));
    let mut p = standing();
    assert_eq!(p.update(RIGHT, 100_000, &solids), QUIET);
    assert_eq!(p.actor.collider.x, 1);
    assert_eq!(p.velocity_x, 15_000_000);
    assert!(!p.is_flipped);
    assert!(p.is_grounded);
}

#[test]
fn a_ceiling_ends_the_rise_without_grounding() {
    let solids = vec![Solid::new(Rect::new(-100, -10, 300, 5))];
    let mut p = Player::new();
    p.velocity_y = -80_000_000;
    let events = p.update(IDLE, 100_000, &solids);
    assert_eq!(events, QUIET);
    assert_eq!(p.actor.collider.y, -5);
    assert_eq!(p.velocity_y, 0);
    assert!(!p.is_grounded);
    assert!(!p.is_dead);
}

#[test]
fn a_hard_landing_kills() {
    let solids = floor();
    let mut p = Player::new();
    p.actor.collider.y = 8;
    p.velocity_y = 150_000_000;
    let events = p.update(IDLE, 10_000, &solids);
    assert_eq!(events, PlayerEvents { jumped: false, bounced: false, landed: true });
    assert!(p.is_dead);
    assert!(p.is_grounded);
    assert_eq!(p.velocity_y, 0);
    assert_eq!(p.actor.collider.y, 8);
}

#[test]
fn a_landing_at_the_deadly_speed_itself_is_survived() {
    let solids = floor();
    let mut p = Player::new();
    p.actor.collider.y = 8;
    p.velocity_y = 100_000_000 - 980_000;
    p.update(IDLE, 10_000, &solids);
    assert!(!p.is_dead);
    assert!(p.is_grounded);
    let mut q = Player::new();
    q.actor.collider.y = 8;
    q.velocity_y = 100_000_000 - 980_000 + 1;
    q.update(IDLE, 10_000, &solids);
    assert!(q.is_dead);
}

#[test]
fn the_dead_fly_straight_to_the_lantern() {
    let mut p = Player::new();
    p.is_dead = true;
    p.respawn_position = Point { x: 3, y: 4 };
    p.velocity_x = 5;
    let wall = vec![Solid::new(Rect::new(-50, -50, 100, 100))];

    p.actor.x_remainder = 123_456;
    p.actor.y_remainder = -7;

    assert_eq!(p.update(RIGHT, 10_000, &wall), QUIET);
    assert!(p.is_dead);
    assert_eq!(p.actor.collider, Rect { x: 1, y: 1, w: 6, h: 8 });
    assert_eq!(p.soul_x, -400_000);
    assert_eq!(p.soul_y, -200_000);
    assert_eq!(p.actor.x_remainder, 123_456);
    assert_eq!(p.actor.y_remainder, -7);
    assert_eq!(p.velocity_x, 5);
    assert_eq!(p.velocity_y, 0);

    assert_eq!(p.update(RIGHT, 10_000, &wall), QUIET);
    assert!(p.is_dead);
    assert_eq!(p.actor.collider, Rect { x: 1, y: 2, w: 6, h: 8 });
    assert_eq!(p.soul_x, 200_000);
    assert_eq!(p.soul_y, -400_000);
    assert_eq!(p.actor.x_remainder, 123_456);

    assert_eq!(p.update(RIGHT, 10_000, &wall), QUIET);
    assert!(!p.is_dead);
    assert_eq!(p.actor.collider, Rect { x: 3, y: 4, w: 6, h: 8 });
    assert_eq!(p.soul_x, 0);
    assert_eq!(p.soul_y, 0);
    assert_eq!(p.actor.x_remainder, 0);
    assert_eq!(p.actor.y_remainder, 0);
}

#[test]
fn flight_over_a_longer_way() {
    let mut p = Player::new();
    p.is_dead = true;
    p.respawn_position = Point { x: 7, y: 19 };
    p.actor.collider.x = 50;
    p.actor.collider.y = 100;
    p.fly_towards_spawnpoint(16_000);
    assert!(p.is_dead);
    assert_eq!(p.actor.collider, Rect { x: 49, y: 99, w: 6, h: 8 });
    assert_eq!(p.soul_x, 249_777);
    assert_eq!(p.soul_y, -413_210);
    let mut ticks = 1;
    while p.is_dead {
        p.fly_towards_spawnpoint(16_000);
        ticks += 1;
        assert!(ticks < 100);
    }
    assert_eq!(ticks, 57);
    assert_eq!(p.actor.collider, Rect { x: 7, y: 19, w: 6, h: 8 });
    assert_eq!(p.soul_x, 0);
    assert_eq!(p.soul_y, 0);
}

#[test]
fn the_dead_at_the_lantern_live_again_at_once() {
    let mut p = Player::new();
    p.is_dead = true;
    p.respawn_position = Point { x: 0, y: 0 };
    p.actor.x_remainder = 300_000;
    p.soul_y = -500_000;
    p.fly_towards_spawnpoint(0);
    assert!(!p.is_dead);
    assert_eq!(p.actor, Actor::new(Rect::new(0, 0, 6, 8)));
    assert_eq!(p.soul_y, 0);
}

#[test]
fn a_long_tick_overshoots_the_lantern() {
    let mut p = Player::new();
    p.is_dead = true;
    p.respawn_position = Point { x: 10, y: 0 };
    p.fly_towards_spawnpoint(1_000_000);
    assert!(p.is_dead);
    assert_eq!(p.actor.collider.x, 100);
    assert_eq!(p.actor.collider.y, 0);
    p.fly_towards_spawnpoint(880_000);
    assert!(!p.is_dead);
    assert_eq!(p.actor.collider.x, 10);
}

#[test]
fn lanterns_are_claimed_from_less_than_ten_units() {
    let mut p = Player::new();
    p.actor.collider.x = 40;
    p.actor.collider.y = 85;
    assert!(p.can_claim_lantern(&Lantern::new(Point { x: 42, y: 90 })));
    assert!(p.can_claim_lantern(&Lantern::new(Point { x: 40, y: 85 })));
    assert!(p.can_claim_lantern(&Lantern::new(Point { x: 46, y: 92 })));
    assert!(!p.can_claim_lantern(&Lantern::new(Point { x: 46, y: 93 })));
    assert!(!p.can_claim_lantern(&Lantern::new(Point { x: 50, y: 85 })));
    assert!(p.can_claim_lantern(&Lantern::new(Point { x: 31, y: 85 })));
    assert!(!p.can_claim_lantern(&Lantern::new(Point { x: i32::MIN, y: i32::MAX })));
}

#[test]
fn claiming_moves_the_place_of_return() {
    let mut p = Player::new();
    let mut lantern = Lantern::new(Point { x: 42, y: 90 });
    assert!(!lantern.is_claimed);
    p.claim_lantern(&mut lantern);
    assert!(lantern.is_claimed);
    assert_eq!(lantern.pos, Point { x: 42, y: 90 });
    assert_eq!(p.respawn_position, Point { x: 42, y: 90 });
}

#[test]
fn sprite_shows_what_the_player_does() {
    let mut p = standing();
    assert_eq!(p.sprite_x(), 0);
    p.jump_power = 400_000;
    assert_eq!(p.sprite_x(), 8);
    p.is_grounded = false;
    p.velocity_y = -1;
    assert_eq!(p.sprite_x(), 16);
    p.velocity_y = 0;
    assert_eq!(p.sprite_x(), 24);
    p.velocity_y = 5;
    assert_eq!(p.sprite_x(), 24);
}

#[test]
fn extreme_speeds_saturate() {
    let mut p = Player::new();
    p.velocity_y = i64::MAX;
    p.velocity_x = i64::MIN;
    let solids = vec![
        Solid::new(Rect::new(-100, 16, 300, 10)),
        Solid::new(Rect::new(-20, -100, 5, 300)),
    ];
    let events = p.update(IDLE, u32::MAX, &solids);
    assert_eq!(events, PlayerEvents { jumped: false, bounced: true, landed: true });
    assert_eq!(p.actor.collider, Rect { x: -15, y: 8, w: 6, h: 8 });
    assert_eq!(p.velocity_x, i64::MAX);
    assert_eq!(p.velocity_y, 0);
    assert!(p.is_dead);
}

#[test]
fn flight_stops_at_the_end_of_the_grid() {
    let mut p = Player::new();
    p.is_dead = true;
    p.actor.collider.x = i32::MAX - 10;
    p.actor.collider.y = i32::MIN + 10;
    p.respawn_position = Point { x: i32::MAX - 5, y: i32::MIN + 5 };
    p.fly_towards_spawnpoint(u32::MAX);
    assert!(p.is_dead);
    assert_eq!(p.actor.collider, Rect { x: i32::MAX, y: i32::MIN, w: 6, h: 8 });
    assert_eq!(p.soul_x, 0);
    assert_eq!(p.soul_y, 0);
    p.fly_towards_spawnpoint(0);
    assert!(p.is_dead);
    assert_eq!(p.actor.collider, Rect { x: i32::MAX, y: i32::MIN, w: 6, h: 8 });
    p.fly_towards_spawnpoint(70_000);
    assert!(!p.is_dead);
    assert_eq!(p.actor.collider, Rect { x: i32::MAX - 5, y: i32::MIN + 5, w: 6, h: 8 });
}

#[test]
fn contacts_are_taken_one_by_one() {
    let stop = |side: i8| hallowden::actor::ActorCollisionResult::new(false, true, side);
    let free = hallowden::actor::ActorCollisionResult::new(true, false, 0);
    let none = hallowden::actor::ActorCollisionResult::new(false, false, 0);

    let mut p = Player::new();
    p.velocity_x = 7;
    p.velocity_y = 9;
    assert_eq!(p.take_contacts(stop(1), free), (true, false));
    assert_eq!(p.velocity_x, -7);
    assert!(p.is_flipped);
    assert_eq!(p.velocity_y, 9);
    assert!(!p.is_grounded);

    assert_eq!(p.take_contacts(none, stop(1)), (false, true));
    assert!(p.is_grounded);
    assert_eq!(p.velocity_y, 0);
    assert_eq!(p.velocity_x, -7);

    assert_eq!(p.take_contacts(stop(-1), none), (false, false));
    assert!(p.is_grounded);
    assert_eq!(p.velocity_x, -7);

    assert_eq!(p.take_contacts(none, free), (false, false));
    assert!(!p.is_grounded);

    p.is_grounded = true;
    p.velocity_y = -3;
    assert_eq!(p.take_contacts(none, stop(-1)), (false, false));
    assert!(!p.is_grounded);
    assert_eq!(p.velocity_y, 0);
    assert!(!p.is_dead);
}
