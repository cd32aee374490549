use frogger::actors::{Crocodile, Raft, Turtle, Vehicle, VehicleKind, Water};
use frogger::arena::{Actor, Arena};
use frogger::frog::{Contact, Frog};
use frogger::game::FroggerGame;
use frogger::keys::KeySet;
use frogger::pt::{pt, Pt};
use frogger::rng::Rng;

fn hero(arena: &Arena) -> &Frog {
    match arena.actors().last() {
        Some(Actor::Frog(f)) => f,
        _ => panic!("no frog"),
    }
}

fn hero_mut(arena: &mut Arena) -> &mut Frog {
    match arena.actors.last_mut() {
        Some(Actor::Frog(f)) => f,
        _ => panic!("no frog"),
    }
}

#[test]
fn point_arithmetic() {
    let a = pt(3, -4);
    let b = pt(10, 20);
    assert_eq!(a.add(b), Pt { x: 13, y: 16 });
    assert_eq!(a.sub(b), Pt { x: -7, y: -24 });
}

#[test]
fn key_list_parsing() {
    let k = KeySet::parse("ArrowUp ArrowLeft");
    assert!(k.up && k.left && !k.down && !k.right);
    let k = KeySet::parse("ArrowDown;ArrowRight");
    assert!(!k.up && !k.left && k.down && k.right);
    assert_eq!(KeySet::parse(""), KeySet::none());
    assert_eq!(KeySet::parse("Arrow Up"), KeySet::none());
}

#[test]
fn randint_stays_in_range() {
    let mut r = Rng::new(12345);
    for _ in 0..1000 {
        let v = r.randint(10, 50);
        assert!((10..=50).contains(&v));
    }
    let mut r = Rng::new(7);
    assert_eq!(r.randint(5, 5), 5);
}

#[test]
fn up_press_moves_frog_one_step() {
    let mut arena = Arena::new(pt(480, 360), 1);
    arena.spawn(Actor::Frog(Frog::new(pt(308, 300))));
    arena.tick("ArrowUp");
    let f = hero(&arena);
    assert_eq!(f.pos, pt(308, 268));
    assert_eq!(f.size, pt(24, 18));
}

#[test]
fn up_press_from_below_the_arena_is_clamped() {
    let mut arena = Arena::new(pt(480, 360), 1);
    arena.spawn(Actor::Frog(Frog::new(pt(308, 440))));
    arena.tick("ArrowUp");
    let f = hero(&arena);
    assert_eq!(f.pos, pt(308, 360 - 18));
    assert_eq!(f.size, pt(24, 18));
}

#[test]
fn up_press_at_the_top_stops_at_zero() {
    let mut arena = Arena::new(pt(480, 360), 1);
    arena.spawn(Actor::Frog(Frog::new(pt(308, 10))));
    arena.tick("ArrowUp");
    assert_eq!(hero(&arena).pos, pt(308, 0));
}

#[test]
fn frog_steps_in_all_directions() {
    let mut arena = Arena::new(pt(480, 360), 1);
    arena.spawn(Actor::Frog(Frog::new(pt(200, 200))));
    arena.tick("ArrowDown ArrowRight");
    let f = hero(&arena);
    assert_eq!(f.pos, pt(232, 232));
    assert_eq!(f.size, pt(18, 24));
    assert_eq!(f.sprite, pt(6, 36));
    arena.tick("");
    arena.tick("ArrowLeft");
    let f = hero(&arena);
    assert_eq!(f.pos, pt(200, 232));
    assert_eq!(f.sprite, pt(166, 4));
}

#[test]
fn held_key_moves_only_once() {
    let mut arena = Arena::new(pt(480, 360), 1);
    arena.spawn(Actor::Frog(Frog::new(pt(308, 300))));
    arena.tick("ArrowUp");
    assert_eq!(hero(&arena).pos, pt(308, 268));
    arena.tick("ArrowUp");
    assert_eq!(hero(&arena).pos, pt(308, 268));
    arena.tick("ArrowUp");
    assert_eq!(hero(&arena).pos, pt(308, 268));
    arena.tick("");
    arena.tick("ArrowUp");
    assert_eq!(hero(&arena).pos, pt(308, 236));
    assert_eq!(arena.previous_keys(), KeySet::none());
    assert!(arena.current_keys().up);
    assert_eq!(arena.count(), 5);
}

#[test]
fn frog_stays_inside_small_arena() {
    let mut arena = Arena::new(pt(40, 30), 1);
    arena.spawn(Actor::Frog(Frog::new(pt(0, 0))));
    for keys in ["ArrowLeft", "", "ArrowUp", "", "ArrowRight", "", "ArrowDown", ""] {
        arena.tick(keys);
        let f = hero(&arena);
        assert!(0 <= f.pos.x && f.pos.x <= 40 - f.size.x);
        assert!(0 <= f.pos.y && f.pos.y <= 30 - f.size.y);
    }
}

#[test]
fn vehicle_wraps_past_right_margin() {
    let mut v = Vehicle::new(pt(750, 276), 4, VehicleKind::Yellow);
    v.act(480);
    assert_eq!(v.pos, pt(-70, 276));
}

#[test]
fn vehicle_wraps_when_it_first_exceeds_margin() {
    let mut v = Vehicle::new(pt(542, 276), 4, VehicleKind::White);
    v.act(480);
    assert_eq!(v.pos.x, 546);
    v.act(480);
    assert_eq!(v.pos.x, 550);
    v.act(480);
    assert_eq!(v.pos.x, -70);
    v.act(480);
    assert_eq!(v.pos.x, -66);
}

#[test]
fn vehicle_going_left_wraps_to_width() {
    let mut v = Vehicle::new(pt(-68, 308), -4, VehicleKind::Truck);
    v.act(480);
    assert_eq!(v.pos.x, -72 + 552);
    assert_eq!(v.size, pt(62, 24));
    assert_eq!(v.sprite, pt(192, 68));
}

#[test]
fn vehicle_looks() {
    assert_eq!(Vehicle::new(pt(0, 0), 4, VehicleKind::Yellow).sprite, pt(192, 4));
    assert_eq!(Vehicle::new(pt(0, 0), -4, VehicleKind::Yellow).sprite, pt(192, 36));
    assert_eq!(Vehicle::new(pt(0, 0), 4, VehicleKind::White).sprite, pt(224, 4));
    assert_eq!(Vehicle::new(pt(0, 0), -4, VehicleKind::White).sprite, pt(224, 36));
    assert_eq!(Vehicle::new(pt(0, 0), 4, VehicleKind::Truck).sprite, pt(258, 68));
    assert_eq!(Vehicle::new(pt(0, 0), 4, VehicleKind::White).size, pt(32, 26));
}

#[test]
fn raft_wraps_after_its_length() {
    let mut r = Raft::new(pt(574, 87), 2);
    r.act(480);
    assert_eq!(r.pos.x, 576);
    r.act(480);
    assert_eq!(r.pos.x, -96);
    let mut r = Raft::new(pt(-95, 119), -2);
    r.act(480);
    assert_eq!(r.pos.x, 480);
}

#[test]
fn turtle_without_dive_keeps_swimming() {
    let mut t = Turtle::new(pt(100, 119), -2);
    for _ in 0..50 {
        t.act(480, false);
    }
    assert_eq!(t.counter, 10);
    assert_eq!(t.sprite, pt(224, 132));
    assert!(!t.immersed);
    assert_eq!(t.pos.x, 0);
}

#[test]
fn turtle_phase_table() {
    let mut t = Turtle::new(pt(100, 119), -2);
    t.act(480, true);
    assert_eq!(t.counter, 21);
    assert_eq!((t.sprite, t.size, t.immersed), (pt(194, 134), pt(26, 18), false));
    for _ in 21..50 {
        t.act(480, false);
    }
    assert_eq!(t.counter, 50);
    t.act(480, false);
    assert_eq!((t.sprite, t.size, t.immersed), (pt(198, 164), pt(20, 20), true));
    for _ in 51..70 {
        t.act(480, false);
    }
    t.act(480, false);
    assert_eq!((t.sprite, t.size, t.immersed), (pt(226, 162), pt(28, 26), true));
    for _ in 71..130 {
        t.act(480, false);
    }
    t.act(480, false);
    assert_eq!((t.sprite, t.size, t.immersed), (pt(198, 164), pt(20, 20), true));
    for _ in 131..150 {
        t.act(480, false);
    }
    t.act(480, false);
    assert_eq!((t.sprite, t.size, t.immersed), (pt(194, 134), pt(26, 18), false));
    for _ in 151..170 {
        t.act(480, false);
    }
    assert_eq!(t.counter, 0);
    t.act(480, false);
    assert_eq!((t.sprite, t.size, t.immersed), (pt(224, 132), pt(30, 22), false));
}

#[test]
fn crocodile_opens_its_jaws() {
    let mut c = Crocodile::new(pt(0, 77), 2);
    for _ in 0..10 {
        c.act(480);
        assert_eq!(c.sprite, pt(128, 189));
    }
    c.act(480);
    assert_eq!(c.sprite, pt(192, 224));
    assert_eq!(c.counter, 11);
    assert_eq!(c.pos.x, 22);
}

#[test]
fn vehicle_costs_a_life() {
    let mut f = Frog::new(pt(100, 200));
    f.pos = pt(110, 210);
    f.act(480, 360, KeySet::none(), KeySet::none(), &vec![Contact::Vehicle]);
    assert_eq!(f.lives, 2);
    assert_eq!(f.pos, pt(100, 200));
    assert_eq!(f.blinking, 59);
    assert!(!f.in_water);
}

#[test]
fn blinking_frog_ignores_hazards() {
    let mut f = Frog::new(pt(100, 200));
    f.blinking = 10;
    f.act(480, 360, KeySet::none(), KeySet::none(), &vec![Contact::Vehicle, Contact::Crocodile]);
    assert_eq!(f.lives, 3);
    assert_eq!(f.blinking, 9);
    f.in_water = true;
    f.act(480, 360, KeySet::none(), KeySet::none(), &vec![Contact::Water]);
    assert_eq!(f.lives, 3);
}

#[test]
fn water_without_support_drowns() {
    let mut f = Frog::new(pt(100, 200));
    f.act(480, 360, KeySet::none(), KeySet::none(), &vec![Contact::Water]);
    assert_eq!(f.lives, 2);
    assert!(!f.in_water);
}

#[test]
fn raft_carries_the_frog() {
    let mut f = Frog::new(pt(100, 200));
    f.act(480, 360, KeySet::none(), KeySet::none(), &vec![Contact::Water, Contact::Raft { speed: -2 }]);
    assert_eq!(f.lives, 3);
    assert_eq!(f.pos, pt(98, 200));
    let c = vec![Contact::Water, Contact::Turtle { immersed: false, speed: 2 }];
    f.act(480, 360, KeySet::none(), KeySet::none(), &c);
    assert_eq!(f.pos, pt(100, 200));
    let c = vec![Contact::Water, Contact::Turtle { immersed: true, speed: 2 }];
    f.act(480, 360, KeySet::none(), KeySet::none(), &c);
    assert_eq!(f.lives, 2);
}

#[test]
fn water_flag_persists_without_contact() {
    let mut f = Frog::new(pt(100, 200));
    f.in_water = true;
    f.act(480, 360, KeySet::none(), KeySet::none(), &vec![]);
    assert_eq!(f.lives, 2);
}

#[test]
fn two_hazards_in_one_tick_cost_two_lives() {
    let mut f = Frog::new(pt(100, 200));
    f.act(480, 360, KeySet::none(), KeySet::none(), &vec![Contact::Vehicle, Contact::Vehicle]);
    assert_eq!(f.lives, 1);
}

#[test]
fn blinking_frog_flickers() {
    let mut f = Frog::new(pt(100, 200));
    assert_eq!(f.sprite(), Some(pt(68, 6)));
    f.blinking = 60;
    assert_eq!(f.sprite(), None);
    f.blinking = 58;
    assert_eq!(f.sprite(), Some(pt(68, 6)));
    f.blinking = 57;
    assert_eq!(f.sprite(), None);
    f.lives = 0;
    assert!(!f.alive());
}

#[test]
fn frog_wins_a_slot_once() {
    let mut f = Frog::new(pt(170, 400));
    f.pos = pt(180, 60);
    f.act(640, 480, KeySet::none(), KeySet::none(), &vec![]);
    assert_eq!(f.get_wins(), &vec![false, true, false, false, false]);
    assert_eq!(f.pos, pt(170, 400));
    assert_eq!(f.size, f.get_starting_size());
    assert_eq!(f.sprite, f.get_starting_sprite());
    f.pos = pt(180, 60);
    f.act(640, 480, KeySet::none(), KeySet::none(), &vec![]);
    assert_eq!(f.get_wins(), &vec![false, true, false, false, false]);
    assert_eq!(f.pos, pt(180, 60));
    f.act(640, 480, KeySet::none(), KeySet::none(), &vec![Contact::Vehicle]);
    assert!(f.get_wins()[1]);
}

#[test]
fn leftmost_free_slot_counts() {
    let mut f = Frog::new(pt(0, 400));
    f.pos = pt(552, 60);
    f.act(640, 480, KeySet::none(), KeySet::none(), &vec![]);
    assert_eq!(f.get_wins(), &vec![false, false, false, false, true]);
}

#[test]
fn arena_reports_collisions_to_the_frog() {
    let mut arena = Arena::new(pt(640, 480), 3);
    arena.spawn(Actor::Water(Water::new(pt(0, 82))));
    arena.spawn(Actor::Raft(Raft::new(pt(290, 119), 2)));
    arena.spawn(Actor::Frog(Frog::new(pt(300, 120))));
    arena.tick("");
    let f = hero(&arena);
    assert_eq!(f.lives, 3);
    assert_eq!(f.pos, pt(302, 120));
    hero_mut(&mut arena).pos = pt(10, 120);
    arena.tick("");
    let f = hero(&arena);
    assert_eq!(f.lives, 2);
    assert_eq!(f.pos, pt(300, 120));
}

#[test]
fn touching_edges_do_not_collide() {
    let mut arena = Arena::new(pt(640, 480), 3);
    arena.spawn(Actor::Vehicle(Vehicle::new(pt(276, 300), 0, VehicleKind::Yellow)));
    arena.spawn(Actor::Frog(Frog::new(pt(308, 300))));
    arena.tick("");
    assert_eq!(hero(&arena).lives, 3);
    hero_mut(&mut arena).pos = pt(307, 300);
    arena.tick("");
    assert_eq!(hero(&arena).lives, 2);
}

#[test]
fn actor_queries() {
    let w = Actor::Water(Water::new(pt(0, 82)));
    assert_eq!(w.sprite(), None);
    assert_eq!(w.size(), pt(640, 156));
    assert!(w.alive());
    let r = Actor::Raft(Raft::new(pt(5, 87), 2));
    assert_eq!(r.sprite(), Some(pt(192, 102)));
    assert_eq!(r.pos(), pt(5, 87));
}

#[test]
fn new_game_layout() {
    let game = FroggerGame::new(pt(480, 360), 3, 2, 42);
    let actors = game.actors();
    assert_eq!(actors.len(), 1 + 15 + 16 + 1);
    assert!(matches!(actors[0], Actor::Water(_)));
    for i in 0..3 {
        for j in 0..5 {
            match &actors[1 + 5 * i + j] {
                Actor::Vehicle(v) => {
                    assert_eq!(v.pos.y, 276 + 32 * j as i32);
                    assert!(v.pos.x >= 150 * i as i32 + 10 && v.pos.x <= 150 * i as i32 + 50);
                    assert_eq!(v.speed, if j % 2 == 0 { 4 } else { -4 });
                }
                _ => panic!("expected a vehicle"),
            }
        }
    }
    match (&actors[16], &actors[17]) {
        (Actor::Raft(r), Actor::Crocodile(c)) => {
            assert_eq!(c.pos, pt(r.pos.x - 146, 77));
        }
        _ => panic!("expected a raft and a crocodile"),
    }
    match (&actors[18], &actors[19]) {
        (Actor::Raft(r), Actor::Turtle(t)) => assert_eq!(t.pos, pt(r.pos.x + 146, 119)),
        _ => panic!("expected a raft and a turtle"),
    }
    match actors.last() {
        Some(Actor::Frog(f)) => assert_eq!(f.pos, pt(308, 440)),
        _ => panic!("expected the frog last"),
    }
    assert_eq!(game.size(), pt(480, 360));
    assert_eq!(game.remaining_lives(), 3);
    assert!(!game.game_over());
    assert!(!game.game_won());
    assert_eq!(game.playing_time(), 0);
}

#[test]
fn playing_time_counts_seconds() {
    let mut game = FroggerGame::new(pt(640, 480), 1, 1, 9);
    for _ in 0..59 {
        game.tick(String::new());
    }
    assert_eq!(game.playing_time(), 1);
    game.tick(String::new());
    assert_eq!(game.playing_time(), 2);
}

#[test]
fn game_won_needs_all_five_slots() {
    let mut game = FroggerGame::new(pt(640, 480), 0, 0, 1);
    hero_mut(&mut game.arena).wins = vec![true, true, true, true, false];
    assert!(!game.game_won());
    hero_mut(&mut game.arena).wins = vec![true; 5];
    assert!(game.game_won());
}

#[test]
fn game_over_when_lives_run_out() {
    let mut game = FroggerGame::new(pt(640, 480), 0, 0, 1);
    hero_mut(&mut game.arena).lives = 1;
    assert!(!game.game_over());
    hero_mut(&mut game.arena).lives = 0;
    assert!(game.game_over());
    assert_eq!(game.remaining_lives(), 0);
}

#[test]
fn negative_counts_spawn_nothing() {
    let game = FroggerGame::new(pt(640, 480), -2, -1, 1);
    assert_eq!(game.actors().len(), 2);
}
