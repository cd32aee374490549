use vstd::prelude::*;
use crate::actors::{
    vehicle_size, vehicle_sprite, Crocodile, Raft, Turtle, Vehicle, VehicleKind, Water, MAX_WIDTH,
};
use crate::arena::{actor_wf, inside, kept, run, Actor, ActorView, Arena};
use crate::frog::{Frog, FrogView};
use crate::keys::{key_set_of, no_keys};
use crate::pt::{pt, Pt};

verus! {

/// The rows of the road, top to bottom: vehicles on even rows go right.
pub open spec fn road_row_y(j: int) -> int {
    276 + 32 * j
}

pub open spec fn road_row_speed(j: int) -> int {
    if j % 2 == 0 { 4 } else { -4 }
}

/// Actor `a` is a vehicle of road row `j` in column `i`.
pub open spec fn is_road_vehicle(a: ActorView, i: int, j: int) -> bool {
    match a {
        ActorView::Vehicle(v) => {
            &&& v.pos.y == road_row_y(j)
            &&& v.speed == road_row_speed(j)
            &&& 150 * i + 10 <= v.pos.x <= 150 * i + 50
            &&& exists|kind: VehicleKind|
                v.size == vehicle_size(kind) && v.sprite == vehicle_sprite(kind, v.speed as int)
        },
        _ => false,
    }
}

/// Actor `a` is a raft at height `y` in column `i`, moving `speed`.
pub open spec fn is_river_raft(a: ActorView, i: int, y: int, speed: int) -> bool {
    match a {
        ActorView::Raft(r) => {
            &&& r.pos.y == y
            &&& r.speed == speed
            &&& 200 * i <= r.pos.x <= 200 * i + 150
            &&& r.size == Pt { x: 96, y: 20 }
        },
        _ => false,
    }
}

/// Actor `a` is a fresh turtle 50 pixels after the raft `r`, moving left.
pub open spec fn is_turtle_after(a: ActorView, r: ActorView) -> bool {
    match (a, r) {
        (ActorView::Turtle(t), ActorView::Raft(r)) => t == Turtle {
            pos: Pt { x: (r.pos.x + 146) as i32, y: r.pos.y },
            sprite: Pt { x: 194, y: 134 },
            size: Pt { x: 26, y: 18 },
            speed: -2i32,
            immersed: false,
            counter: 0,
        },
        _ => false,
    }
}

/// Actor `a` is a fresh crocodile trailing the raft `r` by 50 pixels, moving right.
pub open spec fn is_crocodile_before(a: ActorView, r: ActorView) -> bool {
    match (a, r) {
        (ActorView::Crocodile(c), ActorView::Raft(r)) => c == Crocodile {
            pos: Pt { x: (r.pos.x - 146) as i32, y: (r.pos.y - 10) as i32 },
            sprite: Pt { x: 128, y: 189 },
            size: Pt { x: 94, y: 32 },
            speed: 2,
            counter: 0,
        },
        _ => false,
    }
}

/// The eight river actors of column `i`, from index `b`: the raft of row one with
/// its crocodile, the raft of row two with its turtle, the raft of row three, the
/// raft of row four with its turtle, the raft of row five.
pub open spec fn is_river_column(s: Seq<ActorView>, b: int, i: int) -> bool {
    &&& is_river_raft(s[b], i, 87, 2)
    &&& is_crocodile_before(s[b + 1], s[b])
    &&& is_river_raft(s[b + 2], i, 119, -2)
    &&& is_turtle_after(s[b + 3], s[b + 2])
    &&& is_river_raft(s[b + 4], i, 151, 2)
    &&& is_river_raft(s[b + 5], i, 183, -2)
    &&& is_turtle_after(s[b + 6], s[b + 5])
    &&& is_river_raft(s[b + 7], i, 215, 2)
}

/// The frog a game starts with.
pub open spec fn fresh_frog(f: FrogView) -> bool {
    &&& f.pos == Pt { x: 308, y: 440 }
    &&& f.starting_pos == Pt { x: 308, y: 440 }
    &&& f.size == Pt { x: 24, y: 18 }
    &&& f.starting_size == Pt { x: 24, y: 18 }
    &&& f.sprite == Pt { x: 68, y: 6 }
    &&& f.starting_sprite == Pt { x: 68, y: 6 }
    &&& f.step == Pt { x: 0, y: 0 }
    &&& f.speed == 32
    &&& f.lives == 3
    &&& f.blinking == 0
    &&& !f.in_water
    &&& f.wins == seq![false, false, false, false, false]
}

/// The layout of a new game: the river, `nv` columns of five road vehicles,
/// `nr` columns of eight river actors, and the frog last.
pub open spec fn is_layout(s: Seq<ActorView>, nv: int, nr: int) -> bool {
    &&& s.len() == 1 + 5 * nv + 8 * nr + 1
    &&& s[0] == ActorView::Water(Water { pos: Pt { x: 0, y: 82 }, size: Pt { x: 640, y: 156 } })
    &&& forall|i: int, j: int|
        0 <= i < nv && 0 <= j < 5 ==> is_road_vehicle(#[trigger] s[1 + 5 * i + j], i, j)
    &&& forall|i: int| 0 <= i < nr ==> #[trigger] is_river_column(s, 1 + 5 * nv + 8 * i, i)
    &&& s.last() matches ActorView::Frog(f) && fresh_frog(f)
}

/// The frog is the last actor and the only one.
pub open spec fn hero_last(s: Seq<ActorView>) -> bool {
    &&& s.len() > 0
    &&& s.last() is Frog
    &&& forall|k: int| 0 <= k < s.len() - 1 ==> !(#[trigger] s[k] is Frog)
}

pub open spec fn hero(s: Seq<ActorView>) -> FrogView {
    s.last()->Frog_0
}

proof fn lemma_column_prefix(s: Seq<ActorView>, t: Seq<ActorView>, b: int, i: int)
    requires
        is_river_column(s, b, i),
        0 <= b,
        b + 8 <= s.len() <= t.len(),
        t.subrange(0, s.len() as int) == s,
    ensures
        is_river_column(t, b, i),
{
    assert(t[b] == s[b]);
    assert(t[b + 1] == s[b + 1]);
    assert(t[b + 2] == s[b + 2]);
    assert(t[b + 3] == s[b + 3]);
    assert(t[b + 4] == s[b + 4]);
    assert(t[b + 5] == s[b + 5]);
    assert(t[b + 6] == s[b + 6]);
    assert(t[b + 7] == s[b + 7]);
}

/// A game: one arena whose last actor is the frog, and a play time offset in seconds.
pub struct FroggerGame {
    pub arena: Arena,
    pub playtime: i32,
}

impl FroggerGame {
    pub open spec fn wf(&self) -> bool {
        &&& self.arena.wf()
        &&& hero_last(self.arena.view_actors())
        &&& 0 <= self.playtime <= 2_000_000_000
    }

    pub open spec fn hero(&self) -> FrogView {
        hero(self.arena.view_actors())
    }

    /// A new game in an arena of `size` pixels, with `n_vehicle_per_row` vehicles on
    /// each road row and `n_raft_per_row` rafts on each river row, placed with
    /// draws seeded by `seed`.
    pub fn new(size: Pt, n_vehicle_per_row: i32, n_raft_per_row: i32, seed: u64) -> (r:
        FroggerGame)
        requires
            0 <= size.x <= MAX_WIDTH,
            0 <= size.y,
            150 * n_vehicle_per_row + 50 <= i32::MAX,
            200 * n_raft_per_row + 296 <= i32::MAX,
        ensures
            r.wf(),
            r.arena.size == size,
            r.arena.count == 0,
            r.playtime == 0,
            r.arena.curr_keys == no_keys(),
            r.arena.prev_keys == no_keys(),
            is_layout(
                r.arena.view_actors(),
                if n_vehicle_per_row > 0 { n_vehicle_per_row as int } else { 0 },
                if n_raft_per_row > 0 { n_raft_per_row as int } else { 0 },
            ),
    {
        let mut arena = Arena::new(size, seed);
        arena.spawn(Actor::Water(Water::new(pt(0, 82))));
        let nv: i32 = if n_vehicle_per_row > 0 { n_vehicle_per_row } else { 0 };
        let nr: i32 = if n_raft_per_row > 0 { n_raft_per_row } else { 0 };
        let mut i: i32 = 0;
        while i < nv
            invariant
                0 <= i <= nv,
                150 * nv + 50 <= i32::MAX,
                arena.wf(),
                arena.size == size,
                arena.count == 0,
                arena.curr_keys == no_keys(),
                arena.prev_keys == no_keys(),
                arena.actors@.len() == 1 + 5 * i,
                forall|k: int|
                    0 <= k < arena.actors@.len() ==> !(#[trigger] arena.view_actors()[k] is Frog),
                arena.view_actors()[0] == ActorView::Water(
                    Water { pos: Pt { x: 0, y: 82 }, size: Pt { x: 640, y: 156 } },
                ),
                forall|c: int, j: int|
                    0 <= c < i && 0 <= j < 5 ==> is_road_vehicle(
                        #[trigger] arena.view_actors()[1 + 5 * c + j],
                        c,
                        j,
                    ),
            decreases nv - i,
        {
            let ghost before = arena.view_actors();
            let mut j: i32 = 0;
            while j < 5
                invariant
                    0 <= i < nv,
                    0 <= j <= 5,
                    150 * nv + 50 <= i32::MAX,
                    arena.wf(),
                    arena.size == size,
                    arena.count == 0,
                    arena.curr_keys == no_keys(),
                    arena.prev_keys == no_keys(),
                    arena.actors@.len() == 1 + 5 * i + j,
                    forall|k: int|
                        0 <= k < arena.actors@.len() ==> !(#[trigger] arena.view_actors()[k] is Frog),
                    arena.view_actors().subrange(0, 1 + 5 * i) == before,
                    forall|k: int|
                        0 <= k < j ==> is_road_vehicle(
                            #[trigger] arena.view_actors()[1 + 5 * i + k],
                            i as int,
                            k,
                        ),
                decreases 5 - j,
            {
                let speed: i32 = if j % 2 == 0 { 4 } else { -4 };
                let x = i * 150 + arena.rng.randint(10, 50);
                let kind = match arena.rng.randint(0, 2) {
                    0 => VehicleKind::Yellow,
                    1 => VehicleKind::White,
                    _ => VehicleKind::Truck,
                };
                let v = Vehicle::new(pt(x, 276 + 32 * j), speed, kind);
                let ghost mid = arena.view_actors();
                arena.spawn(Actor::Vehicle(v));
                assert(arena.view_actors() =~= mid.push(ActorView::Vehicle(v)));
                assert(arena.view_actors().subrange(0, 1 + 5 * i) =~= before);
                j = j + 1;
            }
            assert forall|c: int, j: int|
                0 <= c < i + 1 && 0 <= j < 5 implies is_road_vehicle(
                #[trigger] arena.view_actors()[1 + 5 * c + j],
                c,
                j,
            ) by {
                if c < i {
                    assert(arena.view_actors()[1 + 5 * c + j] == before[1 + 5 * c + j]);
                } else {
                    assert(arena.view_actors()[1 + 5 * i + j] == arena.view_actors()[1 + 5 * c
                        + j]);
                }
            }
            assert(arena.view_actors()[0] == before[0]);
            i = i + 1;
        }
        let ghost road = arena.view_actors();
        let base: i32 = 1 + 5 * nv;
        let mut i: i32 = 0;
        while i < nr
            invariant
                0 <= i <= nr,
                200 * nr + 296 <= i32::MAX,
                0 <= nv,
                base == 1 + 5 * nv,
                road.len() == base,
                forall|k: int|
                    0 <= k < arena.actors@.len() ==> !(#[trigger] arena.view_actors()[k] is Frog),
                arena.wf(),
                arena.size == size,
                arena.count == 0,
                arena.curr_keys == no_keys(),
                arena.prev_keys == no_keys(),
                arena.actors@.len() == base + 8 * i,
                arena.view_actors().subrange(0, base as int) == road,
                forall|c: int|
                    0 <= c < i ==> #[trigger] is_river_column(
                        arena.view_actors(),
                        base + 8 * c,
                        c,
                    ),
            decreases nr - i,
        {
            let ghost before = arena.view_actors();
            let r1 = Raft::new(pt(i * 200 + arena.rng.randint(0, 150), 87), 2);
            let r2 = Raft::new(pt(i * 200 + arena.rng.randint(0, 150), 119), -2);
            let r3 = Raft::new(pt(i * 200 + arena.rng.randint(0, 150), 151), 2);
            let r4 = Raft::new(pt(i * 200 + arena.rng.randint(0, 150), 183), -2);
            let r5 = Raft::new(pt(i * 200 + arena.rng.randint(0, 150), 215), 2);
            let turtle_offset = pt(r2.size.x + 50, 0);
            let crocodile_offset = pt(r5.size.x + 50, 10);
            let t2 = Turtle::new(r2.pos.add(turtle_offset), -2);
            let t4 = Turtle::new(r4.pos.add(turtle_offset), -2);
            let c1 = Crocodile::new(r1.pos.sub(crocodile_offset), 2);
            arena.spawn(Actor::Raft(r1));
            arena.spawn(Actor::Crocodile(c1));
            arena.spawn(Actor::Raft(r2));
            arena.spawn(Actor::Turtle(t2));
            arena.spawn(Actor::Raft(r3));
            arena.spawn(Actor::Raft(r4));
            arena.spawn(Actor::Turtle(t4));
            arena.spawn(Actor::Raft(r5));
            let ghost added = seq![
                ActorView::Raft(r1),
                ActorView::Crocodile(c1),
                ActorView::Raft(r2),
                ActorView::Turtle(t2),
                ActorView::Raft(r3),
                ActorView::Raft(r4),
                ActorView::Turtle(t4),
                ActorView::Raft(r5),
            ];
            assert(arena.view_actors() =~= before + added);
            assert(arena.view_actors().subrange(0, before.len() as int) =~= before);
            assert(arena.view_actors().subrange(0, base as int) =~= road);
            assert forall|c: int| 0 <= c < i + 1 implies #[trigger] is_river_column(
                arena.view_actors(),
                base + 8 * c,
                c,
            ) by {
                if c < i {
                    lemma_column_prefix(before, arena.view_actors(), base + 8 * c, c);
                }
            }
            i = i + 1;
        }
        let ghost river = arena.view_actors();
        let frog = Frog::new(pt(308, 440));
        arena.spawn(Actor::Frog(frog));
        assert(arena.view_actors() =~= river.push(ActorView::Frog(frog@)));
        assert(arena.view_actors().subrange(0, river.len() as int) =~= river);
        assert(river.subrange(0, base as int) == road);
        assert forall|k: int| 0 <= k < arena.actors@.len() - 1 implies !(
        #[trigger] arena.view_actors()[k] is Frog) by {
            assert(arena.view_actors()[k] == river[k]);
        }
        assert forall|c: int, j: int|
            0 <= c < nv && 0 <= j < 5 implies is_road_vehicle(
            #[trigger] arena.view_actors()[1 + 5 * c + j],
            c,
            j,
        ) by {
            assert(arena.view_actors()[1 + 5 * c + j] == road[1 + 5 * c + j]);
        }
        assert forall|c: int| 0 <= c < nr implies #[trigger] is_river_column(
            arena.view_actors(),
            1 + 5 * nv + 8 * c,
            c,
        ) by {
            lemma_column_prefix(river, arena.view_actors(), base + 8 * c, c);
        }
        assert(arena.view_actors()[0] == road[0]);
        FroggerGame { arena, playtime: 0 }
    }

    /// Whether the frog has no life left.
    pub fn game_over(&self) -> (r: bool)
        requires
            self.wf(),
        ensures
            r == (self.hero().lives <= 0),
    {
        self.remaining_lives() <= 0
    }

    /// Whether the frog has won all five slots.
    pub fn game_won(&self) -> (r: bool)
        requires
            self.wf(),
        ensures
            r == (forall|k: int| 0 <= k < 5 ==> #[trigger] self.hero().wins[k]),
    {
        let actors = self.arena.actors();
        let mut i: usize = 0;
        while i < actors.len()
            invariant
                actors@ == self.arena.actors@,
                self.wf(),
                i <= actors@.len(),
                forall|k: int| 0 <= k < i ==> !(#[trigger] self.arena.view_actors()[k] is Frog),
            decreases actors@.len() - i,
        {
            match &actors[i] {
                Actor::Frog(hero) => {
                    assert(self.arena.view_actors()[i as int] is Frog);
                    assert(i == actors@.len() - 1);
                    assert(actor_wf(self.arena.actors@[i as int]@));
                    assert(self.hero() == hero@);
                    return all_set(&hero.wins);
                },
                _ => {},
            }
            i = i + 1;
        }
        assert(self.arena.view_actors()[actors@.len() - 1] is Frog);
        false
    }

    /// Seconds played: the offset plus one second for every 30 ticks.
    pub fn playing_time(&self) -> (r: i32)
        requires
            self.wf(),
        ensures
            r == self.playtime + self.arena.count / 30,
    {
        self.playtime + self.arena.count() / 30
    }

    /// The frog's lives.
    pub fn remaining_lives(&self) -> (r: i32)
        requires
            self.wf(),
        ensures
            r == self.hero().lives,
    {
        let actors = self.arena.actors();
        let mut i: usize = 0;
        while i < actors.len()
            invariant
                actors@ == self.arena.actors@,
                self.wf(),
                i <= actors@.len(),
                forall|k: int| 0 <= k < i ==> !(#[trigger] self.arena.view_actors()[k] is Frog),
            decreases actors@.len() - i,
        {
            match &actors[i] {
                Actor::Frog(hero) => {
                    assert(self.arena.view_actors()[i as int] is Frog);
                    assert(i == actors@.len() - 1);
                    return hero.lives;
                },
                _ => {},
            }
            i = i + 1;
        }
        assert(self.arena.view_actors()[actors@.len() - 1] is Frog);
        0
    }

    /// One tick with the key list `keys` held (such as `"ArrowUp ArrowLeft"`).
    pub fn tick(&mut self, keys: String)
        requires
            old(self).wf(),
        ensures
            final(self).wf(),
            final(self).playtime == old(self).playtime,
            final(self).arena.size == old(self).arena.size,
            final(self).arena.prev_keys == old(self).arena.curr_keys,
            final(self).arena.curr_keys == key_set_of(keys@),
            final(self).arena.count == (if old(self).arena.count < i32::MAX {
                old(self).arena.count + 1
            } else {
                old(self).arena.count as int
            }),
            exists|dives: Seq<bool>|
                dives.len() == old(self).arena.actors@.len() && final(self).arena.view_actors()
                    == run(
                    old(self).arena.view_actors(),
                    old(self).arena.size.x as int,
                    old(self).arena.size.y as int,
                    old(self).arena.curr_keys,
                    key_set_of(keys@),
                    dives,
                    old(self).arena.actors@.len() as int,
                ),
            forall|k: int| 0 <= k < 5 && old(self).hero().wins[k] ==> #[trigger] final(self).hero().wins[k],
            24 <= old(self).arena.size.x && 24 <= old(self).arena.size.y ==> {
                &&& 0 <= final(self).hero().pos.x <= final(self).arena.size.x - final(self).hero().size.x
                &&& 0 <= final(self).hero().pos.y <= final(self).arena.size.y - final(self).hero().size.y
            },
    {
        self.arena.tick(keys.as_str());
        let ghost last = self.arena.actors@.len() - 1;
        assert(kept(old(self).arena.view_actors()[last], self.arena.view_actors()[last]));
        if 24 <= self.arena.size.x && 24 <= self.arena.size.y {
            assert(inside(
                self.arena.view_actors()[last],
                self.arena.size.x as int,
                self.arena.size.y as int,
            ));
        }
        assert forall|k: int| 0 <= k < self.arena.actors@.len() - 1 implies !(
        #[trigger] self.arena.view_actors()[k] is Frog) by {
            assert(kept(old(self).arena.view_actors()[k], self.arena.view_actors()[k]));
        }
    }

    /// The arena's size in pixels.
    pub fn size(&self) -> (r: Pt)
        ensures
            r == self.arena.size,
    {
        self.arena.size()
    }

    /// The actors, in the order in which they act and are drawn.
    pub fn actors(&self) -> (r: &Vec<Actor>)
        ensures
            r@ == self.arena.actors@,
    {
        self.arena.actors()
    }
}

/// Whether every flag is set.
fn all_set(v: &Vec<bool>) -> (r: bool)
    ensures
        r == (forall|k: int| 0 <= k < v@.len() ==> #[trigger] v@[k]),
{
    let mut i: usize = 0;
    while i < v.len()
        invariant
            i <= v@.len(),
            forall|k: int| 0 <= k < i ==> #[trigger] v@[k],
        decreases v@.len() - i,
    {
        if !v[i] {
            return false;
        }
        i = i + 1;
    }
    true
}

} // verus!
