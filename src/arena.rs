use vstd::prelude::*;
use crate::actors::{
    crocodile_step, raft_step, turtle_step, vehicle_step, Crocodile, Raft, Turtle, Vehicle, Water,
    MAX_WIDTH,
};
use crate::frog::{
    frog_step, frog_visible, frog_wf, lemma_frog_stays_inside, lemma_held_keys_do_nothing,
    lemma_wins_kept, Contact, Frog, FrogView,
};
use crate::keys::{key_set_of, no_keys, KeySet};
use crate::pt::{pt, Pt};
use crate::rng::Rng;

verus! {

/// Any actor of the arena.
pub enum Actor {
    Vehicle(Vehicle),
    Raft(Raft),
    Turtle(Turtle),
    Crocodile(Crocodile),
    Water(Water),
    Frog(Frog),
}

/// The state of an actor.
pub enum ActorView {
    Vehicle(Vehicle),
    Raft(Raft),
    Turtle(Turtle),
    Crocodile(Crocodile),
    Water(Water),
    Frog(FrogView),
}

impl View for Actor {
    type V = ActorView;

    open spec fn view(&self) -> ActorView {
        match self {
            Actor::Vehicle(v) => ActorView::Vehicle(*v),
            Actor::Raft(r) => ActorView::Raft(*r),
            Actor::Turtle(t) => ActorView::Turtle(*t),
            Actor::Crocodile(c) => ActorView::Crocodile(*c),
            Actor::Water(w) => ActorView::Water(*w),
            Actor::Frog(f) => ActorView::Frog(f@),
        }
    }
}

pub open spec fn views(s: Seq<Actor>) -> Seq<ActorView> {
    Seq::new(s.len(), |i: int| s[i]@)
}

pub open spec fn pos_of(a: ActorView) -> Pt {
    match a {
        ActorView::Vehicle(v) => v.pos,
        ActorView::Raft(r) => r.pos,
        ActorView::Turtle(t) => t.pos,
        ActorView::Crocodile(c) => c.pos,
        ActorView::Water(w) => w.pos,
        ActorView::Frog(f) => f.pos,
    }
}

pub open spec fn size_of(a: ActorView) -> Pt {
    match a {
        ActorView::Vehicle(v) => v.size,
        ActorView::Raft(r) => r.size,
        ActorView::Turtle(t) => t.size,
        ActorView::Crocodile(c) => c.size,
        ActorView::Water(w) => w.size,
        ActorView::Frog(f) => f.size,
    }
}

pub open spec fn sprite_of(a: ActorView) -> Option<Pt> {
    match a {
        ActorView::Vehicle(v) => Some(v.sprite),
        ActorView::Raft(_) => Some(Pt { x: 192, y: 102 }),
        ActorView::Turtle(t) => Some(t.sprite),
        ActorView::Crocodile(c) => Some(c.sprite),
        ActorView::Water(_) => None,
        ActorView::Frog(f) => if frog_visible(f) { Some(f.sprite) } else { None },
    }
}

pub open spec fn actor_wf(a: ActorView) -> bool {
    match a {
        ActorView::Raft(r) => r.wf(),
        ActorView::Crocodile(c) => c.wf(),
        ActorView::Frog(f) => frog_wf(f),
        _ => true,
    }
}

/// Whether the rectangles of `a` and `b` intersect (edges that only touch do not).
pub open spec fn overlaps(a: ActorView, b: ActorView) -> bool {
    let (ap, asz, bp, bsz) = (pos_of(a), size_of(a), pos_of(b), size_of(b));
    &&& ap.x < bp.x + bsz.x
    &&& ap.x + asz.x > bp.x
    &&& ap.y < bp.y + bsz.y
    &&& ap.y + asz.y > bp.y
}

/// What the frog learns when it overlaps `a`; frogs ignore one another.
pub open spec fn contact_of(a: ActorView) -> Option<Contact> {
    match a {
        ActorView::Vehicle(_) => Some(Contact::Vehicle),
        ActorView::Water(_) => Some(Contact::Water),
        ActorView::Raft(r) => Some(Contact::Raft { speed: r.speed }),
        ActorView::Crocodile(_) => Some(Contact::Crocodile),
        ActorView::Turtle(t) => Some(Contact::Turtle { immersed: t.immersed, speed: t.speed }),
        ActorView::Frog(_) => None,
    }
}

/// The contacts of actor `i` with the actors before index `j`, in order.
pub open spec fn contacts_upto(s: Seq<ActorView>, i: int, j: int) -> Seq<Contact>
    decreases j,
{
    if j <= 0 {
        seq![]
    } else {
        let c = contacts_upto(s, i, j - 1);
        if j - 1 != i && overlaps(s[i], s[j - 1]) && contact_of(s[j - 1]) is Some {
            c.push(contact_of(s[j - 1])->0)
        } else {
            c
        }
    }
}

/// The contacts of actor `i` with all the others, in the arena's order.
pub open spec fn contacts(s: Seq<ActorView>, i: int) -> Seq<Contact> {
    contacts_upto(s, i, s.len() as int)
}

/// One tick of one actor, given the draw `dive` and the actors `cs` it overlaps.
pub open spec fn actor_act(
    a: ActorView,
    width: int,
    height: int,
    prev: KeySet,
    curr: KeySet,
    dive: bool,
    cs: Seq<Contact>,
) -> ActorView {
    match a {
        ActorView::Vehicle(v) => ActorView::Vehicle(vehicle_step(v, width)),
        ActorView::Raft(r) => ActorView::Raft(raft_step(r, width)),
        ActorView::Turtle(t) => ActorView::Turtle(turtle_step(t, width, dive)),
        ActorView::Crocodile(c) => ActorView::Crocodile(crocodile_step(c, width)),
        ActorView::Water(w) => ActorView::Water(w),
        ActorView::Frog(f) => ActorView::Frog(frog_step(f, width, height, prev, curr, cs)),
    }
}

/// The actors after the first `k` of them have acted, in order, each one seeing
/// the others as they stand when its turn comes.
pub open spec fn run(
    s: Seq<ActorView>,
    width: int,
    height: int,
    prev: KeySet,
    curr: KeySet,
    dives: Seq<bool>,
    k: int,
) -> Seq<ActorView>
    decreases k,
{
    if k <= 0 {
        s
    } else {
        let t = run(s, width, height, prev, curr, dives, k - 1);
        t.update(
            k - 1,
            actor_act(t[k - 1], width, height, prev, curr, dives[k - 1], contacts(t, k - 1)),
        )
    }
}

/// A frog lies inside the arena `width` by `height`.
pub open spec fn inside(a: ActorView, width: int, height: int) -> bool {
    match a {
        ActorView::Frog(f) => 0 <= f.pos.x <= width - f.size.x && 0 <= f.pos.y <= height
            - f.size.y,
        _ => true,
    }
}

/// `b` is `a` one tick later as far as kind and won slots go: a frog stays a
/// frog and keeps every slot it had won.
pub open spec fn kept(a: ActorView, b: ActorView) -> bool {
    &&& (a is Frog) == (b is Frog)
    &&& (a is Frog) ==> forall|k: int|
        0 <= k < 5 && (a->Frog_0).wins[k] ==> #[trigger] (b->Frog_0).wins[k]
    &&& (a is Frog) ==> (b->Frog_0).wins.len() == 5
}

/// Holding the keys of the tick before does what holding no key does: a held
/// key moves the frog on the tick it goes down and on no later one.
pub proof fn lemma_held_keys_run(
    s: Seq<ActorView>,
    width: int,
    height: int,
    keys: KeySet,
    dives: Seq<bool>,
    k: int,
)
    ensures
        run(s, width, height, keys, keys, dives, k) == run(
            s,
            width,
            height,
            no_keys(),
            no_keys(),
            dives,
            k,
        ),
    decreases k,
{
    if k > 0 {
        lemma_held_keys_run(s, width, height, keys, dives, k - 1);
        let t = run(s, width, height, keys, keys, dives, k - 1);
        match t[k - 1] {
            ActorView::Frog(f) => lemma_held_keys_do_nothing(
                f,
                width,
                height,
                keys,
                contacts(t, k - 1),
            ),
            _ => {},
        }
    }
}

impl Actor {
    pub fn pos(&self) -> (r: Pt)
        ensures
            r == pos_of(self@),
    {
        match self {
            Actor::Vehicle(v) => v.pos,
            Actor::Raft(r) => r.pos,
            Actor::Turtle(t) => t.pos,
            Actor::Crocodile(c) => c.pos,
            Actor::Water(w) => w.pos,
            Actor::Frog(f) => f.pos,
        }
    }

    pub fn size(&self) -> (r: Pt)
        ensures
            r == size_of(self@),
    {
        match self {
            Actor::Vehicle(v) => v.size,
            Actor::Raft(r) => r.size,
            Actor::Turtle(t) => t.size,
            Actor::Crocodile(c) => c.size,
            Actor::Water(w) => w.size,
            Actor::Frog(f) => f.size,
        }
    }

    /// The sprite to draw, or `None` when nothing is to be drawn.
    pub fn sprite(&self) -> (r: Option<Pt>)
        ensures
            r == sprite_of(self@),
    {
        match self {
            Actor::Vehicle(v) => Some(v.sprite),
            Actor::Raft(_) => Some(pt(192, 102)),
            Actor::Turtle(t) => Some(t.sprite),
            Actor::Crocodile(c) => Some(c.sprite),
            Actor::Water(_) => None,
            Actor::Frog(f) => f.sprite(),
        }
    }

    /// Only a frog with no life left is not alive.
    pub fn alive(&self) -> (r: bool)
        ensures
            r == (match self@ {
                ActorView::Frog(f) => f.lives > 0,
                _ => true,
            }),
    {
        match self {
            Actor::Frog(f) => f.alive(),
            _ => true,
        }
    }

    fn contact(&self) -> (r: Option<Contact>)
        ensures
            r == contact_of(self@),
    {
        match self {
            Actor::Vehicle(_) => Some(Contact::Vehicle),
            Actor::Water(_) => Some(Contact::Water),
            Actor::Raft(r) => Some(Contact::Raft { speed: r.speed }),
            Actor::Crocodile(_) => Some(Contact::Crocodile),
            Actor::Turtle(t) => Some(Contact::Turtle { immersed: t.immersed, speed: t.speed }),
            Actor::Frog(_) => None,
        }
    }

    fn is_frog(&self) -> (r: bool)
        ensures
            r == (self@ is Frog),
    {
        match self {
            Actor::Frog(_) => true,
            _ => false,
        }
    }

    fn is_turtle(&self) -> (r: bool)
        ensures
            r == (self@ is Turtle),
    {
        match self {
            Actor::Turtle(_) => true,
            _ => false,
        }
    }

    fn act(
        &mut self,
        width: i32,
        height: i32,
        prev: KeySet,
        curr: KeySet,
        dive: bool,
        cs: &Vec<Contact>,
    )
        requires
            actor_wf(old(self)@),
            0 <= width <= MAX_WIDTH,
            0 <= height,
        ensures
            actor_wf(final(self)@),
            final(self)@ == actor_act(
                old(self)@,
                width as int,
                height as int,
                prev,
                curr,
                dive,
                cs@,
            ),
    {
        match self {
            Actor::Vehicle(v) => v.act(width),
            Actor::Raft(r) => r.act(width),
            Actor::Turtle(t) => t.act(width, dive),
            Actor::Crocodile(c) => c.act(width),
            Actor::Water(_) => {},
            Actor::Frog(f) => f.act(width, height, prev, curr, cs),
        }
    }
}

fn overlap(a: &Actor, b: &Actor) -> (r: bool)
    ensures
        r == overlaps(a@, b@),
{
    let (ap, asz, bp, bsz) = (a.pos(), a.size(), b.pos(), b.size());
    (ap.x as i64) < bp.x as i64 + bsz.x as i64 && ap.x as i64 + asz.x as i64 > bp.x as i64 && (
    ap.y as i64) < bp.y as i64 + bsz.y as i64 && ap.y as i64 + asz.y as i64 > bp.y as i64
}

/// The bounded field: its actors in spawn order (which is also the order in
/// which they act and are drawn), the keys of this tick and of the tick before,
/// and the number of ticks so far.
pub struct Arena {
    pub size: Pt,
    pub actors: Vec<Actor>,
    pub curr_keys: KeySet,
    pub prev_keys: KeySet,
    pub count: i32,
    pub rng: Rng,
}

impl Arena {
    pub open spec fn wf(&self) -> bool {
        &&& 0 <= self.size.x <= MAX_WIDTH
        &&& 0 <= self.size.y
        &&& 0 <= self.count
        &&& self.rng.wf()
        &&& forall|k: int| 0 <= k < self.actors@.len() ==> actor_wf(#[trigger] self.actors@[k]@)
    }

    pub open spec fn view_actors(&self) -> Seq<ActorView> {
        views(self.actors@)
    }

    /// An empty arena of `size` pixels, its draws seeded by `seed`.
    pub fn new(size: Pt, seed: u64) -> (r: Arena)
        requires
            0 <= size.x <= MAX_WIDTH,
            0 <= size.y,
        ensures
            r.wf(),
            r.size == size,
            r.actors@.len() == 0,
            r.curr_keys == no_keys(),
            r.prev_keys == no_keys(),
            r.count == 0,
    {
        Arena {
            size,
            actors: Vec::new(),
            curr_keys: KeySet::none(),
            prev_keys: KeySet::none(),
            count: 0,
            rng: Rng::new(seed),
        }
    }

    /// Adds `a` after the actors already there.
    pub fn spawn(&mut self, a: Actor)
        requires
            old(self).wf(),
            actor_wf(a@),
        ensures
            final(self).wf(),
            final(self).actors@ == old(self).actors@.push(a),
            final(self).size == old(self).size,
            final(self).curr_keys == old(self).curr_keys,
            final(self).prev_keys == old(self).prev_keys,
            final(self).count == old(self).count,
    {
        self.actors.push(a);
        assert(forall|k: int|
            0 <= k < self.actors@.len() ==> #[trigger] self.actors@[k] == old(self).actors@.push(
                a,
            )[k]);
    }

    pub fn size(&self) -> (r: Pt)
        ensures
            r == self.size,
    {
        self.size
    }

    pub fn actors(&self) -> (r: &Vec<Actor>)
        ensures
            r@ == self.actors@,
    {
        &self.actors
    }

    /// The number of ticks so far.
    pub fn count(&self) -> (r: i32)
        ensures
            r == self.count,
    {
        self.count
    }

    pub fn current_keys(&self) -> (r: KeySet)
        ensures
            r == self.curr_keys,
    {
        self.curr_keys
    }

    pub fn previous_keys(&self) -> (r: KeySet)
        ensures
            r == self.prev_keys,
    {
        self.prev_keys
    }

    /// What actor `i` overlaps, in the arena's order.
    fn contacts(&self, i: usize) -> (r: Vec<Contact>)
        requires
            i < self.actors@.len(),
        ensures
            r@ == contacts(self.view_actors(), i as int),
    {
        let ghost s = self.view_actors();
        let mut r: Vec<Contact> = Vec::new();
        let mut j: usize = 0;
        while j < self.actors.len()
            invariant
                s == self.view_actors(),
                i < s.len(),
                j <= s.len(),
                r@ == contacts_upto(s, i as int, j as int),
            decreases s.len() - j,
        {
            if j != i && overlap(&self.actors[i], &self.actors[j]) {
                match self.actors[j].contact() {
                    Some(c) => r.push(c),
                    None => {},
                }
            }
            j = j + 1;
        }
        r
    }

    /// One tick with the keys `keys` held, `dives[i]` being the draw for actor
    /// `i`: each actor acts in turn; the frog sees what it overlaps at its turn.
    pub fn tick_with(&mut self, keys: KeySet, dives: &Vec<bool>)
        requires
            old(self).wf(),
            dives@.len() == old(self).actors@.len(),
        ensures
            final(self).wf(),
            final(self).size == old(self).size,
            final(self).prev_keys == old(self).curr_keys,
            final(self).curr_keys == keys,
            final(self).count == (if old(self).count < i32::MAX {
                old(self).count + 1
            } else {
                old(self).count as int
            }),
            final(self).view_actors() == run(
                old(self).view_actors(),
                old(self).size.x as int,
                old(self).size.y as int,
                old(self).curr_keys,
                keys,
                dives@,
                old(self).actors@.len() as int,
            ),
            final(self).actors@.len() == old(self).actors@.len(),
            forall|k: int|
                0 <= k < old(self).actors@.len() ==> kept(
                    #[trigger] old(self).view_actors()[k],
                    final(self).view_actors()[k],
                ),
            24 <= old(self).size.x && 24 <= old(self).size.y ==> forall|k: int|
                0 <= k < final(self).actors@.len() ==> inside(
                    #[trigger] final(self).view_actors()[k],
                    old(self).size.x as int,
                    old(self).size.y as int,
                ),
    {
        self.prev_keys = self.curr_keys;
        self.curr_keys = keys;
        let prev = self.prev_keys;
        let width = self.size.x;
        let height = self.size.y;
        let ghost s0 = self.view_actors();
        let n = self.actors.len();
        let mut i: usize = 0;
        while i < n
            invariant
                n == self.actors@.len(),
                dives@.len() == n,
                i <= n,
                0 <= width <= MAX_WIDTH,
                0 <= height,
                width == old(self).size.x,
                height == old(self).size.y,
                prev == old(self).curr_keys,
                s0 == old(self).view_actors(),
                forall|k: int| 0 <= k < self.actors@.len() ==> actor_wf(#[trigger] self.actors@[k]@),
                self.view_actors() == run(
                    s0,
                    width as int,
                    height as int,
                    prev,
                    keys,
                    dives@,
                    i as int,
                ),
                forall|k: int|
                    0 <= k < n ==> kept(#[trigger] s0[k], self.view_actors()[k]),
                24 <= width && 24 <= height ==> forall|k: int|
                    0 <= k < i ==> inside(#[trigger] self.view_actors()[k], width as int, height as int),
                self.size == old(self).size,
                self.count == old(self).count,
                self.rng == old(self).rng,
                self.prev_keys == prev,
                self.curr_keys == keys,
            decreases n - i,
        {
            let ghost t = self.view_actors();
            proof {
                match t[i as int] {
                    ActorView::Frog(f) => {
                        lemma_wins_kept(f, width as int, height as int, prev, keys, contacts(t, i as int));
                        if 24 <= width && 24 <= height {
                            lemma_frog_stays_inside(f, width as int, height as int, prev, keys, contacts(t, i as int));
                        }
                    },
                    _ => {},
                }
            }
            let cs = if self.actors[i].is_frog() {
                self.contacts(i)
            } else {
                Vec::new()
            };
            assert(self.actors@[i as int]@ is Frog ==> cs@ == contacts(t, i as int));
            self.actors[i].act(width, height, prev, keys, dives[i], &cs);
            assert(self.view_actors() =~= t.update(
                i as int,
                actor_act(t[i as int], width as int, height as int, prev, keys, dives@[i as int], contacts(t, i as int)),
            ));
            assert(kept(s0[i as int], t[i as int]));
            assert(kept(s0[i as int], self.view_actors()[i as int]));
            i = i + 1;
        }
        if self.count < i32::MAX {
            self.count = self.count + 1;
        }
    }

    /// One tick with the key list `keys` held (such as `"ArrowUp ArrowLeft"`):
    /// each turtle draws one chance in a thousand to start a dive.
    pub fn tick(&mut self, keys: &str)
        requires
            old(self).wf(),
        ensures
            final(self).wf(),
            final(self).size == old(self).size,
            final(self).prev_keys == old(self).curr_keys,
            final(self).curr_keys == key_set_of(keys@),
            final(self).count == (if old(self).count < i32::MAX {
                old(self).count + 1
            } else {
                old(self).count as int
            }),
            exists|dives: Seq<bool>|
                dives.len() == old(self).actors@.len() && final(self).view_actors() == run(
                    old(self).view_actors(),
                    old(self).size.x as int,
                    old(self).size.y as int,
                    old(self).curr_keys,
                    key_set_of(keys@),
                    dives,
                    old(self).actors@.len() as int,
                ),
            final(self).actors@.len() == old(self).actors@.len(),
            forall|k: int|
                0 <= k < old(self).actors@.len() ==> kept(
                    #[trigger] old(self).view_actors()[k],
                    final(self).view_actors()[k],
                ),
            24 <= old(self).size.x && 24 <= old(self).size.y ==> forall|k: int|
                0 <= k < final(self).actors@.len() ==> inside(
                    #[trigger] final(self).view_actors()[k],
                    old(self).size.x as int,
                    old(self).size.y as int,
                ),
    {
        let ks = KeySet::parse(keys);
        let n = self.actors.len();
        let mut dives: Vec<bool> = Vec::new();
        let mut i: usize = 0;
        while i < n
            invariant
                n == self.actors@.len(),
                i <= n,
                dives@.len() == i,
                self.wf(),
                self.actors == old(self).actors,
                self.size == old(self).size,
                self.count == old(self).count,
                self.curr_keys == old(self).curr_keys,
                self.prev_keys == old(self).prev_keys,
            decreases n - i,
        {
            let d = if self.actors[i].is_turtle() {
                self.rng.randint(0, 999) == 0
            } else {
                false
            };
            dives.push(d);
            i = i + 1;
        }
        let ghost va = self.view_actors();
        assert(va == old(self).view_actors());
        self.tick_with(ks, &dives);
        assert(self.view_actors() == run(
            va,
            old(self).size.x as int,
            old(self).size.y as int,
            old(self).curr_keys,
            key_set_of(keys@),
            dives@,
            old(self).actors@.len() as int,
        ));
    }
}

} // verus!
