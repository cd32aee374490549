use vstd::prelude::*;
use crate::keys::{no_keys, KeySet};
use crate::pt::{pt, Pt};

verus! {

/// What the frog learns of an actor that it overlaps.
#[derive(Clone, Copy, Debug, PartialEq, Eq, Structural)]
pub enum Contact {
    Vehicle,
    Water,
    Raft { speed: i32 },
    Crocodile,
    Turtle { immersed: bool, speed: i32 },
}

/// The player's frog.
pub struct Frog {
    pub pos: Pt,
    pub starting_pos: Pt,
    pub size: Pt,
    pub starting_size: Pt,
    pub step: Pt,
    pub speed: i32,
    pub sprite: Pt,
    pub starting_sprite: Pt,
    pub lives: i32,
    pub blinking: i32,
    pub in_water: bool,
    pub wins: Vec<bool>,
}

/// The state of a frog, with its win slots as a sequence.
#[verifier::ext_equal]
pub struct FrogView {
    pub pos: Pt,
    pub starting_pos: Pt,
    pub size: Pt,
    pub starting_size: Pt,
    pub step: Pt,
    pub speed: i32,
    pub sprite: Pt,
    pub starting_sprite: Pt,
    pub lives: i32,
    pub blinking: i32,
    pub in_water: bool,
    pub wins: Seq<bool>,
}

impl View for Frog {
    type V = FrogView;

    open spec fn view(&self) -> FrogView {
        FrogView {
            pos: self.pos,
            starting_pos: self.starting_pos,
            size: self.size,
            starting_size: self.starting_size,
            step: self.step,
            speed: self.speed,
            sprite: self.sprite,
            starting_sprite: self.starting_sprite,
            lives: self.lives,
            blinking: self.blinking,
            in_water: self.in_water,
            wins: self.wins@,
        }
    }
}

/// Five win slots; sizes no larger than 24 pixels; a step of at most 32 pixels;
/// a blink countdown of at most 60 ticks.
pub open spec fn frog_wf(v: FrogView) -> bool {
    &&& v.wins.len() == 5
    &&& 0 <= v.size.x <= 24 && 0 <= v.size.y <= 24
    &&& 0 <= v.starting_size.x <= 24 && 0 <= v.starting_size.y <= 24
    &&& 0 <= v.speed <= 32
    &&& 0 <= v.blinking <= 60
}

pub open spec fn reset_position(v: FrogView) -> FrogView {
    FrogView { pos: v.starting_pos, size: v.starting_size, sprite: v.starting_sprite, ..v }
}

/// Losing a life: a blink of 60 ticks, one life fewer, and back to the start.
pub open spec fn lose_life(v: FrogView) -> FrogView {
    FrogView {
        blinking: 60,
        in_water: false,
        lives: if v.lives > i32::MIN { (v.lives - 1) as i32 } else { v.lives },
        ..reset_position(v)
    }
}

/// The effect of one overlapping actor.
pub open spec fn touch(v: FrogView, c: Contact) -> FrogView {
    match c {
        Contact::Vehicle => lose_life(v),
        Contact::Water => FrogView { in_water: true, ..v },
        Contact::Raft { speed } => FrogView {
            in_water: false,
            step: Pt { x: speed, y: v.step.y },
            ..v
        },
        Contact::Crocodile => lose_life(v),
        Contact::Turtle { immersed, speed } => if immersed {
            lose_life(v)
        } else {
            FrogView { in_water: false, step: Pt { x: speed, y: v.step.y }, ..v }
        },
    }
}

/// The effect of the overlapping actors, in order.
pub open spec fn touch_all(v: FrogView, cs: Seq<Contact>) -> FrogView
    decreases cs.len(),
{
    if cs.len() == 0 {
        v
    } else {
        touch(touch_all(v, cs.drop_last()), cs.last())
    }
}

/// Collisions count only while the frog does not blink; a frog left in the
/// water afterwards drowns.
pub open spec fn collide(v: FrogView, cs: Seq<Contact>) -> FrogView {
    if v.blinking == 0 {
        let t = touch_all(v, cs);
        if t.in_water {
            lose_life(t)
        } else {
            t
        }
    } else {
        v
    }
}

/// Whether the frog's centre lies inside win slot `k` (0 to 4, left to right).
pub open spec fn in_slot(v: FrogView, k: int) -> bool {
    let cx = v.pos.x + v.size.x / 2;
    let cy = v.pos.y + v.size.y / 2;
    48 + 128 * k < cx < 80 + 128 * k && 58 < cy < 80
}

pub open spec fn claims(v: FrogView, k: int) -> bool {
    !v.wins[k] && in_slot(v, k)
}

/// The leftmost slot not yet won that holds the frog's centre, or -1.
pub open spec fn win_slot(v: FrogView) -> int {
    if claims(v, 0) {
        0
    } else if claims(v, 1) {
        1
    } else if claims(v, 2) {
        2
    } else if claims(v, 3) {
        3
    } else if claims(v, 4) {
        4
    } else {
        -1
    }
}

/// Winning a slot marks it and sends the frog back to the start.
pub open spec fn check_win(v: FrogView) -> FrogView {
    let k = win_slot(v);
    if k >= 0 {
        reset_position(FrogView { wins: v.wins.update(k, true), ..v })
    } else {
        v
    }
}

/// A key counts on the tick it goes down.
pub open spec fn pressed(prev: bool, curr: bool) -> bool {
    curr && !prev
}

pub open spec fn steer_vertical(v: FrogView, prev: KeySet, curr: KeySet) -> FrogView {
    if pressed(prev.up, curr.up) {
        FrogView {
            size: Pt { x: 24, y: 18 },
            sprite: Pt { x: 68, y: 6 },
            step: Pt { x: v.step.x, y: -v.speed as i32 },
            ..v
        }
    } else if pressed(prev.down, curr.down) {
        FrogView {
            size: Pt { x: 24, y: 18 },
            sprite: Pt { x: 98, y: 40 },
            step: Pt { x: v.step.x, y: v.speed },
            ..v
        }
    } else {
        v
    }
}

pub open spec fn steer_horizontal(v: FrogView, prev: KeySet, curr: KeySet) -> FrogView {
    if pressed(prev.left, curr.left) {
        FrogView {
            size: Pt { x: 18, y: 24 },
            sprite: Pt { x: 166, y: 4 },
            step: Pt { x: -v.speed as i32, y: v.step.y },
            ..v
        }
    } else if pressed(prev.right, curr.right) {
        FrogView {
            size: Pt { x: 18, y: 24 },
            sprite: Pt { x: 6, y: 36 },
            step: Pt { x: v.speed, y: v.step.y },
            ..v
        }
    } else {
        v
    }
}

/// `v` limited to `lo..=hi`, the upper limit taking precedence.
pub open spec fn clamp(v: int, lo: int, hi: int) -> int {
    let a = if v > lo { v } else { lo };
    if a < hi { a } else { hi }
}

/// The step taken, the frog kept inside the arena, and the blink counted down.
pub open spec fn settle(v: FrogView, width: int, height: int) -> FrogView {
    FrogView {
        pos: Pt {
            x: clamp(v.pos.x + v.step.x, 0, width - v.size.x) as i32,
            y: clamp(v.pos.y + v.step.y, 0, height - v.size.y) as i32,
        },
        blinking: if v.blinking > 1 { (v.blinking - 1) as i32 } else { 0 },
        ..v
    }
}

/// One tick of the frog in an arena `width` by `height`, with the keys held on
/// the tick before and on this one and the actors it overlaps.
pub open spec fn frog_step(
    v: FrogView,
    width: int,
    height: int,
    prev: KeySet,
    curr: KeySet,
    cs: Seq<Contact>,
) -> FrogView {
    let s0 = FrogView { step: Pt { x: 0, y: 0 }, ..v };
    settle(
        steer_horizontal(steer_vertical(check_win(collide(s0, cs)), prev, curr), prev, curr),
        width,
        height,
    )
}

/// Whether the frog is drawn: not on every other pair of ticks while it blinks.
pub open spec fn frog_visible(v: FrogView) -> bool {
    !(v.blinking > 0 && (v.blinking / 2) % 2 == 0)
}

impl Frog {
    pub open spec fn wf(&self) -> bool {
        frog_wf(self@)
    }

    /// A frog with three lives and no slot won, starting at `pos`.
    pub fn new(pos: Pt) -> (r: Frog)
        ensures
            r.wf(),
            r.pos == pos,
            r.starting_pos == pos,
            r.size == (Pt { x: 24, y: 18 }),
            r.starting_size == (Pt { x: 24, y: 18 }),
            r.sprite == (Pt { x: 68, y: 6 }),
            r.starting_sprite == (Pt { x: 68, y: 6 }),
            r.step == (Pt { x: 0, y: 0 }),
            r.speed == 32,
            r.lives == 3,
            r.blinking == 0,
            !r.in_water,
            r.wins@ == seq![false, false, false, false, false],
    {
        let starting_size = pt(24, 18);
        let starting_sprite = pt(68, 6);
        let mut wins: Vec<bool> = Vec::new();
        let mut i: usize = 0;
        while i < 5
            invariant
                i <= 5,
                wins@.len() == i,
                forall|k: int| 0 <= k < i ==> !wins@[k],
            decreases 5 - i,
        {
            wins.push(false);
            i = i + 1;
        }
        assert(wins@ =~= seq![false, false, false, false, false]);
        Frog {
            pos,
            starting_pos: pos,
            size: starting_size,
            starting_size,
            step: pt(0, 0),
            speed: 32,
            sprite: starting_sprite,
            starting_sprite,
            lives: 3,
            blinking: 0,
            in_water: false,
            wins,
        }
    }

    /// Which slots have been won, left to right.
    pub fn get_wins(&self) -> (r: &Vec<bool>)
        ensures
            r@ == self.wins@,
    {
        &self.wins
    }

    pub fn get_starting_sprite(&self) -> (r: Pt)
        ensures
            r == self.starting_sprite,
    {
        self.starting_sprite
    }

    pub fn get_starting_size(&self) -> (r: Pt)
        ensures
            r == self.starting_size,
    {
        self.starting_size
    }

    /// The sprite to draw, or `None` on a tick when the blinking frog is hidden.
    pub fn sprite(&self) -> (r: Option<Pt>)
        ensures
            r == (if frog_visible(self@) { Some(self.sprite) } else { None }),
    {
        if self.blinking > 0 && (self.blinking / 2) % 2 == 0 {
            None
        } else {
            Some(self.sprite)
        }
    }

    /// Whether the frog has a life left.
    pub fn alive(&self) -> (r: bool)
        ensures
            r == (self.lives > 0),
    {
        self.lives > 0
    }

    fn reset_position(&mut self)
        requires
            frog_wf(old(self)@),
        ensures
            frog_wf(final(self)@),
            final(self)@ == reset_position(old(self)@),
    {
        self.pos = self.starting_pos;
        self.size = self.starting_size;
        self.sprite = self.starting_sprite;
    }

    fn lose_life(&mut self)
        requires
            frog_wf(old(self)@),
        ensures
            frog_wf(final(self)@),
            final(self)@ == lose_life(old(self)@),
    {
        self.blinking = 60;
        self.in_water = false;
        if self.lives > i32::MIN {
            self.lives = self.lives - 1;
        }
        self.pos = self.starting_pos;
        self.size = self.starting_size;
        self.sprite = self.starting_sprite;
    }

    fn touch(&mut self, c: Contact)
        requires
            frog_wf(old(self)@),
        ensures
            frog_wf(final(self)@),
            final(self)@ == touch(old(self)@, c),
    {
        match c {
            Contact::Vehicle => self.lose_life(),
            Contact::Water => self.in_water = true,
            Contact::Raft { speed } => {
                self.in_water = false;
                self.step.x = speed;
            },
            Contact::Crocodile => self.lose_life(),
            Contact::Turtle { immersed, speed } => {
                if immersed {
                    self.lose_life();
                } else {
                    self.in_water = false;
                    self.step.x = speed;
                }
            },
        }
    }

    fn collide(&mut self, cs: &Vec<Contact>)
        requires
            frog_wf(old(self)@),
        ensures
            frog_wf(final(self)@),
            final(self)@ == collide(old(self)@, cs@),
    {
        if self.blinking == 0 {
            let ghost v0 = self@;
            let mut i: usize = 0;
            while i < cs.len()
                invariant
                    i <= cs@.len(),
                    v0 == old(self)@,
                    frog_wf(self@),
                    self@ == touch_all(v0, cs@.subrange(0, i as int)),
                decreases cs@.len() - i,
            {
                self.touch(cs[i]);
                assert(cs@.subrange(0, i + 1).drop_last() =~= cs@.subrange(0, i as int));
                i = i + 1;
            }
            assert(cs@.subrange(0, cs@.len() as int) =~= cs@);
            if self.in_water {
                self.lose_life();
            }
        }
    }

    fn slot_holds(&self, k: usize) -> (r: bool)
        requires
            self.wins@.len() == 5,
            k < 5,
            0 <= self.size.x <= 24 && 0 <= self.size.y <= 24,
        ensures
            r == claims(self@, k as int),
    {
        let cx: i64 = self.pos.x as i64 + self.size.x as i64 / 2;
        let cy: i64 = self.pos.y as i64 + self.size.y as i64 / 2;
        let left: i64 = 48 + 128 * k as i64;
        !self.wins[k] && left < cx && cx < left + 32 && 58 < cy && cy < 80
    }

    fn check_win(&mut self)
        requires
            frog_wf(old(self)@),
        ensures
            frog_wf(final(self)@),
            final(self)@ == check_win(old(self)@),
    {
        let ghost v = self@;
        let mut k: usize = 0;
        while k < 5
            invariant
                self@ == v,
                v == old(self)@,
                frog_wf(v),
                k <= 5,
                forall|j: int| 0 <= j < k ==> !claims(v, j),
            decreases 5 - k,
        {
            if self.slot_holds(k) {
                self.wins.set(k, true);
                assert(win_slot(v) == k as int);
                self.reset_position();
                assert(self@ =~= check_win(v));
                return;
            }
            k = k + 1;
        }
        assert(win_slot(v) == -1);
    }

    fn steer(&mut self, prev: KeySet, curr: KeySet)
        requires
            frog_wf(old(self)@),
        ensures
            frog_wf(final(self)@),
            final(self)@ == steer_horizontal(steer_vertical(old(self)@, prev, curr), prev, curr),
    {
        if curr.up && !prev.up {
            self.size = pt(24, 18);
            self.sprite = pt(68, 6);
            self.step.y = -self.speed;
        } else if curr.down && !prev.down {
            self.size = pt(24, 18);
            self.sprite = pt(98, 40);
            self.step.y = self.speed;
        }
        if curr.left && !prev.left {
            self.size = pt(18, 24);
            self.sprite = pt(166, 4);
            self.step.x = -self.speed;
        } else if curr.right && !prev.right {
            self.size = pt(18, 24);
            self.sprite = pt(6, 36);
            self.step.x = self.speed;
        }
    }

    fn settle(&mut self, width: i32, height: i32)
        requires
            0 <= width,
            0 <= height,
            frog_wf(old(self)@),
        ensures
            frog_wf(final(self)@),
            final(self)@ == settle(old(self)@, width as int, height as int),
    {
        self.pos.x = clamp_i64(
            self.pos.x as i64 + self.step.x as i64,
            width as i64 - self.size.x as i64,
        );
        self.pos.y = clamp_i64(
            self.pos.y as i64 + self.step.y as i64,
            height as i64 - self.size.y as i64,
        );
        if self.blinking > 1 {
            self.blinking = self.blinking - 1;
        } else {
            self.blinking = 0;
        }
    }

    /// One tick in an arena `width` by `height`: collisions with the overlapping
    /// actors `cs` (in the arena's order), then the win slots, then the keys that
    /// went down since the tick before, then the step, kept inside the arena.
    pub fn act(&mut self, width: i32, height: i32, prev: KeySet, curr: KeySet, cs: &Vec<Contact>)
        requires
            old(self).wf(),
            0 <= width,
            0 <= height,
        ensures
            final(self).wf(),
            final(self)@ == frog_step(old(self)@, width as int, height as int, prev, curr, cs@),
    {
        self.step = pt(0, 0);
        self.collide(cs);
        self.check_win();
        self.steer(prev, curr);
        self.settle(width, height);
    }
}

fn clamp_i64(v: i64, hi: i64) -> (r: i32)
    requires
        i32::MIN <= hi <= i32::MAX,
    ensures
        r == clamp(v as int, 0, hi as int),
{
    let a = if v > 0 { v } else { 0 };
    if a < hi { a as i32 } else { hi as i32 }
}

/// Collisions keep the frog well formed and leave its win slots and its
/// starting place alone.
proof fn lemma_touch_all(v: FrogView, cs: Seq<Contact>)
    requires
        frog_wf(v),
    ensures
        frog_wf(touch_all(v, cs)),
        touch_all(v, cs).wins == v.wins,
        touch_all(v, cs).speed == v.speed,
        touch_all(v, cs).starting_size == v.starting_size,
    decreases cs.len(),
{
    if cs.len() > 0 {
        lemma_touch_all(v, cs.drop_last());
    }
}

/// A tick keeps the frog well formed and inside the arena: its rectangle lies
/// within `[0, width] x [0, height]` once the arena is at least 24 pixels each way.
pub proof fn lemma_frog_stays_inside(
    v: FrogView,
    width: int,
    height: int,
    prev: KeySet,
    curr: KeySet,
    cs: Seq<Contact>,
)
    requires
        frog_wf(v),
        24 <= width <= i32::MAX,
        24 <= height <= i32::MAX,
    ensures
        frog_wf(frog_step(v, width, height, prev, curr, cs)),
        0 <= frog_step(v, width, height, prev, curr, cs).pos.x <= width - frog_step(
            v,
            width,
            height,
            prev,
            curr,
            cs,
        ).size.x,
        0 <= frog_step(v, width, height, prev, curr, cs).pos.y <= height - frog_step(
            v,
            width,
            height,
            prev,
            curr,
            cs,
        ).size.y,
{
    let s0 = FrogView { step: Pt { x: 0, y: 0 }, ..v };
    lemma_touch_all(s0, cs);
}

/// Won slots stay won: a tick never clears a win flag.
pub proof fn lemma_wins_kept(
    v: FrogView,
    width: int,
    height: int,
    prev: KeySet,
    curr: KeySet,
    cs: Seq<Contact>,
)
    requires
        frog_wf(v),
    ensures
        frog_step(v, width, height, prev, curr, cs).wins.len() == 5,
        forall|k: int|
            0 <= k < 5 && v.wins[k] ==> #[trigger] frog_step(
                v,
                width,
                height,
                prev,
                curr,
                cs,
            ).wins[k],
{
    let s0 = FrogView { step: Pt { x: 0, y: 0 }, ..v };
    lemma_touch_all(s0, cs);
}

/// Keys held since the tick before do nothing: the tick goes as if no key were held.
pub proof fn lemma_held_keys_do_nothing(
    v: FrogView,
    width: int,
    height: int,
    keys: KeySet,
    cs: Seq<Contact>,
)
    ensures
        frog_step(v, width, height, keys, keys, cs) == frog_step(
            v,
            width,
            height,
            no_keys(),
            no_keys(),
            cs,
        ),
{
}

/// While the frog blinks no collision has any effect: the tick goes as if it
/// overlapped nothing, and no life is lost.
pub proof fn lemma_blinking_frog_is_safe(
    v: FrogView,
    width: int,
    height: int,
    prev: KeySet,
    curr: KeySet,
    cs: Seq<Contact>,
)
    requires
        v.blinking > 0,
    ensures
        frog_step(v, width, height, prev, curr, cs) == frog_step(
            v,
            width,
            height,
            prev,
            curr,
            seq![],
        ),
        frog_step(v, width, height, prev, curr, cs).lives == v.lives,
{
}

} // verus!
