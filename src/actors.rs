use vstd::prelude::*;
use crate::motion::{conveyor, conveyor_step};
use crate::pt::{pt, Pt};

verus! {

/// How far past the arena's edge a vehicle travels before it wraps.
pub const VEHICLE_MARGIN: i32 = 70;

/// How far past the arena's edge a turtle or a crocodile travels before it wraps.
pub const RIVER_MARGIN: i32 = 96;

/// The widest arena: every traveler's band must fit in `i32`.
pub const MAX_WIDTH: i32 = 2147483551;

/// The look of a vehicle.
#[derive(Clone, Copy, Debug, PartialEq, Eq, Structural)]
pub enum VehicleKind {
    Yellow,
    White,
    Truck,
}

pub open spec fn vehicle_size(kind: VehicleKind) -> Pt {
    match kind {
        VehicleKind::Truck => Pt { x: 62, y: 24 },
        _ => Pt { x: 32, y: 26 },
    }
}

pub open spec fn vehicle_sprite(kind: VehicleKind, speed: int) -> Pt {
    match kind {
        VehicleKind::Yellow => if speed >= 0 { Pt { x: 192, y: 4 } } else { Pt { x: 192, y: 36 } },
        VehicleKind::White => if speed >= 0 { Pt { x: 224, y: 4 } } else { Pt { x: 224, y: 36 } },
        VehicleKind::Truck => if speed >= 0 { Pt { x: 258, y: 68 } } else { Pt { x: 192, y: 68 } },
    }
}

/// A road vehicle: lethal to the frog.
#[derive(Clone, Copy, Debug, PartialEq, Eq, Structural)]
pub struct Vehicle {
    pub pos: Pt,
    pub sprite: Pt,
    pub size: Pt,
    pub speed: i32,
}

pub open spec fn vehicle_step(v: Vehicle, width: int) -> Vehicle {
    Vehicle {
        pos: Pt { x: conveyor(v.pos.x as int, v.speed as int, width, 70) as i32, y: v.pos.y },
        ..v
    }
}

impl Vehicle {
    /// A vehicle of the given kind at `pos`, moving `speed` pixels a tick.
    pub fn new(pos: Pt, speed: i32, kind: VehicleKind) -> (r: Vehicle)
        ensures
            r.pos == pos,
            r.speed == speed,
            r.size == vehicle_size(kind),
            r.sprite == vehicle_sprite(kind, speed as int),
    {
        let size = match kind {
            VehicleKind::Truck => pt(62, 24),
            _ => pt(32, 26),
        };
        let sprite = match kind {
            VehicleKind::Yellow => if speed >= 0 { pt(192, 4) } else { pt(192, 36) },
            VehicleKind::White => if speed >= 0 { pt(224, 4) } else { pt(224, 36) },
            VehicleKind::Truck => if speed >= 0 { pt(258, 68) } else { pt(192, 68) },
        };
        Vehicle { pos, sprite, size, speed }
    }

    /// One tick in an arena `width` pixels wide.
    pub fn act(&mut self, width: i32)
        requires
            0 <= width <= MAX_WIDTH,
        ensures
            *final(self) == vehicle_step(*old(self), width as int),
    {
        self.pos.x = conveyor_step(self.pos.x, self.speed, width, VEHICLE_MARGIN);
    }
}

/// A floating log: the frog rides it.
#[derive(Clone, Copy, Debug, PartialEq, Eq, Structural)]
pub struct Raft {
    pub pos: Pt,
    pub size: Pt,
    pub speed: i32,
}

pub open spec fn raft_step(r: Raft, width: int) -> Raft {
    Raft {
        pos: Pt {
            x: conveyor(r.pos.x as int, r.speed as int, width, r.size.x as int) as i32,
            y: r.pos.y,
        },
        ..r
    }
}

impl Raft {
    pub open spec fn wf(&self) -> bool {
        0 <= self.size.x <= RIVER_MARGIN
    }

    /// A raft at `pos`, moving `speed` pixels a tick.
    pub fn new(pos: Pt, speed: i32) -> (r: Raft)
        ensures
            r.pos == pos,
            r.speed == speed,
            r.size == (Pt { x: 96, y: 20 }),
            r.wf(),
    {
        Raft { pos, size: pt(96, 20), speed }
    }

    /// One tick in an arena `width` pixels wide; the raft wraps after its own length.
    pub fn act(&mut self, width: i32)
        requires
            old(self).wf(),
            0 <= width <= MAX_WIDTH,
        ensures
            *final(self) == raft_step(*old(self), width as int),
    {
        self.pos.x = conveyor_step(self.pos.x, self.speed, width, self.size.x);
    }
}

/// A turtle: it swims, and now and then dives; a diving turtle drowns the frog.
#[derive(Clone, Copy, Debug, PartialEq, Eq, Structural)]
pub struct Turtle {
    pub pos: Pt,
    pub sprite: Pt,
    pub size: Pt,
    pub speed: i32,
    pub immersed: bool,
    pub counter: i32,
}

/// The look of a turtle at phase `c`: sprite, size, and whether it is under water.
/// Below 10 it swims right, below 20 left; from 20 it sinks (20 and 50), stays
/// under (70), and surfaces again (130 and 150); from 170 on nothing changes.
pub open spec fn turtle_look(c: int) -> (Pt, Pt, bool) {
    if c < 10 {
        (Pt { x: 224, y: 132 }, Pt { x: 30, y: 22 }, false)
    } else if c < 20 {
        (Pt { x: 256, y: 132 }, Pt { x: 30, y: 22 }, false)
    } else if c < 50 {
        (Pt { x: 194, y: 134 }, Pt { x: 26, y: 18 }, false)
    } else if c < 70 {
        (Pt { x: 198, y: 164 }, Pt { x: 20, y: 20 }, true)
    } else if c < 130 {
        (Pt { x: 226, y: 162 }, Pt { x: 28, y: 26 }, true)
    } else if c < 150 {
        (Pt { x: 198, y: 164 }, Pt { x: 20, y: 20 }, true)
    } else {
        (Pt { x: 194, y: 134 }, Pt { x: 26, y: 18 }, false)
    }
}

/// The phase after phase `c`: the swim cycle repeats every 20 ticks and the
/// dive cycle ends back at 0.
pub open spec fn turtle_next(c: int) -> int {
    if c < 10 {
        c + 1
    } else if c < 20 {
        (c + 1) % 20
    } else if c < 150 {
        c + 1
    } else {
        (c + 1) % 170
    }
}

/// One tick of a turtle; `dive` starts a dive whatever the phase.
pub open spec fn turtle_step(t: Turtle, width: int, dive: bool) -> Turtle {
    let c: int = if dive { 20 } else { t.counter as int };
    let x = conveyor(t.pos.x as int, t.speed as int, width, 96) as i32;
    if c < 170 {
        Turtle {
            pos: Pt { x, y: t.pos.y },
            sprite: turtle_look(c).0,
            size: turtle_look(c).1,
            immersed: turtle_look(c).2,
            counter: turtle_next(c) as i32,
            ..t
        }
    } else {
        Turtle { pos: Pt { x, y: t.pos.y }, ..t }
    }
}

impl Turtle {
    /// A swimming turtle at `pos`, moving `speed` pixels a tick.
    pub fn new(pos: Pt, speed: i32) -> (r: Turtle)
        ensures
            r.pos == pos,
            r.speed == speed,
            r.sprite == (Pt { x: 194, y: 134 }),
            r.size == (Pt { x: 26, y: 18 }),
            !r.immersed,
            r.counter == 0,
    {
        Turtle { pos, sprite: pt(194, 134), size: pt(26, 18), speed, immersed: false, counter: 0 }
    }

    /// One tick in an arena `width` pixels wide; `dive` is the draw that starts a dive.
    pub fn act(&mut self, width: i32, dive: bool)
        requires
            0 <= width <= MAX_WIDTH,
        ensures
            *final(self) == turtle_step(*old(self), width as int, dive),
    {
        self.pos.x = conveyor_step(self.pos.x, self.speed, width, RIVER_MARGIN);
        let c: i32 = if dive { 20 } else { self.counter };
        if c < 10 {
            self.sprite = pt(224, 132);
            self.size = pt(30, 22);
            self.immersed = false;
            self.counter = c + 1;
        } else if c < 20 {
            self.sprite = pt(256, 132);
            self.size = pt(30, 22);
            self.immersed = false;
            self.counter = (c + 1) % 20;
        } else if c < 50 {
            self.sprite = pt(194, 134);
            self.size = pt(26, 18);
            self.immersed = false;
            self.counter = c + 1;
        } else if c < 70 {
            self.sprite = pt(198, 164);
            self.size = pt(20, 20);
            self.immersed = true;
            self.counter = c + 1;
        } else if c < 130 {
            self.sprite = pt(226, 162);
            self.size = pt(28, 26);
            self.immersed = true;
            self.counter = c + 1;
        } else if c < 150 {
            self.sprite = pt(198, 164);
            self.size = pt(20, 20);
            self.immersed = true;
            self.counter = c + 1;
        } else if c < 170 {
            self.sprite = pt(194, 134);
            self.size = pt(26, 18);
            self.immersed = false;
            self.counter = (c + 1) % 170;
        }
    }
}

/// A crocodile: lethal to the frog, its jaws open and close every 10 ticks.
#[derive(Clone, Copy, Debug, PartialEq, Eq, Structural)]
pub struct Crocodile {
    pub pos: Pt,
    pub sprite: Pt,
    pub size: Pt,
    pub speed: i32,
    pub counter: i32,
}

pub open spec fn crocodile_step(k: Crocodile, width: int) -> Crocodile {
    Crocodile {
        pos: Pt { x: conveyor(k.pos.x as int, k.speed as int, width, 96) as i32, y: k.pos.y },
        sprite: if k.counter < 10 { Pt { x: 128, y: 189 } } else { Pt { x: 192, y: 224 } },
        size: Pt { x: 94, y: 32 },
        counter: ((k.counter + 1) % 20) as i32,
        ..k
    }
}

impl Crocodile {
    pub open spec fn wf(&self) -> bool {
        0 <= self.counter < 20
    }

    /// A crocodile with closed jaws at `pos`, moving `speed` pixels a tick.
    pub fn new(pos: Pt, speed: i32) -> (r: Crocodile)
        ensures
            r.pos == pos,
            r.speed == speed,
            r.sprite == (Pt { x: 128, y: 189 }),
            r.size == (Pt { x: 94, y: 32 }),
            r.counter == 0,
            r.wf(),
    {
        Crocodile { pos, sprite: pt(128, 189), size: pt(94, 32), speed, counter: 0 }
    }

    /// One tick in an arena `width` pixels wide.
    pub fn act(&mut self, width: i32)
        requires
            old(self).wf(),
            0 <= width <= MAX_WIDTH,
        ensures
            *final(self) == crocodile_step(*old(self), width as int),
            final(self).wf(),
    {
        self.pos.x = conveyor_step(self.pos.x, self.speed, width, RIVER_MARGIN);
        if self.counter < 10 {
            self.sprite = pt(128, 189);
        } else {
            self.sprite = pt(192, 224);
        }
        self.size = pt(94, 32);
        self.counter = (self.counter + 1) % 20;
    }
}

/// The river: touching it without standing on a raft or a turtle drowns the frog.
/// It has no sprite of its own; its look is the background.
#[derive(Clone, Copy, Debug, PartialEq, Eq, Structural)]
pub struct Water {
    pub pos: Pt,
    pub size: Pt,
}

impl Water {
    /// The river band with its top left corner at `pos`.
    pub fn new(pos: Pt) -> (r: Water)
        ensures
            r.pos == pos,
            r.size == (Pt { x: 640, y: 156 }),
    {
        Water { pos, size: pt(640, 156) }
    }
}

} // verus!
