use vstd::prelude::*;

verus! {

/// Where a horizontal traveler at `x` goes in one tick: it moves by `speed`, and
/// once it is past the far edge of the band `[-margin, width + margin]` it
/// re-enters at the edge it travels away from.
pub open spec fn conveyor(x: int, speed: int, width: int, margin: int) -> int {
    let n = x + speed;
    if n > width + margin && speed > 0 {
        -margin
    } else if n < -margin && speed < 0 {
        width
    } else {
        n
    }
}

/// One tick of horizontal travel.
pub fn conveyor_step(x: i32, speed: i32, width: i32, margin: i32) -> (r: i32)
    requires
        0 <= width,
        0 <= margin,
        width + margin <= i32::MAX,
    ensures
        r == conveyor(x as int, speed as int, width as int, margin as int),
{
    let n: i64 = x as i64 + speed as i64;
    if n > width as i64 + margin as i64 && speed > 0 {
        -margin
    } else if n < -(margin as i64) && speed < 0 {
        width
    } else {
        n as i32
    }
}

/// The horizontal conveyor is continuous: a traveler whose speed does not
/// exceed its margin, and whose footprint fits in the margin, stays in the band
/// `[-margin, width + margin]`, moves by exactly `speed` on every tick but the
/// ones that wrap it, and wraps only while it is wholly off one side of the
/// arena, to a place wholly off the other side from which it comes back in.
pub proof fn lemma_conveyor_continuous(x: int, speed: int, width: int, margin: int, footprint: int)
    requires
        0 <= width,
        0 <= footprint <= margin,
        -margin <= speed <= margin,
        -margin <= x <= width + margin,
    ensures
        -margin <= conveyor(x, speed, width, margin) <= width + margin,
        conveyor(x, speed, width, margin) == x + speed || (speed > 0 && x + speed > width
            && conveyor(x, speed, width, margin) + footprint <= 0) || (speed < 0 && x + speed
            + footprint < 0 && conveyor(x, speed, width, margin) >= width),
{
}

} // verus!
