use vstd::prelude::*;

verus! {

/// A linear congruential generator; the state stays below 2^31.
pub struct Rng {
    state: u64,
}

impl Rng {
    pub closed spec fn wf(&self) -> bool {
        self.state < 0x8000_0000
    }

    /// A generator started from `seed`.
    pub fn new(seed: u64) -> (r: Rng)
        ensures
            r.wf(),
    {
        Rng { state: seed % 0x8000_0000 }
    }

    /// A number in `lo..=hi`.
    pub fn randint(&mut self, lo: i32, hi: i32) -> (r: i32)
        requires
            old(self).wf(),
            lo <= hi,
        ensures
            final(self).wf(),
            lo <= r <= hi,
    {
        let s = self.state;
        assert(s * 1103515245 < 0x8000_0000u64 * 1103515245) by (nonlinear_arith)
            requires
                s < 0x8000_0000u64,
        ;
        self.state = (s * 1103515245 + 12345) % 0x8000_0000;
        let range: i64 = hi as i64 - lo as i64 + 1;
        let v: i64 = (self.state >> 8u64) as i64 % range;
        (lo as i64 + v) as i32
    }
}

} // verus!
