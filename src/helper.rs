//! Bounded stepping of a value, for smooth speed changes.
use vstd::prelude::*;

verus! {

/// `v` moved into `[lo, hi]`.
pub open spec fn clamp(v: int, lo: int, hi: int) -> int {
    if v < lo {
        lo
    } else if v > hi {
        hi
    } else {
        v
    }
}

/// A value that moves by a fixed step at a time and stays within `[min, max]`.
#[derive(Debug)]
pub struct SimpleTween {
    cur: i64,
    min: i64,
    max: i64,
    inc: i64,
}

impl SimpleTween {
    /// The current value.
    pub closed spec fn value(&self) -> int {
        self.cur as int
    }

    /// The lowest value allowed.
    pub closed spec fn lower(&self) -> int {
        self.min as int
    }

    /// The highest value allowed.
    pub closed spec fn upper(&self) -> int {
        self.max as int
    }

    /// The change of one step.
    pub closed spec fn step(&self) -> int {
        self.inc as int
    }

    /// The value lies within its bounds.
    pub open spec fn wf(&self) -> bool {
        self.lower() <= self.value() <= self.upper()
    }

    /// A tween at `cur`, bounded by `[min, max]`, that moves by `inc` per step.
    pub fn new(cur: i64, min: i64, max: i64, inc: i64) -> (r: Self)
        requires
            min <= cur <= max,
        ensures
            r.wf(),
            r.value() == cur,
            r.lower() == min,
            r.upper() == max,
            r.step() == inc,
    {
        Self { cur, min, max, inc }
    }

    /// The current value.
    pub fn current_value(&self) -> (r: &i64)
        ensures
            *r == self.value(),
    {
        &self.cur
    }

    /// Moves the value by `times` steps, stopping at the bounds.
    pub fn apply_times(&mut self, times: isize)
        requires
            old(self).wf(),
        ensures
            final(self).wf(),
            final(self).value() == clamp(
                old(self).value() + times * old(self).step(),
                old(self).lower(),
                old(self).upper(),
            ),
            final(self).lower() == old(self).lower(),
            final(self).upper() == old(self).upper(),
            final(self).step() == old(self).step(),
    {
        proof {
            let (t, s) = (times as int, self.inc as int);
            assert(-0x4000_0000_0000_0000_0000_0000_0000_0000 <= t * s <= 0x4000_0000_0000_0000_0000_0000_0000_0000)
                by (nonlinear_arith)
                requires
                    -0x8000_0000_0000_0000 <= t <= 0x8000_0000_0000_0000,
                    -0x8000_0000_0000_0000 <= s <= 0x8000_0000_0000_0000,
            ;
        }
        let moved = self.cur as i128 + times as i128 * self.inc as i128;
        self.cur = if moved < self.min as i128 {
            self.min
        } else if moved > self.max as i128 {
            self.max
        } else {
            moved as i64
        };
    }

    /// Moves the value one step up, stopping at the upper bound.
    pub fn increase_once(&mut self)
        requires
            old(self).wf(),
        ensures
            final(self).wf(),
            final(self).value() == clamp(
                old(self).value() + old(self).step(),
                old(self).lower(),
                old(self).upper(),
            ),
            final(self).lower() == old(self).lower(),
            final(self).upper() == old(self).upper(),
            final(self).step() == old(self).step(),
    {
        self.apply_times(1);
    }

    /// Moves the value one step down, stopping at the lower bound.
    pub fn decrease_once(&mut self)
        requires
            old(self).wf(),
        ensures
            final(self).wf(),
            final(self).value() == clamp(
                old(self).value() - old(self).step(),
                old(self).lower(),
                old(self).upper(),
            ),
            final(self).lower() == old(self).lower(),
            final(self).upper() == old(self).upper(),
            final(self).step() == old(self).step(),
    {
        self.apply_times(-1);
    }
}

} // verus!
