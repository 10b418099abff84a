//! Fixed-timestep scheduling: wall-clock time is accumulated, and one
//! simulation step is owed per whole time quantum that has elapsed. Two
//! independent instances drive the program — the physics tick and the slower
//! enemy-spawn interval — on separate schedules.

use vstd::prelude::*;

verus! {

/// A fixed-rate timer: accumulates elapsed time and hands out one step per
/// whole `step` quantum. Time is in any fixed unit (the library does not
/// care which); `accumulated` always stays below `step`.
#[derive(Clone, Copy, PartialEq, Eq, Structural, Debug)]
pub struct FixedTimestep {
    /// Length of one quantum, in time units. Always positive.
    pub step: u64,
    /// Time carried over since the last whole quantum. Always below `step`.
    pub accumulated: u64,
}

impl FixedTimestep {
    /// The timer is usable: a positive quantum, and less than one quantum
    /// carried over.
    pub open spec fn wf(self) -> bool {
        &&& self.step > 0
        &&& self.accumulated < self.step
    }

    /// A fresh timer with the given quantum and nothing carried over.
    pub fn new(step: u64) -> (t: FixedTimestep)
        requires
            step > 0,
        ensures
            t.wf(),
            t.step == step,
            t.accumulated == 0,
    {
        FixedTimestep { step, accumulated: 0 }
    }

    /// Credit `elapsed` time units and return how many whole quanta are now
    /// owed: the caller runs that many simulation steps. The remainder below
    /// one quantum is carried over to the next call, so no time is lost and
    /// no step is invented.
    pub fn advance(&mut self, elapsed: u64) -> (steps: u64)
        requires
            old(self).wf(),
            old(self).accumulated + elapsed <= u64::MAX,
        ensures
            final(self).wf(),
            final(self).step == old(self).step,
            steps == (old(self).accumulated + elapsed) / old(self).step as int,
            final(self).accumulated == (old(self).accumulated + elapsed) % old(self).step as int,
            old(self).accumulated + elapsed == steps * old(self).step + final(self).accumulated,
    {
        let total: u64 = self.accumulated + elapsed;
        let steps: u64 = total / self.step;
        self.accumulated = total % self.step;
        proof {
            vstd::arithmetic::div_mod::lemma_fundamental_div_mod(
                total as int,
                self.step as int,
            );
        }
        steps
    }
}

} // verus!
