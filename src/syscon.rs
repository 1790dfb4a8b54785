//! A model of the system-control block's part in the USART: a clock gate
//! and a clock-source selector for each instance.
use vstd::prelude::*;

verus! {

/// Number of USART instances.
pub const INSTANCES: usize = 5;

/// Access to the clock gates and clock-source selectors.
pub struct Handle {
    /// whether each instance's clock is running
    pub enabled: Vec<bool>,
    /// the clock source selected for each instance
    pub fclksel: Vec<u32>,
}

impl Handle {
    pub open spec fn wf(&self) -> bool {
        self.enabled@.len() == INSTANCES && self.fclksel@.len() == INSTANCES
    }

    /// The handle as after reset: every clock stopped, source 0 selected.
    pub fn new() -> (r: Handle)
        ensures
            r.wf(),
            forall|i: int| 0 <= i < INSTANCES ==> !r.enabled@[i] && r.fclksel@[i] == 0,
    {
        let mut enabled: Vec<bool> = Vec::new();
        let mut fclksel: Vec<u32> = Vec::new();
        let mut i: usize = 0;
        while i < INSTANCES
            invariant
                i <= INSTANCES,
                enabled@.len() == i && fclksel@.len() == i,
                forall|j: int| 0 <= j < i ==> !enabled@[j] && fclksel@[j] == 0,
            decreases INSTANCES - i,
        {
            enabled.push(false);
            fclksel.push(0);
            i = i + 1;
        }
        Handle { enabled, fclksel }
    }

    /// Start the clock of instance `n`.
    pub fn enable_clock(&mut self, n: usize)
        requires
            old(self).wf(),
            n < INSTANCES,
        ensures
            final(self).wf(),
            final(self).enabled@ == old(self).enabled@.update(n as int, true),
            final(self).fclksel@ == old(self).fclksel@,
    {
        self.enabled.set(n, true);
    }

    /// Stop the clock of instance `n`.
    pub fn disable_clock(&mut self, n: usize)
        requires
            old(self).wf(),
            n < INSTANCES,
        ensures
            final(self).wf(),
            final(self).enabled@ == old(self).enabled@.update(n as int, false),
            final(self).fclksel@ == old(self).fclksel@,
    {
        self.enabled.set(n, false);
    }

    /// Select clock source `source` for instance `n`.
    pub fn select_clock_source(&mut self, n: usize, source: u32)
        requires
            old(self).wf(),
            n < INSTANCES,
        ensures
            final(self).wf(),
            final(self).enabled@ == old(self).enabled@,
            final(self).fclksel@ == old(self).fclksel@.update(n as int, source),
    {
        self.fclksel.set(n, source);
    }
}

} // verus!
