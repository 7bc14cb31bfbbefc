use vstd::prelude::*;

verus! {

/// Tuning parameters of the adaptive wait: how many pure spin iterations and
/// how many cooperative-yield iterations come before the waiter blocks.
#[derive(Clone, Copy, Debug)]
pub struct Tuning {
    busy_iters: u32,
    yield_iters: u32,
}

/// The default number of busy-spin iterations.
pub const DEFAULT_BUSY_ITERS: u32 = 2048;

/// The default number of cooperative-yield iterations.
pub const DEFAULT_YIELD_ITERS: u32 = 256;

impl Tuning {
    /// Number of busy-spin iterations, as a spec value.
    pub closed spec fn spin_budget(self) -> nat {
        self.busy_iters as nat
    }

    /// Number of cooperative-yield iterations, as a spec value.
    pub closed spec fn yield_budget(self) -> nat {
        self.yield_iters as nat
    }

    /// Create a custom tuning configuration.
    pub fn new(busy_iters: u32, yield_iters: u32) -> (r: Self)
        ensures
            r.spin_budget() == busy_iters as nat,
            r.yield_budget() == yield_iters as nat,
    {
        Self { busy_iters, yield_iters }
    }

    /// Set the number of iterations of the initial pure spin phase.
    pub fn busy_iters(self, t: u32) -> (r: Self)
        ensures
            r.spin_budget() == t as nat,
            r.yield_budget() == self.yield_budget(),
    {
        let mut s = self;
        s.busy_iters = t;
        s
    }

    /// Set the number of iterations of the cooperative-yield phase.
    pub fn yield_iters(self, t: u32) -> (r: Self)
        ensures
            r.spin_budget() == self.spin_budget(),
            r.yield_budget() == t as nat,
    {
        let mut s = self;
        s.yield_iters = t;
        s
    }

    /// The configured number of busy-spin iterations.
    pub fn spin_iterations(&self) -> (r: u32)
        ensures
            r as nat == self.spin_budget(),
    {
        self.busy_iters
    }

    /// The configured number of cooperative-yield iterations.
    pub fn yield_iterations(&self) -> (r: u32)
        ensures
            r as nat == self.yield_budget(),
    {
        self.yield_iters
    }
}

impl Default for Tuning {
    /// Default tuning parameters, with a slight bias towards improved latency.
    fn default() -> (r: Self)
        ensures
            r.spin_budget() == DEFAULT_BUSY_ITERS as nat,
            r.yield_budget() == DEFAULT_YIELD_ITERS as nat,
    {
        Tuning::new(DEFAULT_BUSY_ITERS, DEFAULT_YIELD_ITERS)
    }
}

} // verus!
