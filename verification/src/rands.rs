use vstd::prelude::*;

verus! {

/// The randomness capability that generators consume.
///
/// It offers a uniform draw of an integer below a bound, and — built on top
/// of that draw — a uniform selection of one element out of a non-empty
/// ordered byte set. Implementations supply the draw; nothing beyond the
/// range of its result is promised, so a caller's guarantees hold for every
/// source, however it behaves.
pub trait Rand: Sized {
    /// Draws an integer uniformly from `[0, bound)`.
    fn below(&mut self, bound: u64) -> (r: u64)
        requires
            bound >= 1,
        ensures
            r < bound;

    /// Selects one element of a non-empty ordered byte set, uniformly.
    fn pick(&mut self, options: &Vec<u8>) -> (b: u8)
        requires
            options@.len() >= 1,
        ensures
            options@.contains(b),
    {
        let i = self.below(options.len() as u64);
        let b = options[i as usize];
        proof {
            assert(options@[i as int] == b);
        }
        b
    }
}

/// A deterministic randomness source for tests and dry runs.
///
/// Each draw reduces the current state below the requested bound and then
/// advances the state by a fixed step, wrapping on overflow. A step of zero
/// gives a source that repeats one value forever.
pub struct StepRand {
    state: u64,
    step: u64,
}

impl StepRand {
    /// The value the next draw is reduced from.
    pub closed spec fn state_of(&self) -> u64 {
        self.state
    }

    /// The amount the state advances by after each draw.
    pub closed spec fn step_of(&self) -> u64 {
        self.step
    }

    /// Returns a source that starts at `state` and advances by `step`.
    pub fn new(state: u64, step: u64) -> (r: Self)
        ensures
            r.state_of() == state,
            r.step_of() == step,
    {
        StepRand { state, step }
    }
}

impl Rand for StepRand {
    fn below(&mut self, bound: u64) -> (r: u64)
        ensures
            r == old(self).state_of() % bound,
            final(self).state_of() == vstd::wrapping::u64_specs::wrapping_add(
                old(self).state_of(),
                old(self).step_of(),
            ),
            final(self).step_of() == old(self).step_of(),
    {
        let r = self.state % bound;
        self.state = self.state.wrapping_add(self.step);
        r
    }
}

} // verus!
