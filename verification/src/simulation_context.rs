use vstd::prelude::*;

verus! {

/// A random number generator that always draws zero, for reproducible runs.
#[derive(Copy, Clone, Debug, Default)]
pub struct FakeRngGenerator {}

impl FakeRngGenerator {
    /// The next draw in `[0, 1)`, as `f32` bits: always those of `0.0`.
    pub fn next_bits(&self) -> (r: u32)
        ensures
            r == 0,
    {
        0
    }
}

} // verus!
