use vstd::prelude::*;

verus! {

/// The policy governing how the traversals of several targets are
/// interleaved.
#[derive(Debug, Clone, Copy, PartialEq, Eq, Structural)]
pub enum ExecutionStrategy {
    /// Run all test cases for one target before passing to the next target.
    Sequential,
    /// Run each test case for all targets before passing to the next case.
    RoundRobin,
    /// Run all targets' test cases concurrently, one worker per target.
    Parallel,
}

} // verus!
