//! How output is written: sequentially, or in parallel on several threads.

use vstd::prelude::*;

verus! {

/// Strategy for writing output.
#[derive(Debug, Clone, Copy, PartialEq, Eq, Structural)]
pub enum WriteStrategy {
    /// One writer, in order
    Sequential,
    /// Several writer threads
    Parallel,
}

impl Default for WriteStrategy {
    /// Sequential writing.
    fn default() -> (r: Self)
        ensures
            r == WriteStrategy::Sequential,
    {
        WriteStrategy::Sequential
    }
}

/// Sequential writing.
#[derive(Debug, Clone, Copy, Default)]
pub struct SequentialWrite;

impl SequentialWrite {
    /// Sequential writing.
    pub fn new() -> (r: Self)
        ensures
            r == SequentialWrite,
    {
        SequentialWrite
    }
}

/// Parallel writing.
#[derive(Debug, Clone, Copy)]
pub struct ParallelWrite {
    /// Number of threads (`None`: as many as there are cores)
    pub num_threads: Option<usize>,
}

impl Default for ParallelWrite {
    /// Parallel writing with the default number of threads.
    fn default() -> (r: Self)
        ensures
            r.num_threads is None,
    {
        ParallelWrite { num_threads: None }
    }
}

impl ParallelWrite {
    /// Parallel writing with the default number of threads.
    pub fn new() -> (r: Self)
        ensures
            r.num_threads is None,
    {
        ParallelWrite { num_threads: None }
    }

    /// Use `num_threads` threads.
    pub fn with_threads(self, num_threads: usize) -> (r: Self)
        ensures
            r.num_threads == Some(num_threads),
    {
        ParallelWrite { num_threads: Some(num_threads) }
    }
}

} // verus!
