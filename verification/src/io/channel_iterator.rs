//! Settings of the parallel reader that feeds message chunks through a
//! channel.

use vstd::prelude::*;

verus! {

/// Default capacity of the chunk channel.
pub const DEFAULT_CHANNEL_CAPACITY: usize = 32;

/// Builder of a parallel reader iterator.
#[derive(Debug, Clone, Default)]
pub struct ParallelReaderIteratorBuilder {
    /// Number of reader threads (`None`: the reader's default)
    pub num_threads: Option<usize>,
    /// Capacity of the chunk channel (`None`: 32)
    pub channel_capacity: Option<usize>,
    /// Name of the reader thread
    pub thread_name: Option<String>,
}

impl ParallelReaderIteratorBuilder {
    /// A builder with every setting at its default.
    pub fn new() -> (r: Self)
        ensures
            r.num_threads is None,
            r.channel_capacity is None,
            r.thread_name is None,
    {
        ParallelReaderIteratorBuilder { num_threads: None, channel_capacity: None, thread_name: None }
    }

    /// Use `num_threads` reader threads.
    pub fn with_threads(self, num_threads: usize) -> (r: Self)
        ensures
            r.num_threads == Some(num_threads),
            r.channel_capacity == self.channel_capacity,
            r.thread_name == self.thread_name,
    {
        ParallelReaderIteratorBuilder { num_threads: Some(num_threads), ..self }
    }

    /// Use a chunk channel of the given capacity.
    pub fn with_channel_capacity(self, capacity: usize) -> (r: Self)
        ensures
            r.channel_capacity == Some(capacity),
            r.num_threads == self.num_threads,
            r.thread_name == self.thread_name,
    {
        ParallelReaderIteratorBuilder { channel_capacity: Some(capacity), ..self }
    }

    /// Name the reader thread.
    pub fn with_thread_name(self, name: String) -> (r: Self)
        ensures
            r.thread_name == Some(name),
            r.num_threads == self.num_threads,
            r.channel_capacity == self.channel_capacity,
    {
        ParallelReaderIteratorBuilder { thread_name: Some(name), ..self }
    }

    /// The capacity of the chunk channel that the reader uses.
    pub fn capacity(&self) -> (r: usize)
        ensures
            r == match self.channel_capacity {
                Some(c) => c,
                None => DEFAULT_CHANNEL_CAPACITY,
            },
    {
        match self.channel_capacity {
            Some(c) => c,
            None => DEFAULT_CHANNEL_CAPACITY,
        }
    }
}

} // verus!
