//! The counter program's shared state: a count that threads increment
//! under a mutex.
use vstd::prelude::*;
use std::sync::Arc;
use crate::semaphore::SemMutex;

verus! {

/// A count.
#[derive(Copy, Clone, Debug, PartialEq, Eq, Structural)]
pub struct Counter {
    pub count: u64,
}

impl Counter {
    /// A count of zero.
    pub fn new() -> (r: Self)
        ensures
            r.count == 0,
    {
        Counter { count: 0 }
    }

    /// The count.
    pub fn count(&self) -> (r: u64)
        ensures
            r == self.count,
    {
        self.count
    }

    /// Adds one to the count.
    pub fn increment(&mut self)
        requires
            old(self).count < u64::MAX,
        ensures
            final(self).count == old(self).count + 1,
    {
        self.count = self.count + 1;
    }
}

/// What a counting thread is handed: the shared counter, how many times to
/// increment it, and its own number.
pub struct CounterThreadArguments {
    pub counter: Arc<SemMutex<Counter>>,
    pub iterations: usize,
    pub thread_number: usize,
}

impl CounterThreadArguments {
    /// Arguments for thread `thread_number` to increment `counter`
    /// `iterations` times.
    pub fn new(counter: Arc<SemMutex<Counter>>, iterations: usize, thread_number: usize) -> (r: Self)
        ensures
            r.counter == counter,
            r.iterations == iterations,
            r.thread_number == thread_number,
    {
        CounterThreadArguments { counter, iterations, thread_number }
    }
}

} // verus!
