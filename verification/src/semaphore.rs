//! A counting semaphore, and a mutex built on it.
//!
//! Taking a unit when none is left does not block here: the caller learns
//! it got none, and yields the processor before trying again.
use vstd::prelude::*;

verus! {

/// A count of available units.
#[derive(Copy, Clone, Debug)]
pub struct Semaphore {
    pub value: u64,
}

impl Semaphore {
    /// A semaphore holding `value` units.
    pub fn new(value: u64) -> (r: Self)
        ensures
            r.value == value,
    {
        Semaphore { value }
    }

    /// Takes a unit, if one is left.
    pub fn wait(&mut self) -> (r: bool)
        ensures
            r == (old(self).value > 0),
            r ==> final(self).value == old(self).value - 1,
            !r ==> final(self).value == old(self).value,
    {
        if self.value == 0 {
            false
        } else {
            self.value = self.value - 1;
            true
        }
    }

    /// Gives a unit back.
    pub fn signal(&mut self)
        requires
            old(self).value < u64::MAX,
        ensures
            final(self).value == old(self).value + 1,
    {
        self.value = self.value + 1;
    }
}

/// A value behind a semaphore of one unit.
pub struct SemMutex<T> {
    pub semaphore: Semaphore,
    pub data: T,
}

/// The value of a locked `SemMutex`, borrowed while the lock is held; the
/// unit goes back with `unlock`.
pub struct SemMutexGuard<'a, T> {
    pub semaphore: &'a mut Semaphore,
    pub data: &'a mut T,
}

impl<'a, T> SemMutexGuard<'a, T> {
    /// Gives the unit back.
    pub fn unlock(self)
        requires
            self.semaphore.value < u64::MAX,
        ensures
            final(self.semaphore).value == old(self.semaphore).value + 1,
            *final(self.data) == *old(self.data),
    {
        self.semaphore.signal();
    }
}

impl<'a, T> SemMutex<T> {
    /// An unlocked mutex around `data`.
    pub fn new(data: T) -> (r: Self)
        ensures
            r.semaphore.value == 1,
            r.data == data,
    {
        SemMutex { semaphore: Semaphore::new(1), data }
    }

    /// Locks the mutex, if it is free.
    pub fn lock(&'a mut self) -> (r: Option<SemMutexGuard<'a, T>>)
        ensures
            r is Some <==> old(self).semaphore.value > 0,
            r matches Some(g) ==> {
                &&& *g.data == old(self).data
                &&& g.semaphore.value == old(self).semaphore.value - 1
                &&& final(self).data == *final(g.data)
                &&& final(self).semaphore == *final(g.semaphore)
            },
            r is None ==> final(self).semaphore == old(self).semaphore && final(self).data
                == old(self).data,
    {
        if self.semaphore.wait() {
            Some(SemMutexGuard { semaphore: &mut self.semaphore, data: &mut self.data })
        } else {
            None
        }
    }

    /// Runs `f` on the value under the lock, if the lock is free; tells
    /// whether it ran.
    pub fn execute<F: FnOnce(&T)>(&mut self, f: F) -> (r: bool)
        requires
            f.requires((&old(self).data,)),
            old(self).semaphore.value < u64::MAX,
        ensures
            r == (old(self).semaphore.value > 0),
            final(self).semaphore == old(self).semaphore,
            final(self).data == old(self).data,
    {
        if self.semaphore.wait() {
            f(&self.data);
            self.semaphore.signal();
            true
        } else {
            false
        }
    }

    /// Runs `f` on the value under the lock, if the lock is free, keeping
    /// what it gives back; tells whether it ran.
    pub fn execute_mut<F: FnOnce(T) -> T>(&mut self, f: F) -> (r: bool)
        where T: Copy
        requires
            f.requires((old(self).data,)),
            old(self).semaphore.value < u64::MAX,
        ensures
            r == (old(self).semaphore.value > 0),
            final(self).semaphore == old(self).semaphore,
            r ==> f.ensures((old(self).data,), final(self).data),
            !r ==> final(self).data == old(self).data,
    {
        if self.semaphore.wait() {
            let value = f(self.data);
            self.data = value;
            self.semaphore.signal();
            true
        } else {
            false
        }
    }
}

/// Giving a unit back after taking one leaves the semaphore as it was.
pub proof fn lemma_wait_then_signal(before: Semaphore, taken: Semaphore, after: Semaphore)
    requires
        before.value > 0,
        taken.value == before.value - 1,
        after.value == taken.value + 1,
    ensures
        after == before,
{
}

/// A mutex's semaphore starts with one unit, so once `wait` has taken it a
/// second `wait` is refused until `signal` gives it back.
pub proof fn lemma_mutex_excludes(fresh: Semaphore, locked: Semaphore, released: Semaphore)
    requires
        fresh.value == 1,
        locked.value == fresh.value - 1,
        released.value == locked.value + 1,
    ensures
        !(locked.value > 0),
        released.value > 0,
{
}

} // verus!
