//! A lock around a value. The processor runs one thread at a time and the
//! lock does not spin: holding it is holding a unique borrow of the value.
use vstd::prelude::*;

verus! {

/// A value behind a lock.
pub struct SpinMutex<T> {
    pub lock: bool,
    pub data: T,
}

/// The value of a locked `SpinMutex`, borrowed while the lock is held.
pub struct SpinMutexGuard<'a, T> {
    pub data: &'a mut T,
}

impl<'a, T> SpinMutex<T> {
    /// An unlocked mutex around `data`.
    pub fn new(data: T) -> (r: Self)
        ensures
            r.data == data,
            !r.lock,
    {
        SpinMutex { lock: false, data }
    }

    /// Locks the mutex, giving a guard through which its value is read and
    /// written.
    pub fn lock(&'a mut self) -> (r: SpinMutexGuard<'a, T>)
        ensures
            *r.data == old(self).data,
            final(self).data == *final(r.data),
            final(self).lock == old(self).lock,
    {
        SpinMutexGuard { data: &mut self.data }
    }

    /// Runs `f` on the value.
    pub fn execute<F: FnOnce(&T)>(&self, f: F)
        requires
            f.requires((&self.data,)),
        ensures
            f.ensures((&self.data,), ()),
    {
        f(&self.data);
    }

    /// Runs `f` on the value, which it may change.
    pub fn execute_mut<F: FnOnce(T) -> T>(&mut self, f: F)
        where T: Copy
        requires
            f.requires((old(self).data,)),
        ensures
            f.ensures((old(self).data,), final(self).data),
            final(self).lock == old(self).lock,
    {
        let value = f(self.data);
        self.data = value;
    }
}

} // verus!
