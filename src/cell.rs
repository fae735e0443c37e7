//! Interior-mutable cells with an enforced borrowing discipline.
//!
//! This is the single-threaded strategy. Exclusive access is scoped: `lock`
//! and `write` hand the value to a function inside a guard and store the guard's
//! value back when that function returns, so access always ends with its scope.
//! They take the cell by `&mut`, and shared guards borrow it, so a request that
//! conflicts with a live guard is refused when the program is compiled rather
//! than detected while it runs.
use vstd::prelude::*;

verus! {

/// A cell granting exclusive access to the value it owns.
#[derive(Debug)]
pub struct PyMutex<T> {
    slot: Option<T>,
}

/// Exclusive access to the value of a cell, alive while `lock` runs.
#[derive(Debug)]
pub struct PyMutexGuard<T> {
    value: T,
}

impl<T> PyMutexGuard<T> {
    pub closed spec fn value(&self) -> T {
        self.value
    }

    pub fn get(&self) -> (r: &T)
        ensures
            *r == self.value(),
    {
        &self.value
    }

    pub fn get_mut(&mut self) -> (r: &mut T)
        ensures
            *r == old(self).value(),
            final(self).value() == *final(r),
    {
        &mut self.value
    }
}

impl<T> PyMutex<T> {
    /// The cell holds its value; only a scoped access empties it for a while.
    pub closed spec fn wf(&self) -> bool {
        self.slot is Some
    }

    pub closed spec fn value(&self) -> T {
        self.slot->Some_0
    }

    pub fn new(value: T) -> (r: Self)
        ensures
            r.wf(),
            r.value() == value,
    {
        PyMutex { slot: Some(value) }
    }

    /// Runs `f` with exclusive access to the value; the value in the guard
    /// that `f` hands back is stored in the cell when `f` returns.
    pub fn lock<R, F: FnOnce(PyMutexGuard<T>) -> (PyMutexGuard<T>, R)>(&mut self, f: F) -> (r: R)
        requires
            old(self).wf(),
            forall|g: PyMutexGuard<T>| g.value() == old(self).value() ==> call_requires(f, (g,)),
        ensures
            final(self).wf(),
            exists|g_in: PyMutexGuard<T>, g_out: PyMutexGuard<T>|
                {
                    &&& g_in.value() == old(self).value()
                    &&& call_ensures(f, (g_in,), (g_out, r))
                    &&& final(self).value() == g_out.value()
                },
    {
        let value = self.slot.take().unwrap();
        let g = PyMutexGuard { value };
        let ghost g_in = g;
        proof {
            assert(g_in.value() == old(self).value());
            assert(call_requires(f, (g_in,)));
        }
        let (g_out, r) = f(g);
        self.slot = Some(g_out.value);
        proof {
            assert(call_ensures(f, (g_in,), (g_out, r)));
        }
        r
    }
}

/// A cell granting shared read access to any number of readers, or exclusive
/// access to one writer, never both.
#[derive(Debug)]
pub struct PyRwLock<T> {
    slot: Option<T>,
}

/// Shared access to the value of a `PyRwLock`; it borrows the cell, so no
/// writer can start while it is alive, and access ends when it is dropped.
#[derive(Debug)]
pub struct PyRwLockReadGuard<'a, T> {
    value: &'a T,
}

/// Exclusive access to the value of a `PyRwLock`, alive while `write` runs.
#[derive(Debug)]
pub struct PyRwLockWriteGuard<T> {
    value: T,
}

impl<'a, T> PyRwLockReadGuard<'a, T> {
    pub closed spec fn value(&self) -> T {
        *self.value
    }

    pub fn get(&self) -> (r: &T)
        ensures
            *r == self.value(),
    {
        self.value
    }
}

impl<T> PyRwLockWriteGuard<T> {
    pub closed spec fn value(&self) -> T {
        self.value
    }

    pub fn get(&self) -> (r: &T)
        ensures
            *r == self.value(),
    {
        &self.value
    }

    pub fn get_mut(&mut self) -> (r: &mut T)
        ensures
            *r == old(self).value(),
            final(self).value() == *final(r),
    {
        &mut self.value
    }
}

impl<T> PyRwLock<T> {
    /// The cell holds its value; only a scoped write empties it for a while.
    pub closed spec fn wf(&self) -> bool {
        self.slot is Some
    }

    pub closed spec fn value(&self) -> T {
        self.slot->Some_0
    }

    pub fn new(value: T) -> (r: Self)
        ensures
            r.wf(),
            r.value() == value,
    {
        PyRwLock { slot: Some(value) }
    }

    /// Grants shared access; any number of shared guards may be alive at once.
    pub fn read(&self) -> (r: PyRwLockReadGuard<'_, T>)
        requires
            self.wf(),
        ensures
            r.value() == self.value(),
    {
        PyRwLockReadGuard { value: self.slot.as_ref().unwrap() }
    }

    /// Runs `f` with exclusive access to the value; the value in the guard
    /// that `f` hands back is stored in the cell when `f` returns.
    pub fn write<R, F: FnOnce(PyRwLockWriteGuard<T>) -> (PyRwLockWriteGuard<T>, R)>(
        &mut self,
        f: F,
    ) -> (r: R)
        requires
            old(self).wf(),
            forall|g: PyRwLockWriteGuard<T>|
                g.value() == old(self).value() ==> call_requires(f, (g,)),
        ensures
            final(self).wf(),
            exists|g_in: PyRwLockWriteGuard<T>, g_out: PyRwLockWriteGuard<T>|
                {
                    &&& g_in.value() == old(self).value()
                    &&& call_ensures(f, (g_in,), (g_out, r))
                    &&& final(self).value() == g_out.value()
                },
    {
        let value = self.slot.take().unwrap();
        let g = PyRwLockWriteGuard { value };
        let ghost g_in = g;
        proof {
            assert(g_in.value() == old(self).value());
            assert(call_requires(f, (g_in,)));
        }
        let (g_out, r) = f(g);
        self.slot = Some(g_out.value);
        proof {
            assert(call_ensures(f, (g_in,), (g_out, r)));
        }
        r
    }
}

} // verus!
