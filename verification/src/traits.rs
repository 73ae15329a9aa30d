use vstd::prelude::*;

verus! {

/// Borrow a value as a writable pointer for a boundary call.
pub trait AsMutPtr<T>: Sized {
    fn as_mut_ptr(&mut self) -> &mut T;
}

impl<T> AsMutPtr<T> for T {
    /// The pointer is the value itself: reads see the value, and writes
    /// through the pointer are writes to the value.
    fn as_mut_ptr(&mut self) -> (r: &mut T)
        ensures
            *r == *old(self),
            *final(self) == *final(r),
    {
        self
    }
}

/// Borrow a value as a read-only pointer for a boundary call.
pub trait AsConstPtr<T>: Sized {
    fn as_const_ptr(&self) -> &T;
}

impl<T> AsConstPtr<T> for T {
    /// The pointer is the value itself.
    fn as_const_ptr(&self) -> (r: &T)
        ensures
            *r == *self,
    {
        self
    }
}

} // verus!
