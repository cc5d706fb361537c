use vstd::prelude::*;

verus! {

/// Storage for exactly one value.
///
/// The cell's contents can only be exchanged whole, never partially
/// updated, so a reader always removes a complete value and a writer
/// always installs one.  The state machine around the cell is what
/// grants a party the right to perform such an exchange; the wrapper
/// keeps the access itself down to that single, checked operation.
pub struct UnsafeCell<T> {
    data: T,
}

impl<T> View for UnsafeCell<T> {
    type V = T;

    closed spec fn view(&self) -> T {
        self.data
    }
}

impl<T> UnsafeCell<T> {
    /// Wraps `data` in a fresh cell.
    pub fn new(data: T) -> (cell: Self)
        ensures
            cell@ == data,
    {
        UnsafeCell { data }
    }

    /// Gives the caller mutable access to the stored data by swapping
    /// it with the contents of `other`.
    pub fn with_mut(&mut self, other: &mut T)
        ensures
            final(self)@ == *old(other),
            *final(other) == old(self)@,
    {
        core::mem::swap(&mut self.data, other);
    }
}

} // verus!
