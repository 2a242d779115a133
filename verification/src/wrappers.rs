//! A guard that withholds a value from ordinary destruction until it is
//! explicitly released.

use core::mem::ManuallyDrop;
use vstd::prelude::*;

verus! {

/// Withholds the wrapped value's cleanup: dropping the wrapper does not
/// run the value's destructor. The value leaves the wrapper only through
/// [`DontDrop::into_inner`], which restores ordinary ownership.
pub struct DontDrop<T>(ManuallyDrop<T>);

impl<T> DontDrop<T> {
    /// The wrapped value.
    pub closed spec fn value(self) -> T {
        self.0@
    }

    /// Wraps a value, withholding its destructor.
    pub fn new(value: T) -> (r: Self)
        ensures
            r.value() == value,
    {
        DontDrop(ManuallyDrop::new(value))
    }

    /// Releases the wrapped value to the caller. The value is then under
    /// ordinary ownership again: dropping it from there runs its cleanup
    /// as usual, which is the one deliberate way to destroy it.
    pub fn into_inner(self) -> (r: T)
        ensures
            r == self.value(),
    {
        ManuallyDrop::into_inner(self.0)
    }
}

} // verus!
