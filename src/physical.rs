//! Types and traits for reading and writing values in byte buffers.

use vstd::prelude::*;

verus! {

/// Signals that an input or output is too small to hold a value of some type.
#[derive(Copy, Clone, PartialEq, Eq, Debug)]
pub struct Error;

/// How many bytes a value occupies once written to an output.
pub trait Size {
    /// The size of the value, in bytes.
    spec fn spec_size(&self) -> nat;

    /// Gets the size of the value when serialized to an output.
    fn size(&self) -> (r: usize)
        requires
            self.spec_size() <= usize::MAX,
        ensures
            r as nat == self.spec_size(),
    ;
}

} // verus!
