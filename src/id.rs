use vstd::prelude::*;

use crate::backend::Backend;

verus! {

/// An opaque, copyable handle naming one resource: the slot it occupies in
/// its registry, the epoch of that occupation, and the backend it lives on.
#[derive(Clone, Copy, Debug, PartialEq, Eq, Structural, Hash)]
pub struct Id {
    pub index: usize,
    pub epoch: u32,
    pub backend: Backend,
}

impl Id {
    /// The backend this identifier belongs to.
    pub fn backend(self) -> (r: Backend)
        ensures
            r == self.backend,
    {
        self.backend
    }
}

} // verus!
