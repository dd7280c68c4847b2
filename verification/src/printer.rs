//! The discovery snapshot's view of one installed printer.

use vstd::prelude::*;

verus! {

/// One printer as reported by a discovery snapshot: its name, unique within
/// the snapshot, and the position of its backend handle in the caller's
/// handle table for the same snapshot.
pub struct Printer {
    pub name: String,
    pub handle: usize,
}

impl Printer {
    /// Builds a snapshot entry from a name and a handle position.
    pub fn new(name: String, handle: usize) -> (r: Printer)
        ensures
            r.name == name,
            r.handle == handle,
    {
        Printer { name, handle }
    }
}

impl Clone for Printer {
    /// A clone carries the same name and the same handle position.
    fn clone(&self) -> (r: Self)
        ensures
            r == *self,
    {
        Printer { name: self.name.clone(), handle: self.handle }
    }
}

} // verus!
