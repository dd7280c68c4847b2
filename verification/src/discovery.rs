//! The computing side of printer discovery.
//!
//! Discovery itself is a blocking call into the operating system; the caller
//! makes it only when [`crate::probe::may_enumerate`] allows, which is the
//! crash-avoidance guarantee, and hands the snapshot here. Absence of
//! printers is a normal state, never an error.

use vstd::prelude::*;
use crate::printer::Printer;

verus! {

/// The names of a discovery snapshot, in the snapshot's order — the list
/// handed back to the external caller.
pub fn printer_names(printers: &Vec<Printer>) -> (r: Vec<String>)
    ensures
        r@.len() == printers@.len(),
        forall|i: int| 0 <= i < r@.len() ==> #[trigger] r@[i]@ == printers@[i].name@,
{
    let mut names: Vec<String> = Vec::new();
    let mut i: usize = 0;
    while i < printers.len()
        invariant
            i <= printers@.len(),
            names@.len() == i,
            forall|j: int| 0 <= j < i ==> #[trigger] names@[j]@ == printers@[j].name@,
        decreases printers@.len() - i,
    {
        names.push(printers[i].name.clone());
        i += 1;
    }
    names
}

} // verus!
