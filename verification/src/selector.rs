//! Resolution of the target printer from a discovery snapshot and an
//! optional name hint.

use vstd::prelude::*;
use crate::error::PrintError;
use crate::printer::Printer;

verus! {

/// The resolved target: a position in the discovery snapshot, and whether it
/// was reached by falling back to the first entry after the hinted name was
/// not found.
pub struct Selection {
    pub index: usize,
    pub fallback: bool,
}

/// The snapshot's entry at `i` carries exactly the hinted name.
pub open spec fn hint_matches_at(printers: Seq<Printer>, hint: Seq<char>, i: int) -> bool {
    0 <= i < printers.len() && printers[i].name@ == hint
}

/// Some snapshot entry carries exactly the hinted name.
pub open spec fn hint_matches(printers: Seq<Printer>, hint: Seq<char>) -> bool {
    exists|i: int| hint_matches_at(printers, hint, i)
}

/// The selection policy over a non-empty snapshot: an exact, case-sensitive
/// hit on the hinted name wins, taking the earliest entry with that name;
/// a missed hint and an absent hint both yield the snapshot's first entry,
/// the miss alone counting as a fallback.
pub open spec fn selection_ok(printers: Seq<Printer>, hint: Option<String>, sel: Selection) -> bool {
    &&& printers.len() > 0
    &&& sel.index < printers.len()
    &&& match hint {
        None => sel.index == 0 && !sel.fallback,
        Some(h) => if hint_matches(printers, h@) {
            &&& !sel.fallback
            &&& printers[sel.index as int].name@ == h@
            &&& forall|j: int| 0 <= j < sel.index ==> printers[j].name@ != h@
        } else {
            sel.index == 0 && sel.fallback
        },
    }
}

/// Resolves exactly one target printer, or fails on an empty snapshot.
/// A present hint selects the earliest entry with exactly that name; an
/// unmatched or absent hint selects the first entry, the unmatched case
/// being marked as a fallback.
#[verifier::loop_isolation(false)]
pub fn select(printers: &Vec<Printer>, hint: &Option<String>) -> (r: Result<
    Selection,
    PrintError,
>)
    ensures
        r is Ok <==> printers@.len() > 0,
        r is Err ==> r->Err_0 is NoPrintersAvailable,
        r is Ok ==> selection_ok(printers@, *hint, r->Ok_0),
{
    if printers.len() == 0 {
        return Err(PrintError::NoPrintersAvailable);
    }
    match hint.as_ref() {
        None => Ok(Selection { index: 0, fallback: false }),
        Some(h) => {
            let n = printers.len();
            let mut i: usize = 0;
            while i < n
                invariant
                    i <= n,
                    n == printers@.len(),
                    forall|j: int| 0 <= j < i ==> printers@[j].name@ != h@,
                decreases n - i,
            {
                if printers[i].name == *h {
                    proof {
                        assert(hint_matches_at(printers@, h@, i as int));
                    }
                    return Ok(Selection { index: i, fallback: false });
                }
                i += 1;
            }
            proof {
                assert(forall|j: int| !hint_matches_at(printers@, h@, j));
            }
            Ok(Selection { index: 0, fallback: true })
        },
    }
}

} // verus!
