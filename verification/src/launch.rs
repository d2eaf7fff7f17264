//! Decisions taken when the application starts.

use vstd::prelude::*;
use crate::config::texts_view;
use crate::text::text_eq;

verus! {

/// Whether the command line asks to start hidden: one argument is exactly
/// `--minimized`, as the autostart entry passes it.
pub fn starts_minimized(args: &Vec<String>) -> (r: bool)
    ensures
        r == texts_view(args@).contains("--minimized"@),
{
    let ghost all = texts_view(args@);
    let mut i: usize = 0;
    while i < args.len()
        invariant
            i <= args.len(),
            all == texts_view(args@),
            forall|j: int| 0 <= j < i ==> all[j] != "--minimized"@,
        decreases args.len() - i,
    {
        if text_eq(args[i].as_str(), "--minimized") {
            assert(all[i as int] == "--minimized"@);
            return true;
        }
        i = i + 1;
    }
    false
}

} // verus!
