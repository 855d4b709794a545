//! Wording used by the command-line front end.

use vstd::prelude::*;

verus! {

/// The plural suffix for a count: none for exactly one, "s" otherwise.
pub fn plural(n: usize) -> (suffix: &'static str)
    ensures
        suffix@ == (if n == 1 { ""@ } else { "s"@ }),
{
    if n == 1 {
        ""
    } else {
        "s"
    }
}

} // verus!
