//! Small helpers.

use vstd::prelude::*;

verus! {

/// The text itself when it holds at least one character, `None` when it is empty.
pub fn str_to_option(s: &str) -> (r: Option<&str>)
    ensures
        s@.len() == 0 ==> r.is_none(),
        s@.len() > 0 ==> r == Some(s),
{
    if s.is_empty() {
        None
    } else {
        Some(s)
    }
}

} // verus!
