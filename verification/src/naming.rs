//! Building a full name by appending the family name to a given name.

use vstd::prelude::*;
use vstd::string::StringExecFns;

verus! {

/// Appends the family name " Kocak" to the given name and returns the
/// full name.
pub fn add_suffix(name: String) -> (full: String)
    ensures
        full@ == name@ + " Kocak"@,
{
    let mut full = name;
    full.append(" Kocak");
    full
}

} // verus!
