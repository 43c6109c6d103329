//! Small application-facing helpers: the greeting probe and the
//! application-information record.

use vstd::prelude::*;

verus! {

/// Application information returned to the user interface.
#[derive(Debug)]
pub struct AppInfo {
    pub name: String,
    pub version: String,
}

/// Builds the greeting that answers the connectivity probe.
pub fn greet(name: &str) -> (r: String)
    ensures
        r@ == "Hello, "@ + name@ + "! Welcome to AV Designer."@,
{
    let mut m = String::from_str("Hello, ");
    m.append(name);
    m.append("! Welcome to AV Designer.");
    m
}

} // verus!
