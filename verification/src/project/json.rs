//! Where in a document a value sits, for error messages.
//!
//! The walk that rejects non-finite floats before serialization names the
//! path to the first one it finds: `$.puppets.7.skeleton.joints[2].rest`.

use vstd::prelude::*;
use crate::text::decimal;

verus! {

/// A position in the value tree being walked, as the path leading to it.
#[derive(Debug, Clone)]
pub struct Checker {
    pub path: String,
}

impl Checker {
    /// The root of the document: `$`.
    pub fn root() -> (c: Checker)
        ensures
            c.path@ == "$"@,
    {
        Checker { path: String::from_str("$") }
    }

    /// The member `name` of the value here.
    pub fn field(&self, name: &str) -> (c: Checker)
        ensures
            c.path@ == self.path@ + "."@ + name@,
    {
        let path = String::from_str(self.path.as_str()).concat(".").concat(name);
        Checker { path }
    }

    /// Element `i` of the sequence here.
    pub fn index(&self, i: usize) -> (c: Checker)
        ensures
            c.path@ == self.path@ + "["@ + decimal(i as nat) + "]"@,
    {
        let path = String::from_str(self.path.as_str()).concat("[").concat(
            crate::text::decimal_text(i as u64).as_str(),
        ).concat("]");
        Checker { path }
    }
}

} // verus!
