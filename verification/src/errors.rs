use vstd::prelude::*;
use vstd::string::StringExecFns;

verus! {

/// The one checked failure of the extraction engine: a root bundle whose
/// canonical identifier is absent cannot produce a usable entry schema.
#[derive(Clone, Copy, Debug, PartialEq, Eq, Structural)]
pub enum EntryError {
    MissingSaid,
}

impl EntryError {
    /// Human-readable description of the error.
    pub fn message(&self) -> (r: String)
        ensures
            r@ == "Bundle SAID is missing"@,
    {
        String::from_str("Bundle SAID is missing")
    }
}

} // verus!
