use vstd::prelude::*;

verus! {

/// A failure while assembling the ambient state for a prompt.
#[derive(Clone, Copy, Debug, PartialEq, Eq, Structural)]
pub enum Error {
    /// The current working directory could not be determined.
    GettingPwdFailed,
}

impl Error {
    /// A human-readable description of the failure.
    pub fn message(&self) -> (r: &'static str)
        ensures
            r@ == "Failed to get current working directory"@,
    {
        "Failed to get current working directory"
    }
}

} // verus!
