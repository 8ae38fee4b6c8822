use vstd::prelude::*;

verus! {

/// The failure of the help command.
#[derive(Debug, Clone, Copy, PartialEq, Eq)]
pub enum Error {
    Unknown,
}

impl Error {
    /// The text shown to the user for this error.
    pub fn message(&self) -> (r: String)
        ensures
            r@ == "Unknown Error"@,
    {
        match self {
            Error::Unknown => String::from_str("Unknown Error"),
        }
    }
}

} // verus!
