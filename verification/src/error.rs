//! The errors of the client.
use vstd::prelude::*;

verus! {

/// Why building or running a request failed.
#[derive(Debug)]
pub enum Error {
    /// curl, or the HTTP types, refused a value; the text describes it.
    Curl(String),
    /// The request itself cannot be sent as it is; the text describes it.
    Other(String),
}

impl Error {
    /// The text of the error, whichever kind it is.
    pub fn message(&self) -> (r: &String)
        ensures
            r == (match self {
                Error::Curl(m) => m,
                Error::Other(m) => m,
            }),
    {
        match self {
            Error::Curl(m) => m,
            Error::Other(m) => m,
        }
    }
}

} // verus!
