use vstd::prelude::*;

verus! {

/// Why a unit of work failed.
#[derive(Debug)]
pub enum Error {
    UnknownError(String),
}

/// What `Error::message` says of an error.
pub open spec fn error_text(e: Error) -> Seq<char> {
    match e {
        Error::UnknownError(detail) => "Unknown error occurred: "@ + detail@,
    }
}

impl Error {
    /// A human-readable description of the error.
    pub fn message(&self) -> (r: String)
        ensures
            r@ == error_text(*self),
    {
        match self {
            Error::UnknownError(detail) => {
                let text = String::from_str("Unknown error occurred: ");
                text.concat(detail.as_str())
            },
        }
    }
}

} // verus!
