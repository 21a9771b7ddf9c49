use vstd::prelude::*;

verus! {

/// The one error of the library: two consecutive draws were equal.
#[derive(Debug, Clone, Copy, PartialEq, Eq, Structural)]
pub enum Error {
    ConsecutiveRandom,
}

impl Error {
    /// The human-readable description of the error.
    pub fn message(&self) -> (r: String)
        ensures
            r@ == error_message(*self),
    {
        match self {
            Error::ConsecutiveRandom => String::from_str("two consecutive random values found"),
        }
    }
}

/// What `Error::message` says of each error.
pub open spec fn error_message(e: Error) -> Seq<char> {
    match e {
        Error::ConsecutiveRandom => "two consecutive random values found"@,
    }
}

} // verus!
