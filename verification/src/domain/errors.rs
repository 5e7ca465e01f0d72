use vstd::prelude::*;

verus! {

/// Failures raised by the domain rules themselves.
#[derive(Debug)]
pub enum Error {
    LogicError(String),
}

impl Error {
    /// The human-readable text carried by the error.
    pub fn message(&self) -> (r: String)
        ensures
            self matches Error::LogicError(m) ==> r@ == m@,
    {
        match self {
            Error::LogicError(m) => m.clone(),
        }
    }
}

pub type Result<T> = core::result::Result<T, Error>;

} // verus!
