use vstd::prelude::*;

verus! {

/// Failure of the persistence layer.
#[derive(Debug)]
pub enum Error {
    /// The store itself failed, carried as text.
    DatabaseError(String),
    /// A document could not be encoded.
    BsonError(String),
    /// A value could not be read out of a document.
    AccessValueError(String),
    /// A conditional update matched nothing: the version precondition
    /// failed under a concurrent writer.
    OptimisticLockingError,
}

impl Error {
    /// The human-readable text carried by the error.
    pub fn message(&self) -> (r: String)
        ensures
            self matches Error::DatabaseError(m) ==> r@ == m@,
            self matches Error::BsonError(m) ==> r@ == m@,
            self matches Error::AccessValueError(m) ==> r@ == m@,
    {
        match self {
            Error::DatabaseError(m) => m.clone(),
            Error::BsonError(m) => m.clone(),
            Error::AccessValueError(m) => m.clone(),
            Error::OptimisticLockingError => "optimistic locking error".to_owned(),
        }
    }
}

pub type Result<T> = core::result::Result<T, Error>;

} // verus!
