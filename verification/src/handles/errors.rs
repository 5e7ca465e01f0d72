use vstd::prelude::*;

use crate::database;
use crate::domain;
use crate::jwt;
use super::response::ApiResponse;

verus! {

/// Everything a handler can fail with, and the HTTP status each
/// failure answers as.
#[derive(Debug)]
pub enum Error {
    InternalServerError,
    BadRequest(String),
    NotFound,
    Unauthorized,
    Forbidden,
    RepositoryError(database::errors::Error),
    LogicError(domain::errors::Error),
    OtherError(String),
    JwtError(jwt::Error),
    FileUploadError(String),
    FileError(String),
    DatabaseError(String),
}

impl Error {
    /// The HTTP status the error answers as.
    pub open spec fn spec_status(&self) -> u16 {
        match self {
            Error::InternalServerError => 500,
            Error::BadRequest(_) => 400,
            Error::NotFound => 404,
            Error::Unauthorized => 401,
            Error::Forbidden => 403,
            Error::RepositoryError(_) => 500,
            Error::LogicError(_) => 500,
            Error::OtherError(_) => 400,
            Error::JwtError(_) => 500,
            Error::FileUploadError(_) => 400,
            Error::FileError(_) => 500,
            Error::DatabaseError(_) => 500,
        }
    }

    /// The HTTP status the error answers as.
    pub fn status_code(&self) -> (r: u16)
        ensures
            r == self.spec_status(),
    {
        match self {
            Error::InternalServerError => 500,
            Error::BadRequest(_) => 400,
            Error::NotFound => 404,
            Error::Unauthorized => 401,
            Error::Forbidden => 403,
            Error::RepositoryError(_) => 500,
            Error::LogicError(_) => 500,
            Error::OtherError(_) => 400,
            Error::JwtError(_) => 500,
            Error::FileUploadError(_) => 400,
            Error::FileError(_) => 500,
            Error::DatabaseError(_) => 500,
        }
    }

    /// The human-readable text carried by the error.
    pub fn message(&self) -> (r: String)
        ensures
            self matches Error::BadRequest(m) ==> r@ == m@,
            self matches Error::OtherError(m) ==> r@ == m@,
            self matches Error::FileUploadError(m) ==> r@ == m@,
            self matches Error::FileError(m) ==> r@ == m@,
            self matches Error::DatabaseError(m) ==> r@ == m@,
    {
        match self {
            Error::InternalServerError => "Internal Server Error".to_owned(),
            Error::BadRequest(m) => m.clone(),
            Error::NotFound => "要操作的数据不存在".to_owned(),
            Error::Unauthorized => "Unauthorized".to_owned(),
            Error::Forbidden => "Forbidden".to_owned(),
            Error::RepositoryError(e) => e.message(),
            Error::LogicError(e) => e.message(),
            Error::OtherError(m) => m.clone(),
            Error::JwtError(e) => e.message(),
            Error::FileUploadError(m) => m.clone(),
            Error::FileError(m) => m.clone(),
            Error::DatabaseError(m) => m.clone(),
        }
    }
}

impl From<String> for Error {
    /// Plain text folds into the catch-all variant.
    fn from(s: String) -> (r: Self) {
        Error::OtherError(s)
    }
}

impl vstd::std_specs::convert::FromSpecImpl<String> for Error {
    open spec fn obeys_from_spec() -> bool {
        true
    }

    open spec fn from_spec(s: String) -> Self {
        Error::OtherError(s)
    }
}

/// The 500 every unexpected failure collapses into.
pub fn internal_server_error() -> (r: Error)
    ensures
        r matches Error::InternalServerError,
{
    Error::InternalServerError
}

/// The 404 for a record that is not there.
pub fn data_not_found() -> (r: Error)
    ensures
        r matches Error::NotFound,
{
    Error::NotFound
}

pub type Result<T> = core::result::Result<ApiResponse<T>, Error>;

} // verus!
