use vstd::prelude::*;

verus! {

/// Failure of the token service.
#[derive(Debug)]
pub enum Error {
    /// The signing backend refused the token.
    Jwt(String),
    /// The signing key could not be built.
    Hmac(String),
    /// A verified token carried no subject.
    TokenCreationFailed,
}

impl Error {
    /// The human-readable text carried by the error.
    pub fn message(&self) -> (r: String)
        ensures
            self matches Error::Jwt(m) ==> r@ == m@,
            self matches Error::Hmac(m) ==> r@ == m@,
    {
        match self {
            Error::Jwt(m) => m.clone(),
            Error::Hmac(m) => m.clone(),
            Error::TokenCreationFailed => "token creation failed".to_owned(),
        }
    }
}

/// What a signed token carries about its holder.
#[derive(Debug, Clone)]
pub struct TokenPayload {
    pub id: String,
    pub account: String,
    pub role: String,
}

impl TokenPayload {
    /// A payload from its three fields.
    pub fn new(id: String, account: String, role: String) -> (r: Self)
        ensures
            r.id@ == id@,
            r.account@ == account@,
            r.role@ == role@,
    {
        TokenPayload { id, account, role }
    }

    /// A payload from the optional claims a verified token yielded:
    /// a missing claim reads as the empty string.
    pub fn from_fields(id: Option<String>, account: Option<String>, role: Option<String>) -> (r:
        Self)
        ensures
            id matches Some(s) ==> r.id@ == s@,
            id is None ==> r.id@.len() == 0,
            account matches Some(s) ==> r.account@ == s@,
            account is None ==> r.account@.len() == 0,
            role matches Some(s) ==> r.role@ == s@,
            role is None ==> r.role@.len() == 0,
    {
        let id: String = match id {
            Some(s) => s,
            None => String::new(),
        };
        let account: String = match account {
            Some(s) => s,
            None => String::new(),
        };
        let role: String = match role {
            Some(s) => s,
            None => String::new(),
        };
        TokenPayload { id, account, role }
    }
}

} // verus!
