use vstd::prelude::*;

use super::errors::Error;

verus! {

pub type Period = (u64, u64);

/// An optional time window, both bounds in epoch seconds.
#[derive(Debug, Clone, Copy)]
pub struct DateRange {
    pub start: Option<u64>,
    pub end: Option<u64>,
}

impl DateRange {
    /// True when either bound is missing.
    pub fn is_empty(&self) -> (r: bool)
        ensures
            r == (self.start is None || self.end is None),
    {
        self.start.is_none() || self.end.is_none()
    }

    /// The window as a pair, a missing bound read as zero.
    pub fn to_period(&self) -> (r: Period)
        ensures
            r.0 == if self.start is Some { self.start->0 } else { 0u64 },
            r.1 == if self.end is Some { self.end->0 } else { 0u64 },
    {
        (
            match self.start {
                Some(s) => s,
                None => 0,
            },
            match self.end {
                Some(e) => e,
                None => 0,
            },
        )
    }
}

/// The hex digest that the secret store keeps in place of a password.
pub uninterp spec fn md5_hex_of(s: Seq<char>) -> Seq<char>;

/// Relies on md5::compute and its lower-hex formatting: the digest of
/// the input bytes alone, rendered as lower-case hex digits.
#[verifier::external_body]
fn md5_hex(s: &str) -> (r: String)
    ensures
        r@ == md5_hex_of(s@),
{
    format!("{:x}", md5::compute(s.as_bytes()))
}

/// A login credential: the account name, and the hashed password.
#[derive(Debug, Clone)]
pub struct Secret {
    pub account: String,
    pub password: String,
}

/// Mathematical image of a [`Secret`].
#[verifier::ext_equal]
pub struct SecretView {
    pub account: Seq<char>,
    pub password: Seq<char>,
}

impl View for Secret {
    type V = SecretView;

    open spec fn view(&self) -> SecretView {
        SecretView { account: self.account@, password: self.password@ }
    }
}

impl Default for Secret {
    /// A blank credential: empty account and empty stored hash.
    fn default() -> (r: Self)
        ensures
            r@.account.len() == 0,
            r@.password.len() == 0,
    {
        Secret { account: String::new(), password: String::new() }
    }
}

impl Secret {
    /// The fixed credential of the built-in test account.
    pub fn fake() -> (r: Self)
        ensures
            r@.account == "fake"@,
            r@.password == md5_hex_of("fake"@),
    {
        let password: String = md5_hex("fake");
        Secret { account: "fake".to_owned(), password }
    }

    /// A credential for `account`, hashing `password`. An empty
    /// password is refused.
    pub fn new(account: String, password: String) -> (r: Result<Self, Error>)
        ensures
            password@.len() == 0 <==> r is Err,
            r matches Err(e) ==> e matches Error::LogicError(_),
            r matches Ok(s) ==> s@.account == account@ && s@.password == md5_hex_of(password@),
    {
        if password.as_str().is_empty() {
            return Err(Error::LogicError("密码不能为空".to_owned()));
        }
        let password: String = md5_hex(password.as_str());
        Ok(Secret { account, password })
    }

    /// Replaces the stored hash with the hash of `password`.
    pub fn change_password(&mut self, password: String)
        ensures
            final(self)@.account == old(self)@.account,
            final(self)@.password == md5_hex_of(password@),
    {
        self.password = md5_hex(password.as_str());
    }

    /// True exactly when `password` hashes to the stored hash.
    pub fn is_match(&self, password: &str) -> (r: bool)
        ensures
            r == (md5_hex_of(password@) == self@.password),
    {
        let hashed: String = md5_hex(password);
        hashed == self.password
    }
}

} // verus!
