use vstd::prelude::*;

use crate::strings::{strip_prefix_all, trim_start_matches_str};

verus! {

/// The identifier of the signed-in user, as request middleware
/// attaches it.
#[derive(Debug, Clone, Default)]
pub struct UserID(pub String);

/// The account of the signed-in user, as request middleware attaches
/// it.
#[derive(Debug, Clone)]
pub struct Account(pub String);

/// What the authorization middleware needs of a user record.
pub trait User {
    fn id(&self) -> String;

    fn name(&self) -> String;

    fn account(&self) -> String;
}

/// The token as sent in the authorization header: the bearer marker
/// is stripped off.
pub fn bearer_token(header: &str) -> (r: String)
    ensures
        r@ == strip_prefix_all(header@, "Bearer "@),
{
    trim_start_matches_str(header, "Bearer ")
}

} // verus!
