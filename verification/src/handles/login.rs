use vstd::prelude::*;

use crate::domain::common::md5_hex_of;
use crate::domain::user::User;
use crate::jwt::TokenPayload;
use super::errors::Error;

verus! {

/// What a login attempt sends.
#[derive(Debug)]
pub struct AuthRequest {
    pub account: String,
    pub password: String,
}

/// What a successful login answers with.
#[derive(Debug)]
pub struct AuthResponse {
    pub token: String,
}

/// The profile fields handed back to a signed-in caller.
#[derive(Debug)]
pub struct UserInfo {
    pub user_id: String,
    pub name: String,
    pub avatar: String,
}

/// The login decision: the account's user record, if the lookup found
/// one, against the presented password. Only a found user whose
/// stored hash matches yields a token payload; everything else is the
/// one bad-credentials error, which keeps the two cases apart from a
/// caller's view.
pub fn authenticate(user: Option<User>, password: &str) -> (r: Result<TokenPayload, Error>)
    ensures
        r is Ok <==> (user matches Some(u) && md5_hex_of(password@) == u@.secret.password),
        r matches Ok(p) ==> (user matches Some(u) && p.id@ == u@.base.id && p.account@
            == u@.secret.account && p.role@ == u@.role_name),
        r matches Err(e) ==> (e matches Error::BadRequest(m) && m@ == "用户名或密码错误"@),
{
    match user {
        Some(u) => {
            if u.secret.is_match(password) {
                Ok(TokenPayload::new(u.base.id, u.secret.account, u.role_name))
            } else {
                Err(Error::BadRequest("用户名或密码错误".to_owned()))
            }
        },
        None => Err(Error::BadRequest("用户名或密码错误".to_owned())),
    }
}

} // verus!
