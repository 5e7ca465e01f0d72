use vstd::prelude::*;

use crate::actors::fetcher::RBACUser;
use super::base::{BaseModel, BaseModelView, Model};
use super::common::{Secret, SecretView};

verus! {

/// A user account: its credential, profile fields, and the single
/// role it inherits.
#[derive(Debug, Clone)]
pub struct User {
    pub base: BaseModel,
    pub secret: Secret,
    pub name: String,
    pub age: u8,
    pub avatar: String,
    pub is_active: bool,
    pub role_name: String,
}

/// Mathematical image of a [`User`].
#[verifier::ext_equal]
pub struct UserView {
    pub base: BaseModelView,
    pub secret: SecretView,
    pub name: Seq<char>,
    pub age: u8,
    pub avatar: Seq<char>,
    pub is_active: bool,
    pub role_name: Seq<char>,
}

impl View for User {
    type V = UserView;

    open spec fn view(&self) -> UserView {
        UserView {
            base: self.base@,
            secret: self.secret@,
            name: self.name@,
            age: self.age,
            avatar: self.avatar@,
            is_active: self.is_active,
            role_name: self.role_name@,
        }
    }
}

impl Default for User {
    /// A blank account: empty strings, age zero, inactive.
    fn default() -> (r: Self)
        ensures
            r@.base.id.len() == 0,
            r@.base.version == 0,
            r@.base.deleted_at == 0,
            r@.secret.account.len() == 0,
            r@.secret.password.len() == 0,
            r@.name.len() == 0,
            r@.age == 0,
            r@.avatar.len() == 0,
            !r@.is_active,
            r@.role_name.len() == 0,
    {
        User {
            base: Default::default(),
            secret: Default::default(),
            name: String::new(),
            age: 0,
            avatar: String::new(),
            is_active: false,
            role_name: String::new(),
        }
    }
}

impl User {
    /// A deep copy, equal to `self` field by field.
    pub fn duplicate(&self) -> (r: User)
        ensures
            r@ == self@,
    {
        let r = User {
            base: BaseModel {
                id: self.base.id.clone(),
                created_at: self.base.created_at,
                updated_at: self.base.updated_at,
                deleted_at: self.base.deleted_at,
                version: self.base.version,
            },
            secret: Secret {
                account: self.secret.account.clone(),
                password: self.secret.password.clone(),
            },
            name: self.name.clone(),
            age: self.age,
            avatar: self.avatar.clone(),
            is_active: self.is_active,
            role_name: self.role_name.clone(),
        };
        proof {
            assert(r@ =~= self@);
        }
        r
    }
}

impl Model for User {
    open spec fn spec_id(&self) -> Seq<char> {
        self.base.id@
    }

    fn id(&self) -> (r: String)
        ensures
            r@ == self.spec_id(),
    {
        self.base.id.clone()
    }
}

impl RBACUser for User {
    /// The display name doubles as the account the policy engine
    /// keys role assignments on.
    open spec fn spec_account(&self) -> Seq<char> {
        self.name@
    }

    open spec fn spec_role_name(&self) -> Seq<char> {
        self.role_name@
    }

    fn account(&self) -> (r: String)
        ensures
            r@ == self.spec_account(),
    {
        self.name.clone()
    }

    fn role_name(&self) -> (r: String)
        ensures
            r@ == self.spec_role_name(),
    {
        self.role_name.clone()
    }
}

} // verus!
