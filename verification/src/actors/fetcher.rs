use vstd::prelude::*;

verus! {

/// A source row that grants a set of actions to a role: it flattens
/// into one `(role name, action)` policy fact per permission.
pub trait RBACRole {
    spec fn spec_policies(&self) -> Seq<(Seq<char>, Seq<char>)>;

    fn to_casbin_policy(&self) -> (r: Vec<Vec<String>>)
        ensures
            r@.len() == self.spec_policies().len(),
            forall|i: int|
                0 <= i < r@.len() ==> #[trigger] r@[i]@.len() == 2 && r@[i]@[0]@
                    == self.spec_policies()[i].0 && r@[i]@[1]@ == self.spec_policies()[i].1,
    ;
}

/// A source row that binds a user account to the role it inherits.
pub trait RBACUser {
    spec fn spec_account(&self) -> Seq<char>;

    spec fn spec_role_name(&self) -> Seq<char>;

    fn account(&self) -> (r: String)
        ensures
            r@ == self.spec_account(),
    ;

    fn role_name(&self) -> (r: String)
        ensures
            r@ == self.spec_role_name(),
    ;
}

/// Failure of a role or user source.
#[derive(Debug)]
pub enum Error {
    DatabaseError(String),
}

impl Error {
    /// The human-readable text carried by the error.
    pub fn message(&self) -> (r: String)
        ensures
            self matches Error::DatabaseError(m) ==> r@ == m@,
    {
        match self {
            Error::DatabaseError(m) => m.clone(),
        }
    }
}

} // verus!
