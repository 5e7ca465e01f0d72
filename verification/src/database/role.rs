use vstd::prelude::*;

use crate::actors::fetcher;
use crate::domain::role::{Role, RoleView};
use super::store::RoleStore;

verus! {

/// Access to the persisted roles: the role source of the reload
/// workflow.
pub struct RoleRepository {
    pub coll_name: String,
}

impl RoleRepository {
    /// A repository over the collection the roles live in.
    pub fn new() -> (r: Self)
        ensures
            r.coll_name@ == "roles"@,
    {
        RoleRepository { coll_name: "roles".to_owned() }
    }

    /// Every not-deleted role, in store order. The in-memory
    /// collection cannot fail the way a remote one can, so the
    /// source error never arises here.
    pub fn find_all(&self, store: &RoleStore) -> (r: Result<Vec<Role>, fetcher::Error>)
        ensures
            r matches Ok(v) && v@.map_values(|d: Role| d@) == store@.filter(
                |d: RoleView| d.base.deleted_at == 0,
            ),
    {
        Ok(store.find_live())
    }
}

} // verus!
