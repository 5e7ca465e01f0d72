use vstd::prelude::*;

use crate::domain::base::{contains_id, BaseModel};
use crate::domain::common::{md5_hex_of, Secret};
use crate::domain::user::{User, UserView};
use super::errors::Error;
use super::store::{bumped, live_with_account, live_with_id, version_match, UserStore};

verus! {

/// The account name that short-circuits the lookup with a fixed
/// record, kept for tests against a store with no users loaded.
pub open spec fn spec_fake_account() -> Seq<char> {
    "qqwweeasf"@
}

/// Access to the persisted users, with the compare-and-swap update
/// protocol for versioned entities.
pub struct UserRepository {
    pub coll_name: String,
}

impl UserRepository {
    /// A repository over the collection the users live in.
    pub fn new() -> (r: Self)
        ensures
            r.coll_name@ == "users"@,
    {
        UserRepository { coll_name: "users".to_owned() }
    }

    /// The not-deleted user whose credential carries `account`. The
    /// fixed test account name answers with the built-in fake user
    /// without touching the store.
    pub fn find_by_account(&self, account: &str, store: &UserStore) -> (r: Result<
        Option<User>,
        Error,
    >)
        ensures
            r is Ok,
            account@ == spec_fake_account() ==> (r matches Ok(Some(u)) && u@.base.id == "fake"@
                && u@.base.created_at == 0 && u@.base.updated_at == 0 && u@.base.version == 0
                && u@.base.deleted_at == 0 && u@.secret.account == "fake"@ && u@.secret.password
                == md5_hex_of("fake"@) && u@.name == "fake"@ && u@.age == 18 && u@.avatar.len()
                == 0 && u@.is_active && u@.role_name == "admin"@),
            account@ != spec_fake_account() ==> {
                &&& (r matches Ok(Some(u)) ==> exists|i: int|
                    live_with_account(store@, i, account@) && u@ == store@[i])
                &&& (r matches Ok(None) <==> !exists|i: int| live_with_account(store@, i, account@))
            },
    {
        let account_owned: String = account.to_owned();
        let probe: String = "qqwweeasf".to_owned();
        if account_owned == probe {
            return Ok(
                Some(
                    User {
                        base: BaseModel::fake(),
                        secret: Secret::fake(),
                        name: "fake".to_owned(),
                        age: 18,
                        avatar: String::new(),
                        is_active: true,
                        role_name: "admin".to_owned(),
                    },
                ),
            );
        }
        Ok(store.find_one_by_account(account))
    }

    /// Inserts a fresh user document; a duplicate identifier is
    /// refused by the store's unique index.
    pub fn create(&self, entity: &User, store: &mut UserStore) -> (r: Result<(), Error>)
        ensures
            r is Ok <==> !(exists|i: int|
                0 <= i < old(store)@.len() && (#[trigger] old(store)@[i]).base.id
                    == entity@.base.id),
            r is Ok ==> final(store)@ == old(store)@.push(entity@),
            r is Err ==> final(store)@ == old(store)@ && r matches Err(Error::DatabaseError(_)),
            old(store).wf() ==> final(store).wf(),
    {
        store.insert_one(entity.duplicate())
    }

    /// The not-deleted user under `id`, if any.
    pub fn find_by_id(&self, id: &str, store: &UserStore) -> (r: Result<Option<User>, Error>)
        ensures
            r is Ok,
            r matches Ok(Some(u)) ==> exists|i: int| live_with_id(store@, i, id@) && u@ == store@[i],
            r matches Ok(None) <==> !exists|i: int| live_with_id(store@, i, id@),
    {
        Ok(store.find_one_by_id(id))
    }

    /// Every not-deleted user whose identifier stands in `ids`, in
    /// store order.
    pub fn find_by_ids(&self, ids: &Vec<String>, store: &UserStore) -> (r: Result<Vec<User>, Error>)
        ensures
            r matches Ok(v) && v@.map_values(|u: User| u@) == store@.filter(
                |d: UserView| d.base.deleted_at == 0 && contains_id(ids@, d.base.id),
            ),
    {
        Ok(store.find_in(ids))
    }

    /// Every not-deleted user, in store order.
    pub fn find_all(&self, store: &UserStore) -> (r: Result<Vec<User>, Error>)
        ensures
            r matches Ok(v) && v@.map_values(|u: User| u@) == store@.filter(
                |d: UserView| d.base.deleted_at == 0,
            ),
    {
        Ok(store.find_live())
    }

    /// The optimistic-concurrency-control update. The caller read
    /// `entity.base.version` as the version it believes current; the
    /// store commits `entity`'s fields at the next version only if a
    /// document still carries that identifier at that version. When
    /// the precondition matches nothing — a concurrent writer got
    /// there first, or the entity is gone — nothing changes and the
    /// caller gets the locking error: re-read and retry, or surface
    /// the conflict. No lock is held at any point.
    ///
    /// A session-scoped variant would run this same algorithm inside
    /// a multi-statement store transaction; the in-memory collection
    /// has no transaction context, so this single entry point stands
    /// for both until a store with sessions is wired in.
    pub fn update(&self, entity: &User, store: &mut UserStore) -> (r: Result<(), Error>)
        requires
            entity@.base.version < u64::MAX,
        ensures
            r is Ok <==> exists|i: int|
                version_match(old(store)@, i, entity@.base.id, entity@.base.version),
            r is Err ==> final(store)@ == old(store)@ && r matches Err(
                Error::OptimisticLockingError,
            ),
            r is Ok ==> exists|i: int|
                version_match(old(store)@, i, entity@.base.id, entity@.base.version)
                    && final(store)@ == old(store)@.update(i, bumped(entity@)),
            old(store).wf() ==> final(store).wf(),
    {
        let modified: u64 = store.update_one(entity);
        if modified == 0 {
            return Err(Error::OptimisticLockingError);
        }
        Ok(())
    }
}

} // verus!
