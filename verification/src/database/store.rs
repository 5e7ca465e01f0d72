use vstd::prelude::*;

use crate::domain::base::{contains_id, BaseModelView};
use crate::domain::role::{Role, RoleView};
use crate::domain::user::{User, UserView};
use super::errors::Error;

verus! {

/// No two documents share an identifier: the unique index on `id`
/// that the conditional update relies on to address one document.
pub open spec fn unique_ids(docs: Seq<UserView>) -> bool {
    forall|i: int, j: int|
        0 <= i < j < docs.len() ==> (#[trigger] docs[i]).base.id != (#[trigger] docs[j]).base.id
}

/// Document `i` carries `id` and is not soft-deleted.
pub open spec fn live_with_id(docs: Seq<UserView>, i: int, id: Seq<char>) -> bool {
    0 <= i < docs.len() && docs[i].base.id == id && docs[i].base.deleted_at == 0
}

/// Document `i` carries the credential account `account` and is not
/// soft-deleted.
pub open spec fn live_with_account(docs: Seq<UserView>, i: int, account: Seq<char>) -> bool {
    0 <= i < docs.len() && docs[i].secret.account == account && docs[i].base.deleted_at == 0
}

/// Document `i` carries `id` at exactly version `v`: the precondition
/// of the conditional update, soft-deleted or not.
pub open spec fn version_match(docs: Seq<UserView>, i: int, id: Seq<char>, v: u64) -> bool {
    0 <= i < docs.len() && docs[i].base.id == id && docs[i].base.version == v
}

/// The document as a committed update stores it: the new fields, with
/// the version advanced by one.
pub open spec fn bumped(u: UserView) -> UserView {
    UserView { base: BaseModelView { version: (u.base.version + 1) as u64, ..u.base }, ..u }
}

/// An in-memory collection of user documents, standing in for the
/// document-store collection: it offers exactly the interface the
/// protocol consumes — insert, point reads, scans, and the atomic
/// single-document conditional update.
pub struct UserStore {
    docs: Vec<User>,
}

impl View for UserStore {
    type V = Seq<UserView>;

    closed spec fn view(&self) -> Seq<UserView> {
        self.docs@.map_values(|u: User| u@)
    }
}

impl UserStore {
    /// The unique-identifier index holds.
    pub open spec fn wf(self) -> bool {
        unique_ids(self@)
    }

    /// An empty collection.
    pub fn new() -> (r: Self)
        ensures
            r@.len() == 0,
            r.wf(),
    {
        let r = UserStore { docs: Vec::new() };
        proof {
            assert(r@ =~= Seq::<UserView>::empty());
        }
        r
    }

    /// Inserts a document. A duplicate identifier is refused, as the
    /// unique index would refuse it, and nothing changes.
    pub fn insert_one(&mut self, doc: User) -> (r: Result<(), Error>)
        ensures
            r is Ok <==> !(exists|i: int|
                0 <= i < old(self)@.len() && (#[trigger] old(self)@[i]).base.id == doc@.base.id),
            r is Ok ==> final(self)@ == old(self)@.push(doc@),
            r is Err ==> final(self)@ == old(self)@ && r matches Err(Error::DatabaseError(_)),
            old(self).wf() ==> final(self).wf(),
    {
        let mut i: usize = 0;
        while i < self.docs.len()
            invariant
                0 <= i <= self.docs@.len(),
                forall|k: int| 0 <= k < i ==> (#[trigger] self@[k]).base.id != doc@.base.id,
            decreases self.docs@.len() - i,
        {
            if self.docs[i].base.id == doc.base.id {
                proof {
                    assert(self@[i as int].base.id == doc@.base.id);
                }
                return Err(Error::DatabaseError("duplicate document id".to_owned()));
            }
            i = i + 1;
        }
        let ghost before = self@;
        self.docs.push(doc);
        proof {
            assert(self@ =~= before.push(self@.last()));
        }
        Ok(())
    }

    /// The not-deleted document under `id`, if any.
    pub fn find_one_by_id(&self, id: &str) -> (r: Option<User>)
        ensures
            r is Some <==> exists|i: int| live_with_id(self@, i, id@),
            r matches Some(u) ==> exists|i: int|
                live_with_id(self@, i, id@) && u@ == self@[i] && (forall|k: int|
                    0 <= k < i ==> !live_with_id(self@, k, id@)),
    {
        let id_owned: String = id.to_owned();
        let mut i: usize = 0;
        while i < self.docs.len()
            invariant
                0 <= i <= self.docs@.len(),
                id_owned@ == id@,
                forall|k: int| 0 <= k < i ==> !live_with_id(self@, k, id@),
            decreases self.docs@.len() - i,
        {
            if self.docs[i].base.id == id_owned && self.docs[i].base.deleted_at == 0 {
                proof {
                    assert(live_with_id(self@, i as int, id@));
                }
                return Some(self.docs[i].duplicate());
            }
            i = i + 1;
        }
        None
    }

    /// The not-deleted document whose credential carries `account`,
    /// if any.
    pub fn find_one_by_account(&self, account: &str) -> (r: Option<User>)
        ensures
            r is Some <==> exists|i: int| live_with_account(self@, i, account@),
            r matches Some(u) ==> exists|i: int|
                live_with_account(self@, i, account@) && u@ == self@[i] && (forall|k: int|
                    0 <= k < i ==> !live_with_account(self@, k, account@)),
    {
        let account_owned: String = account.to_owned();
        let mut i: usize = 0;
        while i < self.docs.len()
            invariant
                0 <= i <= self.docs@.len(),
                account_owned@ == account@,
                forall|k: int| 0 <= k < i ==> !live_with_account(self@, k, account@),
            decreases self.docs@.len() - i,
        {
            if self.docs[i].secret.account == account_owned && self.docs[i].base.deleted_at == 0 {
                proof {
                    assert(live_with_account(self@, i as int, account@));
                }
                return Some(self.docs[i].duplicate());
            }
            i = i + 1;
        }
        None
    }

    /// Every not-deleted document, in store order.
    pub fn find_live(&self) -> (r: Vec<User>)
        ensures
            r@.map_values(|u: User| u@) == self@.filter(|d: UserView| d.base.deleted_at == 0),
    {
        let mut r: Vec<User> = Vec::new();
        let mut i: usize = 0;
        proof {
            reveal(Seq::filter);
            assert(self@.take(0) =~= Seq::<UserView>::empty());
            assert(r@.map_values(|u: User| u@) =~= self@.take(0).filter(
                |d: UserView| d.base.deleted_at == 0,
            ));
        }
        while i < self.docs.len()
            invariant
                0 <= i <= self.docs@.len(),
                r@.map_values(|u: User| u@) == self@.take(i as int).filter(
                    |d: UserView| d.base.deleted_at == 0,
                ),
            decreases self.docs@.len() - i,
        {
            let ghost prefix = self@.take(i as int);
            let ghost prefix_next = self@.take(i + 1);
            proof {
                reveal(Seq::filter);
                assert(prefix_next.drop_last() =~= prefix);
                assert(prefix_next.last() == self@[i as int]);
                assert(self@[i as int] == self.docs@[i as int]@);
            }
            if self.docs[i].base.deleted_at == 0 {
                r.push(self.docs[i].duplicate());
                proof {
                    reveal(Seq::filter);
                    assert(r@.map_values(|u: User| u@) =~= prefix_next.filter(
                        |d: UserView| d.base.deleted_at == 0,
                    ));
                }
            } else {
                proof {
                    reveal(Seq::filter);
                    assert(r@.map_values(|u: User| u@) =~= prefix_next.filter(
                        |d: UserView| d.base.deleted_at == 0,
                    ));
                }
            }
            i = i + 1;
        }
        proof {
            assert(self@.take(self.docs@.len() as int) =~= self@);
        }
        r
    }

    /// Every not-deleted document whose identifier stands in `ids`,
    /// in store order.
    pub fn find_in(&self, ids: &Vec<String>) -> (r: Vec<User>)
        ensures
            r@.map_values(|u: User| u@) == self@.filter(
                |d: UserView| d.base.deleted_at == 0 && contains_id(ids@, d.base.id),
            ),
    {
        let mut r: Vec<User> = Vec::new();
        let mut i: usize = 0;
        proof {
            reveal(Seq::filter);
            assert(self@.take(0) =~= Seq::<UserView>::empty());
            assert(r@.map_values(|u: User| u@) =~= self@.take(0).filter(
                |d: UserView| d.base.deleted_at == 0 && contains_id(ids@, d.base.id),
            ));
        }
        while i < self.docs.len()
            invariant
                0 <= i <= self.docs@.len(),
                r@.map_values(|u: User| u@) == self@.take(i as int).filter(
                    |d: UserView| d.base.deleted_at == 0 && contains_id(ids@, d.base.id),
                ),
            decreases self.docs@.len() - i,
        {
            let ghost prefix = self@.take(i as int);
            let ghost prefix_next = self@.take(i + 1);
            proof {
                reveal(Seq::filter);
                assert(prefix_next.drop_last() =~= prefix);
                assert(prefix_next.last() == self@[i as int]);
                assert(self@[i as int] == self.docs@[i as int]@);
            }
            if self.docs[i].base.deleted_at == 0 && crate::domain::base::ids_contain(
                ids,
                &self.docs[i].base.id,
            ) {
                r.push(self.docs[i].duplicate());
                proof {
                    reveal(Seq::filter);
                    assert(r@.map_values(|u: User| u@) =~= prefix_next.filter(
                        |d: UserView| d.base.deleted_at == 0 && contains_id(ids@, d.base.id),
                    ));
                }
            } else {
                proof {
                    reveal(Seq::filter);
                    assert(r@.map_values(|u: User| u@) =~= prefix_next.filter(
                        |d: UserView| d.base.deleted_at == 0 && contains_id(ids@, d.base.id),
                    ));
                }
            }
            i = i + 1;
        }
        proof {
            assert(self@.take(self.docs@.len() as int) =~= self@);
        }
        r
    }

    /// The atomic conditional update: replaces the one document that
    /// still carries `entity`'s identifier at `entity`'s version with
    /// `entity`'s fields at the next version, and reports how many
    /// documents changed — one on success, zero when the precondition
    /// found no document.
    pub fn update_one(&mut self, entity: &User) -> (r: u64)
        requires
            entity@.base.version < u64::MAX,
        ensures
            r == 0 || r == 1,
            r == 1 <==> exists|i: int|
                version_match(old(self)@, i, entity@.base.id, entity@.base.version),
            r == 0 ==> final(self)@ == old(self)@,
            r == 1 ==> exists|i: int|
                version_match(old(self)@, i, entity@.base.id, entity@.base.version)
                    && final(self)@ == old(self)@.update(i, bumped(entity@)),
            old(self).wf() ==> final(self).wf(),
    {
        let mut i: usize = 0;
        while i < self.docs.len()
            invariant
                0 <= i <= self.docs@.len(),
                *self == *old(self),
                entity@.base.version < u64::MAX,
                forall|k: int|
                    0 <= k < i ==> !version_match(self@, k, entity@.base.id, entity@.base.version),
            decreases self.docs@.len() - i,
        {
            if self.docs[i].base.id == entity.base.id && self.docs[i].base.version
                == entity.base.version {
                let ghost before = self@;
                proof {
                    assert(version_match(before, i as int, entity@.base.id, entity@.base.version));
                }
                let mut updated: User = entity.duplicate();
                updated.base.version = entity.base.version + 1;
                proof {
                    assert(updated@ =~= bumped(entity@));
                }
                self.docs.set(i, updated);
                proof {
                    assert(self@ =~= before.update(i as int, bumped(entity@)));
                    if unique_ids(before) {
                        assert forall|a: int, b: int| 0 <= a < b < self@.len() implies (
                        #[trigger] self@[a]).base.id != (#[trigger] self@[b]).base.id by {
                            assert(before[a].base.id != before[b].base.id);
                            assert(self@[a].base.id == before[a].base.id);
                            assert(self@[b].base.id == before[b].base.id);
                        }
                    }
                }
                return 1;
            }
            i = i + 1;
        }
        proof {
            if exists|k: int| version_match(self@, k, entity@.base.id, entity@.base.version) {
                let k = choose|k: int|
                    version_match(self@, k, entity@.base.id, entity@.base.version);
                assert(false);
            }
        }
        0
    }
}

/// An in-memory collection of role documents, the role source the
/// reload workflow reads.
pub struct RoleStore {
    docs: Vec<Role>,
}

impl View for RoleStore {
    type V = Seq<RoleView>;

    closed spec fn view(&self) -> Seq<RoleView> {
        self.docs@.map_values(|r: Role| r@)
    }
}

impl RoleStore {
    /// An empty collection.
    pub fn new() -> (r: Self)
        ensures
            r@.len() == 0,
    {
        let r = RoleStore { docs: Vec::new() };
        proof {
            assert(r@ =~= Seq::<RoleView>::empty());
        }
        r
    }

    /// Inserts a role document.
    pub fn insert_one(&mut self, doc: Role)
        ensures
            final(self)@ == old(self)@.push(doc@),
    {
        let ghost before = self@;
        self.docs.push(doc);
        proof {
            assert(self@ =~= before.push(self@.last()));
        }
    }

    /// Every not-deleted role, in store order.
    pub fn find_live(&self) -> (r: Vec<Role>)
        ensures
            r@.map_values(|d: Role| d@) == self@.filter(|d: RoleView| d.base.deleted_at == 0),
    {
        let mut r: Vec<Role> = Vec::new();
        let mut i: usize = 0;
        proof {
            reveal(Seq::filter);
            assert(self@.take(0) =~= Seq::<RoleView>::empty());
            assert(r@.map_values(|d: Role| d@) =~= self@.take(0).filter(
                |d: RoleView| d.base.deleted_at == 0,
            ));
        }
        while i < self.docs.len()
            invariant
                0 <= i <= self.docs@.len(),
                r@.map_values(|d: Role| d@) == self@.take(i as int).filter(
                    |d: RoleView| d.base.deleted_at == 0,
                ),
            decreases self.docs@.len() - i,
        {
            let ghost prefix = self@.take(i as int);
            let ghost prefix_next = self@.take(i + 1);
            proof {
                reveal(Seq::filter);
                assert(prefix_next.drop_last() =~= prefix);
                assert(prefix_next.last() == self@[i as int]);
                assert(self@[i as int] == self.docs@[i as int]@);
            }
            if self.docs[i].base.deleted_at == 0 {
                r.push(self.docs[i].duplicate());
                proof {
                    reveal(Seq::filter);
                    assert(r@.map_values(|d: Role| d@) =~= prefix_next.filter(
                        |d: RoleView| d.base.deleted_at == 0,
                    ));
                }
            } else {
                proof {
                    reveal(Seq::filter);
                    assert(r@.map_values(|d: Role| d@) =~= prefix_next.filter(
                        |d: RoleView| d.base.deleted_at == 0,
                    ));
                }
            }
            i = i + 1;
        }
        proof {
            assert(self@.take(self.docs@.len() as int) =~= self@);
        }
        r
    }
}

/// Two writers race on one entity at one version: once the first
/// conditional update lands, the second — prepared against the same
/// version — matches nothing, and the surviving document carries the
/// next version. The loser's re-read finds exactly that document.
pub proof fn lemma_occ_single_winner(
    s0: Seq<UserView>,
    s1: Seq<UserView>,
    e1: UserView,
    e2: UserView,
    i: int,
)
    requires
        unique_ids(s0),
        e2.base.id == e1.base.id,
        e2.base.version == e1.base.version,
        e1.base.version < u64::MAX,
        version_match(s0, i, e1.base.id, e1.base.version),
        s1 == s0.update(i, bumped(e1)),
    ensures
        !(exists|j: int| version_match(s1, j, e2.base.id, e2.base.version)),
        version_match(s1, i, e1.base.id, (e1.base.version + 1) as u64),
        e1.base.deleted_at == 0 ==> live_with_id(s1, i, e2.base.id),
        unique_ids(s1),
        s1.len() == s0.len(),
        s1[i] == bumped(e1),
        forall|j: int| 0 <= j < s1.len() && j != i ==> s1[j] == s0[j],
{
    assert forall|j: int| !version_match(s1, j, e2.base.id, e2.base.version) by {
        if 0 <= j < s1.len() && s1[j].base.id == e2.base.id {
            if j != i {
                assert(s1[j] == s0[j]);
                assert(s0[j].base.id == s0[i].base.id);
                if j < i {
                    assert(s0[j].base.id != s0[i].base.id);
                } else {
                    assert(s0[i].base.id != s0[j].base.id);
                }
            } else {
                assert(s1[i].base.version == e1.base.version + 1);
            }
        }
    }
    assert forall|a: int, b: int| 0 <= a < b < s1.len() implies (#[trigger] s1[a]).base.id != (
    #[trigger] s1[b]).base.id by {
        assert(s0[a].base.id != s0[b].base.id);
        assert(s1[a].base.id == s0[a].base.id);
        assert(s1[b].base.id == s0[b].base.id);
    }
}

/// The loser's re-read by account also observes the winner: when the
/// raced document was the only live one under its credential account
/// and the winner's write keeps it live, the account lookup pins
/// exactly that document, at the next version and with the winner's
/// fields.
pub proof fn lemma_occ_reread_by_account(s0: Seq<UserView>, s1: Seq<UserView>, e1: UserView, i: int)
    requires
        unique_ids(s0),
        e1.base.version < u64::MAX,
        version_match(s0, i, e1.base.id, e1.base.version),
        s1 == s0.update(i, bumped(e1)),
        e1.base.deleted_at == 0,
        forall|j: int| 0 <= j < s0.len() && j != i ==> !live_with_account(s0, j, e1.secret.account),
    ensures
        live_with_account(s1, i, e1.secret.account),
        forall|j: int|
            live_with_account(s1, j, e1.secret.account) ==> j == i && s1[j] == bumped(e1) && s1[
                j].base.version == e1.base.version + 1,
{
    assert(s1[i] == bumped(e1));
    assert forall|j: int| live_with_account(s1, j, e1.secret.account) implies j == i && s1[j]
        == bumped(e1) && s1[j].base.version == e1.base.version + 1 by {
        if j != i {
            assert(0 <= j < s1.len());
            assert(s1[j] == s0[j]);
            assert(!live_with_account(s0, j, e1.secret.account));
            assert(false);
        } else {
            assert(s1[j] == bumped(e1));
        }
    }
}

} // verus!
