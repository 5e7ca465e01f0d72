use vstd::prelude::*;

verus! {

/// Anything stored in the document store under an identifier.
pub trait Model {
    spec fn spec_id(&self) -> Seq<char>;

    fn id(&self) -> (r: String)
        ensures
            r@ == self.spec_id(),
    ;
}

/// The base fields embedded, flattened, in every persisted entity.
///
/// `version` rises by exactly one on every successful update;
/// `deleted_at == 0` means the entity is not soft-deleted.
#[derive(Debug, Clone)]
pub struct BaseModel {
    pub id: String,
    pub created_at: u64,
    pub updated_at: u64,
    pub deleted_at: u64,
    pub version: u64,
}

/// Mathematical image of a [`BaseModel`].
#[verifier::ext_equal]
pub struct BaseModelView {
    pub id: Seq<char>,
    pub created_at: u64,
    pub updated_at: u64,
    pub deleted_at: u64,
    pub version: u64,
}

impl View for BaseModel {
    type V = BaseModelView;

    open spec fn view(&self) -> BaseModelView {
        BaseModelView {
            id: self.id@,
            created_at: self.created_at,
            updated_at: self.updated_at,
            deleted_at: self.deleted_at,
            version: self.version,
        }
    }
}

impl Default for BaseModel {
    /// An empty record: blank identifier, zeroed clocks and version.
    fn default() -> (r: Self)
        ensures
            r@.id.len() == 0,
            r@.created_at == 0,
            r@.updated_at == 0,
            r@.deleted_at == 0,
            r@.version == 0,
    {
        BaseModel { id: String::new(), created_at: 0, updated_at: 0, deleted_at: 0, version: 0 }
    }
}

impl BaseModel {
    /// A fresh record under `id`: version zero, not deleted, both
    /// clock fields stamped with the same reading.
    pub fn new(id: String) -> (r: Self)
        ensures
            r@.id == id@,
            r@.version == 0,
            r@.deleted_at == 0,
            r@.created_at == r@.updated_at,
    {
        let t: i64 = crate::clock::now_timestamp_millis();
        let secs: u64 = if t <= 0 {
            0
        } else {
            (t / 1000) as u64
        };
        BaseModel { id, created_at: secs, updated_at: secs, deleted_at: 0, version: 0 }
    }

    /// Soft-delete: stamps `deleted_at` with a non-zero mark, leaving
    /// every other field alone.
    pub fn delete(&mut self)
        ensures
            final(self)@.id == old(self)@.id,
            final(self)@.created_at == old(self)@.created_at,
            final(self)@.updated_at == old(self)@.updated_at,
            final(self)@.version == old(self)@.version,
            final(self)@.deleted_at > 0,
    {
        let t: i64 = crate::clock::now_timestamp_millis();
        let secs: u64 = if t <= 0 {
            1
        } else {
            (t / 1000) as u64
        };
        self.deleted_at = if secs == 0 {
            1
        } else {
            secs
        };
    }

    /// The fixed record used for the built-in test account.
    pub fn fake() -> (r: Self)
        ensures
            r@.id == "fake"@,
            r@.created_at == 0,
            r@.updated_at == 0,
            r@.deleted_at == 0,
            r@.version == 0,
    {
        BaseModel {
            id: "fake".to_owned(),
            created_at: 0,
            updated_at: 0,
            deleted_at: 0,
            version: 0,
        }
    }
}

/// True when some model in `models` carries the identifier `id`.
pub open spec fn has_model_id<T: Model>(models: Seq<T>, id: Seq<char>) -> bool {
    exists|i: int| 0 <= i < models.len() && models[i].spec_id() == id
}

/// True when some string in `ids` reads as `id`.
pub open spec fn contains_id(ids: Seq<String>, id: Seq<char>) -> bool {
    exists|i: int| 0 <= i < ids.len() && ids[i]@ == id
}

fn models_contain<T: Model>(models: &Vec<T>, id: &String) -> (r: bool)
    ensures
        r == has_model_id(models@, id@),
{
    let mut k: usize = 0;
    while k < models.len()
        invariant
            0 <= k <= models@.len(),
            forall|i: int| 0 <= i < k ==> models@[i].spec_id() != id@,
        decreases models@.len() - k,
    {
        let mid: String = models[k].id();
        if mid == *id {
            return true;
        }
        k = k + 1;
    }
    false
}

/// True exactly when some string in `ids` reads as `id`.
pub fn ids_contain(ids: &Vec<String>, id: &String) -> (r: bool)
    ensures
        r == contains_id(ids@, id@),
{
    let mut k: usize = 0;
    while k < ids.len()
        invariant
            0 <= k <= ids@.len(),
            forall|i: int| 0 <= i < k ==> ids@[i]@ != id@,
        decreases ids@.len() - k,
    {
        if ids[k] == *id {
            return true;
        }
        k = k + 1;
    }
    false
}

/// The identifiers in `target_ids` that name no model in `models`,
/// each reported once, in order of first occurrence.
pub fn difference_ids<T: Model>(target_ids: &Vec<String>, models: &Vec<T>) -> (r: Vec<String>)
    ensures
        forall|j: int|
            0 <= j < r@.len() ==> contains_id(target_ids@, #[trigger] r@[j]@) && !has_model_id(
                models@,
                r@[j]@,
            ),
        forall|i: int|
            0 <= i < target_ids@.len() && !has_model_id(models@, #[trigger] target_ids@[i]@)
                ==> contains_id(r@, target_ids@[i]@),
        forall|j1: int, j2: int| 0 <= j1 < j2 < r@.len() ==> r@[j1]@ != r@[j2]@,
{
    let mut r: Vec<String> = Vec::new();
    let mut i: usize = 0;
    while i < target_ids.len()
        invariant
            0 <= i <= target_ids@.len(),
            forall|j: int|
                0 <= j < r@.len() ==> contains_id(target_ids@, #[trigger] r@[j]@) && !has_model_id(
                    models@,
                    r@[j]@,
                ),
            forall|k: int|
                0 <= k < i && !has_model_id(models@, #[trigger] target_ids@[k]@) ==> contains_id(
                    r@,
                    target_ids@[k]@,
                ),
            forall|j1: int, j2: int| 0 <= j1 < j2 < r@.len() ==> r@[j1]@ != r@[j2]@,
        decreases target_ids@.len() - i,
    {
        let ghost r_at_entry = r@;
        let id: &String = &target_ids[i];
        let in_models: bool = models_contain(models, id);
        let already: bool = ids_contain(&r, id);
        if !in_models && !already {
            r.push(id.clone());
            proof {
                assert(r@[r_at_entry.len() as int]@ == target_ids@[i as int]@);
            }
        }
        proof {
            assert forall|x: Seq<char>| contains_id(r_at_entry, x) implies contains_id(r@, x) by {
                let j = choose|j: int| 0 <= j < r_at_entry.len() && r_at_entry[j]@ == x;
                assert(r@[j]@ == x);
            }
            assert forall|k: int|
                0 <= k <= i && !has_model_id(models@, #[trigger] target_ids@[k]@) implies contains_id(
                r@,
                target_ids@[k]@,
            ) by {
                if k < i {
                    assert(contains_id(r_at_entry, target_ids@[k]@));
                } else if already {
                    assert(contains_id(r_at_entry, target_ids@[i as int]@));
                } else {
                    assert(r@[r_at_entry.len() as int]@ == target_ids@[i as int]@);
                }
            }
        }
        i = i + 1;
    }
    r
}

} // verus!
