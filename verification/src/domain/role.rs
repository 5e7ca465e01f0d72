use vstd::prelude::*;

use crate::actors::fetcher::RBACRole;
use super::base::{BaseModel, BaseModelView, Model};

verus! {

/// One permission entry of a role: a route, with the module it
/// belongs to and a description.
#[derive(Debug, Clone)]
pub struct RouteItem {
    pub module: String,
    pub path: String,
    pub description: String,
}

/// Mathematical image of a [`RouteItem`].
#[verifier::ext_equal]
pub struct RouteItemView {
    pub module: Seq<char>,
    pub path: Seq<char>,
    pub description: Seq<char>,
}

impl View for RouteItem {
    type V = RouteItemView;

    open spec fn view(&self) -> RouteItemView {
        RouteItemView {
            module: self.module@,
            path: self.path@,
            description: self.description@,
        }
    }
}

/// A role: a named, versioned list of permissions.
#[derive(Debug, Clone)]
pub struct Role {
    pub base: BaseModel,
    pub name: String,
    pub permissions: Vec<RouteItem>,
}

/// Mathematical image of a [`Role`].
#[verifier::ext_equal]
pub struct RoleView {
    pub base: BaseModelView,
    pub name: Seq<char>,
    pub permissions: Seq<RouteItemView>,
}

impl View for Role {
    type V = RoleView;

    open spec fn view(&self) -> RoleView {
        RoleView {
            base: self.base@,
            name: self.name@,
            permissions: self.permissions@.map_values(|p: RouteItem| p@),
        }
    }
}

impl RouteItem {
    /// A deep copy, equal to `self` field by field.
    pub fn duplicate(&self) -> (r: RouteItem)
        ensures
            r@ == self@,
    {
        let r = RouteItem {
            module: self.module.clone(),
            path: self.path.clone(),
            description: self.description.clone(),
        };
        proof {
            assert(r@ =~= self@);
        }
        r
    }
}

impl Role {
    /// A deep copy, equal to `self` field by field.
    pub fn duplicate(&self) -> (r: Role)
        ensures
            r@ == self@,
    {
        let mut permissions: Vec<RouteItem> = Vec::new();
        let mut i: usize = 0;
        while i < self.permissions.len()
            invariant
                0 <= i <= self.permissions@.len(),
                permissions@.len() == i,
                forall|k: int| 0 <= k < i ==> (#[trigger] permissions@[k])@ == self.permissions@[k]@,
            decreases self.permissions@.len() - i,
        {
            permissions.push(self.permissions[i].duplicate());
            i = i + 1;
        }
        let r = Role {
            base: BaseModel {
                id: self.base.id.clone(),
                created_at: self.base.created_at,
                updated_at: self.base.updated_at,
                deleted_at: self.base.deleted_at,
                version: self.base.version,
            },
            name: self.name.clone(),
            permissions,
        };
        proof {
            assert(r@.permissions =~= self@.permissions);
            assert(r@ =~= self@);
        }
        r
    }

    /// A fresh role under `id`, carrying `name` and `permissions`.
    pub fn new(id: String, name: String, permissions: Vec<RouteItem>) -> (r: Self)
        ensures
            r@.base.id == id@,
            r@.base.version == 0,
            r@.base.deleted_at == 0,
            r@.name == name@,
            r@.permissions == permissions@.map_values(|p: RouteItem| p@),
    {
        Role { base: BaseModel::new(id), name, permissions }
    }
}

impl Model for Role {
    open spec fn spec_id(&self) -> Seq<char> {
        self.base.id@
    }

    fn id(&self) -> (r: String)
        ensures
            r@ == self.spec_id(),
    {
        self.base.id.clone()
    }
}

impl RBACRole for Role {
    /// A role flattens into one `(name, path)` fact per permission.
    open spec fn spec_policies(&self) -> Seq<(Seq<char>, Seq<char>)> {
        self.permissions@.map_values(|p: RouteItem| (self.name@, p.path@))
    }

    fn to_casbin_policy(&self) -> (r: Vec<Vec<String>>)
        ensures
            r@.len() == self.spec_policies().len(),
            forall|i: int|
                0 <= i < r@.len() ==> #[trigger] r@[i]@.len() == 2 && r@[i]@[0]@
                    == self.spec_policies()[i].0 && r@[i]@[1]@ == self.spec_policies()[i].1,
    {
        let mut r: Vec<Vec<String>> = Vec::new();
        let mut i: usize = 0;
        while i < self.permissions.len()
            invariant
                0 <= i <= self.permissions@.len(),
                r@.len() == i,
                forall|j: int|
                    0 <= j < i ==> #[trigger] r@[j]@.len() == 2 && r@[j]@[0]@ == self.name@
                        && r@[j]@[1]@ == self.permissions@[j].path@,
            decreases self.permissions@.len() - i,
        {
            let pair: Vec<String> = vec![self.name.clone(), self.permissions[i].path.clone()];
            r.push(pair);
            i = i + 1;
        }
        r
    }
}

} // verus!
