use vstd::prelude::*;

use super::fetcher;
use crate::domain::role::Role;
use crate::domain::user::User;
use crate::actors::fetcher::{RBACRole, RBACUser};

verus! {

/// Failure of the authorization actor.
#[derive(Debug)]
pub enum Error {
    /// A fact could not be inserted into the policy engine.
    PolicyError(String),
    /// A role or user source failed.
    FetcherError(fetcher::Error),
    /// Any other failure, carried as text.
    OtherError(String),
}

impl Error {
    /// The human-readable text carried by the error.
    pub fn message(&self) -> (r: String)
        ensures
            self matches Error::PolicyError(m) ==> r@ == m@,
            self matches Error::OtherError(m) ==> r@ == m@,
    {
        match self {
            Error::PolicyError(m) => m.clone(),
            Error::OtherError(m) => m.clone(),
            Error::FetcherError(e) => e.message(),
        }
    }
}

/// A policy fact `(subject, action)` or a role assignment
/// `(account, role)`, as the engine stores it.
pub open spec fn pairs_view(v: Seq<(String, String)>) -> Seq<(Seq<char>, Seq<char>)> {
    v.map_values(|p: (String, String)| (p.0@, p.1@))
}

/// A fact is well-formed when neither side is empty.
pub open spec fn fact_valid(f: (Seq<char>, Seq<char>)) -> bool {
    f.0.len() > 0 && f.1.len() > 0
}

/// Every fact of the sequence is well-formed.
pub open spec fn all_valid(fs: Seq<(Seq<char>, Seq<char>)>) -> bool {
    forall|i: int| 0 <= i < fs.len() ==> fact_valid(#[trigger] fs[i])
}

/// Length of the longest well-formed prefix of the sequence.
pub open spec fn valid_prefix_len(fs: Seq<(Seq<char>, Seq<char>)>) -> int
    decreases fs.len(),
{
    if fs.len() == 0 {
        0
    } else if !fact_valid(fs[0]) {
        0
    } else {
        1 + valid_prefix_len(fs.skip(1))
    }
}

/// The policy facts derived from fetched roles: each role flattened
/// into one `(role name, path)` fact per permission, in source order.
pub open spec fn derived_policies(roles: Seq<Role>) -> Seq<(Seq<char>, Seq<char>)>
    decreases roles.len(),
{
    if roles.len() == 0 {
        Seq::empty()
    } else {
        derived_policies(roles.drop_last()) + roles.last().spec_policies()
    }
}

/// The role assignments derived from fetched users: one
/// `(account, role name)` pair per user, in source order.
pub open spec fn derived_groupings(users: Seq<User>) -> Seq<(Seq<char>, Seq<char>)> {
    users.map_values(|u: User| (u.spec_account(), u.spec_role_name()))
}

/// The in-memory authorization matcher. It holds policy facts
/// (`subject may perform action`), role assignments (`account has
/// role`), and the configured bypass subject that is allowed
/// everything. Exact string matching only.
pub struct PolicyEngine {
    bypass: String,
    policies: Vec<(String, String)>,
    groupings: Vec<(String, String)>,
}

impl PolicyEngine {
    /// The configured subject that matches any action.
    pub closed spec fn spec_bypass(self) -> Seq<char> {
        self.bypass@
    }

    /// The loaded policy facts.
    pub closed spec fn spec_policies(self) -> Seq<(Seq<char>, Seq<char>)> {
        pairs_view(self.policies@)
    }

    /// The loaded role assignments.
    pub closed spec fn spec_groupings(self) -> Seq<(Seq<char>, Seq<char>)> {
        pairs_view(self.groupings@)
    }

    /// The matching rule: `sub` may perform `act` iff some role `r`
    /// is assigned to `sub` and `(r, act)` is a policy fact, or `sub`
    /// is the bypass subject.
    pub open spec fn allows(self, sub: Seq<char>, act: Seq<char>) -> bool {
        sub == self.spec_bypass() || exists|r: Seq<char>|
            #[trigger] self.spec_groupings().contains((sub, r)) && self.spec_policies().contains(
                (r, act),
            )
    }

    /// An empty engine under the given bypass subject.
    pub fn new(bypass: String) -> (r: Self)
        ensures
            r.spec_bypass() == bypass@,
            r.spec_policies().len() == 0,
            r.spec_groupings().len() == 0,
    {
        let r = PolicyEngine { bypass, policies: Vec::new(), groupings: Vec::new() };
        proof {
            assert(r.spec_policies() =~= Seq::<(Seq<char>, Seq<char>)>::empty());
            assert(r.spec_groupings() =~= Seq::<(Seq<char>, Seq<char>)>::empty());
        }
        r
    }

    /// Drops every fact and assignment; the bypass subject stays.
    pub fn clear(&mut self)
        ensures
            final(self).spec_bypass() == old(self).spec_bypass(),
            final(self).spec_policies().len() == 0,
            final(self).spec_groupings().len() == 0,
    {
        self.policies = Vec::new();
        self.groupings = Vec::new();
    }

    /// Records that `sub` may perform `act`. A fact with an empty
    /// subject or action is refused and nothing changes.
    pub fn add_policy_fact(&mut self, sub: String, act: String) -> (r: Result<(), Error>)
        ensures
            r is Ok <==> fact_valid((sub@, act@)),
            final(self).spec_bypass() == old(self).spec_bypass(),
            final(self).spec_groupings() == old(self).spec_groupings(),
            r is Ok ==> final(self).spec_policies() == old(self).spec_policies().push(
                (sub@, act@),
            ),
            r is Err ==> final(self).spec_policies() == old(self).spec_policies() && r matches Err(
                Error::PolicyError(_),
            ),
    {
        if sub.as_str().is_empty() || act.as_str().is_empty() {
            return Err(Error::PolicyError("policy fact with an empty field".to_owned()));
        }
        let ghost before = self.policies@;
        self.policies.push((sub, act));
        proof {
            assert(pairs_view(self.policies@) =~= pairs_view(before).push(
                (self.policies@.last().0@, self.policies@.last().1@),
            ));
        }
        Ok(())
    }

    /// Records that account `user` holds role `role`. An assignment
    /// with an empty side is refused and nothing changes.
    pub fn add_role_assignment(&mut self, user: String, role: String) -> (r: Result<(), Error>)
        ensures
            r is Ok <==> fact_valid((user@, role@)),
            final(self).spec_bypass() == old(self).spec_bypass(),
            final(self).spec_policies() == old(self).spec_policies(),
            r is Ok ==> final(self).spec_groupings() == old(self).spec_groupings().push(
                (user@, role@),
            ),
            r is Err ==> final(self).spec_groupings() == old(self).spec_groupings()
                && r matches Err(Error::PolicyError(_)),
    {
        if user.as_str().is_empty() || role.as_str().is_empty() {
            return Err(Error::PolicyError("role assignment with an empty field".to_owned()));
        }
        let ghost before = self.groupings@;
        self.groupings.push((user, role));
        proof {
            assert(pairs_view(self.groupings@) =~= pairs_view(before).push(
                (self.groupings@.last().0@, self.groupings@.last().1@),
            ));
        }
        Ok(())
    }

    /// Answers the matching rule against the current fact set.
    pub fn evaluate(&self, sub: &str, act: &str) -> (r: bool)
        ensures
            r == self.allows(sub@, act@),
    {
        let sub_owned: String = sub.to_owned();
        let act_owned: String = act.to_owned();
        if sub_owned == self.bypass {
            return true;
        }
        let mut i: usize = 0;
        while i < self.groupings.len()
            invariant
                0 <= i <= self.groupings@.len(),
                forall|k: int|
                    0 <= k < i ==> !((#[trigger] self.spec_groupings()[k]).0 == sub@
                        && self.spec_policies().contains((self.spec_groupings()[k].1, act@))),
                sub_owned@ == sub@,
                act_owned@ == act@,
            decreases self.groupings@.len() - i,
        {
            if self.groupings[i].0 == sub_owned {
                if contains_policy(&self.policies, &self.groupings[i].1, &act_owned) {
                    proof {
                        let role = self.spec_groupings()[i as int].1;
                        assert(self.spec_groupings()[i as int] == (sub@, role));
                        assert(self.spec_groupings().contains((sub@, role)));
                    }
                    return true;
                }
            }
            i = i + 1;
        }
        proof {
            if self.allows(sub@, act@) {
                let role = choose|r: Seq<char>|
                    #[trigger] self.spec_groupings().contains((sub@, r))
                        && self.spec_policies().contains((r, act@));
                let k = choose|k: int|
                    0 <= k < self.spec_groupings().len() && self.spec_groupings()[k] == (
                    sub@,
                    role,
                );
                assert(false);
            }
        }
        false
    }

    /// The reload workflow over rows already fetched from the role
    /// and user sources: clears the engine, loads every flattened
    /// role fact, then every user assignment. On the first malformed
    /// fact it stops and reports, leaving the facts loaded so far in
    /// place — there is no rollback.
    pub fn reload(&mut self, roles: &Vec<Role>, users: &Vec<User>) -> (r: Result<(), Error>)
        ensures
            reload_post(*old(self), *final(self), roles@, users@),
            r is Ok <==> reload_result_ok(roles@, users@),
            r matches Err(e) ==> e matches Error::PolicyError(_),
    {
        self.clear();
        let ghost all_facts = derived_policies(roles@);
        let mut i: usize = 0;
        while i < roles.len()
            invariant
                0 <= i <= roles@.len(),
                self.spec_bypass() == old(self).spec_bypass(),
                self.spec_groupings().len() == 0,
                self.spec_policies() == derived_policies(roles@.take(i as int)),
                all_valid(self.spec_policies()),
                all_facts == derived_policies(roles@),
            decreases roles@.len() - i,
        {
            let ghost facts_before_role = self.spec_policies();
            let facts: Vec<Vec<String>> = roles[i].to_casbin_policy();
            let ghost role_facts = roles@[i as int].spec_policies();
            let mut j: usize = 0;
            while j < facts.len()
                invariant
                    0 <= j <= facts@.len(),
                    0 <= i < roles@.len(),
                    self.spec_bypass() == old(self).spec_bypass(),
                    self.spec_groupings().len() == 0,
                    facts@.len() == role_facts.len(),
                    forall|t: int|
                        0 <= t < facts@.len() ==> #[trigger] facts@[t]@.len() == 2 && facts@[t]@[0]@
                            == role_facts[t].0 && facts@[t]@[1]@ == role_facts[t].1,
                    role_facts == roles@[i as int].spec_policies(),
                    facts_before_role == derived_policies(roles@.take(i as int)),
                    self.spec_policies() == facts_before_role + role_facts.take(j as int),
                    all_valid(self.spec_policies()),
                    all_facts == derived_policies(roles@),
                decreases facts@.len() - j,
            {
                let sub: String = facts[j][0].clone();
                let act: String = facts[j][1].clone();
                proof {
                    assert(facts@[j as int]@.len() == 2);
                    assert(sub@ == role_facts[j as int].0);
                    assert(act@ == role_facts[j as int].1);
                }
                let ghost facts_before = self.spec_policies();
                match self.add_policy_fact(sub, act) {
                    Ok(()) => {
                        proof {
                            assert(role_facts.take(j as int).push(role_facts[j as int])
                                =~= role_facts.take(j + 1));
                            assert(self.spec_policies() =~= facts_before_role + role_facts.take(
                                j + 1,
                            ));
                        }
                    },
                    Err(e) => {
                        proof {
                            lemma_derived_split(roles@, i as int);
                            lemma_derived_skip_unfold(roles@, i as int);
                            let rest = role_facts.skip(j as int) + derived_policies(
                                roles@.skip(i + 1),
                            );
                            assert(role_facts.take(j as int) + role_facts.skip(j as int)
                                =~= role_facts);
                            assert(all_facts =~= facts_before + rest);
                            assert(rest[0] == (sub@, act@));
                            lemma_valid_prefix_concat(facts_before, rest);
                            assert(all_facts.take(valid_prefix_len(all_facts)) =~= facts_before);
                        }
                        return Err(e);
                    },
                }
                j = j + 1;
            }
            proof {
                lemma_derived_take_succ(roles@, i as int);
                assert(role_facts.take(role_facts.len() as int) =~= role_facts);
                assert(self.spec_policies() =~= derived_policies(roles@.take(i + 1)));
            }
            i = i + 1;
        }
        proof {
            assert(roles@.take(roles@.len() as int) =~= roles@);
        }
        let ghost all_assigns = derived_groupings(users@);
        let mut i: usize = 0;
        while i < users.len()
            invariant
                0 <= i <= users@.len(),
                self.spec_bypass() == old(self).spec_bypass(),
                self.spec_policies() == derived_policies(roles@),
                all_valid(self.spec_policies()),
                self.spec_groupings() == all_assigns.take(i as int),
                all_valid(self.spec_groupings()),
                all_assigns == derived_groupings(users@),
            decreases users@.len() - i,
        {
            let account: String = users[i].account();
            let role_name: String = users[i].role_name();
            let ghost assigns_before = self.spec_groupings();
            match self.add_role_assignment(account, role_name) {
                Ok(()) => {
                    proof {
                        assert(self.spec_groupings() =~= all_assigns.take(i + 1));
                    }
                },
                Err(e) => {
                    proof {
                        let rest = all_assigns.skip(i as int);
                        assert(all_assigns =~= assigns_before + rest);
                        assert(rest[0] == (users@[i as int].spec_account(), users@[
                            i as int].spec_role_name()));
                        lemma_valid_prefix_concat(assigns_before, rest);
                        assert(all_assigns.take(valid_prefix_len(all_assigns)) =~= assigns_before);
                    }
                    return Err(e);
                },
            }
            i = i + 1;
        }
        proof {
            assert(all_assigns.take(users@.len() as int) =~= all_assigns);
        }
        Ok(())
    }
}

/// Both derived fact sets are well-formed: the condition under which
/// a reload succeeds.
pub open spec fn reload_result_ok(roles: Seq<Role>, users: Seq<User>) -> bool {
    all_valid(derived_policies(roles)) && all_valid(derived_groupings(users))
}

/// What a reload leaves behind. On success the engine holds exactly
/// the derived facts; on failure it holds the well-formed prefix
/// loaded before the first malformed fact, with no rollback.
pub open spec fn reload_post(
    pre: PolicyEngine,
    post: PolicyEngine,
    roles: Seq<Role>,
    users: Seq<User>,
) -> bool {
    let facts = derived_policies(roles);
    let assigns = derived_groupings(users);
    &&& post.spec_bypass() == pre.spec_bypass()
    &&& (reload_result_ok(roles, users) ==> post.spec_policies() == facts
        && post.spec_groupings() == assigns)
    &&& (!all_valid(facts) ==> post.spec_policies() == facts.take(valid_prefix_len(facts))
        && post.spec_groupings().len() == 0)
    &&& (all_valid(facts) && !all_valid(assigns) ==> post.spec_policies() == facts
        && post.spec_groupings() == assigns.take(valid_prefix_len(assigns)))
}

fn contains_policy(policies: &Vec<(String, String)>, role: &String, act: &String) -> (r: bool)
    ensures
        r == pairs_view(policies@).contains((role@, act@)),
{
    let mut i: usize = 0;
    while i < policies.len()
        invariant
            0 <= i <= policies@.len(),
            forall|k: int| 0 <= k < i ==> #[trigger] pairs_view(policies@)[k] != (role@, act@),
        decreases policies@.len() - i,
    {
        if policies[i].0 == *role && policies[i].1 == *act {
            proof {
                assert(pairs_view(policies@)[i as int] == (role@, act@));
            }
            return true;
        }
        i = i + 1;
    }
    proof {
        if pairs_view(policies@).contains((role@, act@)) {
            let k = choose|k: int|
                0 <= k < pairs_view(policies@).len() && pairs_view(policies@)[k] == (role@, act@);
            assert(false);
        }
    }
    false
}

/// Deriving facts distributes over concatenation of role lists.
proof fn lemma_derived_concat(a: Seq<Role>, b: Seq<Role>)
    ensures
        derived_policies(a + b) == derived_policies(a) + derived_policies(b),
    decreases b.len(),
{
    if b.len() == 0 {
        assert(a + b =~= a);
        assert(derived_policies(b) =~= Seq::empty());
        assert(derived_policies(a) + derived_policies(b) =~= derived_policies(a));
    } else {
        assert((a + b).drop_last() =~= a + b.drop_last());
        lemma_derived_concat(a, b.drop_last());
        assert((a + b).last() == b.last());
        assert(derived_policies(a) + derived_policies(b.drop_last()) + b.last().spec_policies()
            =~= derived_policies(a) + derived_policies(b));
    }
}

/// Splitting the roles at `i` splits the derived facts accordingly.
proof fn lemma_derived_split(roles: Seq<Role>, i: int)
    requires
        0 <= i <= roles.len(),
    ensures
        derived_policies(roles) == derived_policies(roles.take(i)) + derived_policies(
            roles.skip(i),
        ),
{
    assert(roles.take(i) + roles.skip(i) =~= roles);
    lemma_derived_concat(roles.take(i), roles.skip(i));
}

/// One more role extends the derived facts by that role's facts.
proof fn lemma_derived_take_succ(roles: Seq<Role>, i: int)
    requires
        0 <= i < roles.len(),
    ensures
        derived_policies(roles.take(i + 1)) == derived_policies(roles.take(i)) + roles[
            i].spec_policies(),
{
    assert(roles.take(i + 1).drop_last() =~= roles.take(i));
    assert(roles.take(i + 1).last() == roles[i]);
}

/// The derived facts of a suffix start with the facts of its head.
proof fn lemma_derived_skip_unfold(roles: Seq<Role>, i: int)
    requires
        0 <= i < roles.len(),
    ensures
        derived_policies(roles.skip(i)) == roles[i].spec_policies() + derived_policies(
            roles.skip(i + 1),
        ),
{
    let head = seq![roles[i]];
    assert(head + roles.skip(i + 1) =~= roles.skip(i));
    lemma_derived_concat(head, roles.skip(i + 1));
    assert(head.drop_last() =~= Seq::<Role>::empty());
    assert(head.last() == roles[i]);
    assert(derived_policies(head) == derived_policies(head.drop_last())
        + head.last().spec_policies());
    assert(Seq::<(Seq<char>, Seq<char>)>::empty() + roles[i].spec_policies() =~= roles[
        i].spec_policies());
}

/// A well-formed block followed by a malformed fact pins the valid
/// prefix exactly at the block's end.
proof fn lemma_valid_prefix_concat(a: Seq<(Seq<char>, Seq<char>)>, b: Seq<(Seq<char>, Seq<char>)>)
    requires
        all_valid(a),
        b.len() > 0,
        !fact_valid(b[0]),
    ensures
        valid_prefix_len(a + b) == a.len(),
        !all_valid(a + b),
    decreases a.len(),
{
    let s = a + b;
    assert(s[a.len() as int] == b[0]);
    if a.len() == 0 {
        assert(s =~= b);
    } else {
        assert(fact_valid(s[0]));
        assert(s.skip(1) =~= a.skip(1) + b);
        assert(all_valid(a.skip(1))) by {
            assert(forall|i: int| 0 <= i < a.skip(1).len() ==> #[trigger] a.skip(1)[i] == a[i + 1]);
        }
        lemma_valid_prefix_concat(a.skip(1), b);
    }
}


/// A command of the authorization actor, with the outside work
/// already done: a permission query, or a reset carrying the rows
/// that the role and user sources returned for the reload.
pub enum Command {
    CheckPermission { user: String, action: String },
    Reset { roles: Vec<Role>, users: Vec<User> },
}

/// What the actor answers for one command.
pub enum CommandOutcome {
    Permission(bool),
    ResetDone,
    ResetFailed(Error),
}

/// One actor step: commands are handled one at a time, so a
/// permission query answers against the engine exactly as the
/// preceding commands left it, and a reset runs to completion before
/// the next command is seen.
pub fn handle_command(engine: &mut PolicyEngine, command: Command) -> (r: CommandOutcome)
    ensures
        command matches Command::CheckPermission { user, action } ==> *final(engine) == *old(
            engine,
        ) && r == CommandOutcome::Permission(old(engine).allows(user@, action@)),
        command matches Command::Reset { roles, users } ==> reload_post(
            *old(engine),
            *final(engine),
            roles@,
            users@,
        ) && (r is ResetDone || r is ResetFailed) && (r is ResetDone <==> reload_result_ok(
            roles@,
            users@,
        )) && (r matches CommandOutcome::ResetFailed(e) ==> e matches Error::PolicyError(_)),
{
    match command {
        Command::CheckPermission { user, action } => {
            let ok: bool = engine.evaluate(user.as_str(), action.as_str());
            CommandOutcome::Permission(ok)
        },
        Command::Reset { roles, users } => {
            match engine.reload(&roles, &users) {
                Ok(()) => CommandOutcome::ResetDone,
                Err(e) => CommandOutcome::ResetFailed(e),
            }
        },
    }
}

/// Deny by default: a subject that is not the bypass subject and has
/// no role assignment leading to a policy fact for the action is
/// refused.
pub proof fn lemma_deny_by_default(e: PolicyEngine, sub: Seq<char>, act: Seq<char>)
    requires
        sub != e.spec_bypass(),
        forall|r: Seq<char>|
            !(#[trigger] e.spec_groupings().contains((sub, r)) && e.spec_policies().contains(
                (r, act),
            )),
    ensures
        !e.allows(sub, act),
{
}

/// `users[ui]` binds account `sub` to role `r`.
pub open spec fn user_binds(users: Seq<User>, ui: int, sub: Seq<char>, r: Seq<char>) -> bool {
    0 <= ui < users.len() && users[ui].spec_account() == sub && users[ui].spec_role_name() == r
}

/// Permission `pi` of `roles[ri]` grants action `act` to role `r`.
pub open spec fn role_grants(roles: Seq<Role>, ri: int, pi: int, r: Seq<char>, act: Seq<char>) -> bool {
    0 <= ri < roles.len() && 0 <= pi < roles[ri].permissions@.len() && roles[ri].name@ == r
        && roles[ri].permissions@[pi].path@ == act
}

/// A derived policy fact is exactly a `(role name, permission path)`
/// pair of some fetched role.
pub proof fn lemma_derived_policies_contains(roles: Seq<Role>, f: (Seq<char>, Seq<char>))
    ensures
        derived_policies(roles).contains(f) <==> exists|ri: int, pi: int|
            #[trigger] role_grants(roles, ri, pi, f.0, f.1),
    decreases roles.len(),
{
    if roles.len() == 0 {
    } else {
        lemma_derived_policies_contains(roles.drop_last(), f);
        let a = derived_policies(roles.drop_last());
        let b = roles.last().spec_policies();
        assert(derived_policies(roles) == a + b);
        if derived_policies(roles).contains(f) {
            let k = choose|k: int| 0 <= k < (a + b).len() && (a + b)[k] == f;
            if k < a.len() {
                assert(a[k] == f);
                assert(a.contains(f));
                let (ri, pi) = choose|ri: int, pi: int|
                    #[trigger] role_grants(roles.drop_last(), ri, pi, f.0, f.1);
                assert(roles.drop_last()[ri] == roles[ri]);
                assert(role_grants(roles, ri, pi, f.0, f.1));
            } else {
                let pi = k - a.len();
                assert(b[pi] == f);
                let ri = roles.len() - 1;
                assert(role_grants(roles, ri, pi, f.0, f.1));
            }
        }
        if exists|ri: int, pi: int| #[trigger] role_grants(roles, ri, pi, f.0, f.1) {
            let (ri, pi) = choose|ri: int, pi: int| #[trigger] role_grants(roles, ri, pi, f.0, f.1);
            if ri < roles.len() - 1 {
                assert(roles.drop_last()[ri] == roles[ri]);
                assert(role_grants(roles.drop_last(), ri, pi, f.0, f.1));
                assert(a.contains(f));
                let k = choose|k: int| 0 <= k < a.len() && a[k] == f;
                assert((a + b)[k] == f);
                assert(derived_policies(roles).contains(f));
            } else {
                assert(b[pi] == f);
                assert((a + b)[a.len() + pi] == f);
                assert(derived_policies(roles).contains(f));
            }
        }
    }
}

/// A derived role assignment is exactly the `(account, role name)`
/// pair of some fetched user.
pub proof fn lemma_derived_groupings_contains(users: Seq<User>, g: (Seq<char>, Seq<char>))
    ensures
        derived_groupings(users).contains(g) <==> exists|ui: int|
            #[trigger] user_binds(users, ui, g.0, g.1),
{
    if derived_groupings(users).contains(g) {
        let k = choose|k: int|
            0 <= k < derived_groupings(users).len() && derived_groupings(users)[k] == g;
        assert(user_binds(users, k, g.0, g.1));
    }
    if exists|ui: int| #[trigger] user_binds(users, ui, g.0, g.1) {
        let ui = choose|ui: int| #[trigger] user_binds(users, ui, g.0, g.1);
        assert(derived_groupings(users)[ui] == g);
        assert(derived_groupings(users).contains(g));
    }
}

/// After a reload completed, the engine reflects exactly the rows the
/// sources held: a subject is allowed an action iff it is the bypass
/// subject, or some fetched user binds that account to a role of
/// which some fetched permission grants the action. No fact from
/// before the reload survives.
pub proof fn lemma_reload_reflects_sources(
    e: PolicyEngine,
    roles: Seq<Role>,
    users: Seq<User>,
    sub: Seq<char>,
    act: Seq<char>,
)
    requires
        e.spec_policies() == derived_policies(roles),
        e.spec_groupings() == derived_groupings(users),
    ensures
        e.allows(sub, act) <==> (sub == e.spec_bypass() || exists|
            ui: int,
            ri: int,
            pi: int,
            r: Seq<char>,
        |
            #[trigger] user_binds(users, ui, sub, r) && #[trigger] role_grants(
                roles,
                ri,
                pi,
                r,
                act,
            )),
{
    if sub == e.spec_bypass() {
    } else {
        if e.allows(sub, act) {
            let r = choose|r: Seq<char>|
                #[trigger] e.spec_groupings().contains((sub, r)) && e.spec_policies().contains(
                    (r, act),
                );
            lemma_derived_groupings_contains(users, (sub, r));
            lemma_derived_policies_contains(roles, (r, act));
            let ui = choose|ui: int| #[trigger] user_binds(users, ui, sub, r);
            let (ri, pi) = choose|ri: int, pi: int| #[trigger] role_grants(roles, ri, pi, r, act);
            assert(user_binds(users, ui, sub, r) && role_grants(roles, ri, pi, r, act));
        }
        if exists|ui: int, ri: int, pi: int, r: Seq<char>|
            #[trigger] user_binds(users, ui, sub, r) && #[trigger] role_grants(
                roles,
                ri,
                pi,
                r,
                act,
            ) {
            let (ui, ri, pi, r) = choose|ui: int, ri: int, pi: int, r: Seq<char>|
                #[trigger] user_binds(users, ui, sub, r) && #[trigger] role_grants(
                    roles,
                    ri,
                    pi,
                    r,
                    act,
                );
            lemma_derived_groupings_contains(users, (sub, r));
            lemma_derived_policies_contains(roles, (r, act));
            assert(user_binds(users, ui, (sub, r).0, (sub, r).1));
            assert(role_grants(roles, ri, pi, (r, act).0, (r, act).1));
            assert(e.spec_groupings().contains((sub, r)) && e.spec_policies().contains((r, act)));
        }
    }
}

} // verus!
