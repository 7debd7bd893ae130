//! The permissions each role resolves to, and the guard that checks them.
//!
//! Every permission is introduced by exactly one role of the hierarchy; a
//! role's set is the union of what it introduces and everything its
//! predecessor holds, so the set only grows along the order.
use vstd::prelude::*;

use crate::role::{Role, TOP_LEVEL};

verus! {

/// A single grantable capability.
#[derive(Clone, Copy, Debug, PartialEq, Eq, Structural)]
pub enum RolePermissions {
    UpdateUser,
    ChangeUserPassword,
    CreateArticle,
    UpdateArticle,
    ApproveArticle,
    DisapproveArticle,
    DeleteArticle,
    InactivateComment,
    DeleteComment,
    SolveReport,
    DeleteReport,
    CreateNewTeamRole,
    UpdateTeamRole,
    DeleteTeamRole,
    CreateTeamUser,
    UpdateTeamUser,
    DeleteTeamUser,
    DeleteArticleTag,
}

/// The rank of the role that introduces `p` into the hierarchy.
pub open spec fn introduced_at(p: RolePermissions) -> nat {
    match p {
        RolePermissions::CreateArticle => 1,
        RolePermissions::UpdateArticle => 2,
        RolePermissions::ApproveArticle => 2,
        RolePermissions::DisapproveArticle => 3,
        RolePermissions::InactivateComment => 3,
        RolePermissions::SolveReport => 3,
        RolePermissions::UpdateUser => 4,
        RolePermissions::DeleteComment => 4,
        RolePermissions::CreateTeamUser => 4,
        RolePermissions::UpdateTeamUser => 4,
        RolePermissions::DeleteTeamUser => 4,
        RolePermissions::ChangeUserPassword => 5,
        RolePermissions::DeleteArticle => 5,
        RolePermissions::DeleteReport => 5,
        RolePermissions::CreateNewTeamRole => 5,
        RolePermissions::UpdateTeamRole => 5,
        RolePermissions::DeleteTeamRole => 6,
        RolePermissions::DeleteArticleTag => 6,
    }
}

/// What `role` adds over the role just before it.
pub open spec fn increment(role: Role) -> Set<RolePermissions> {
    Set::new(|p: RolePermissions| introduced_at(p) == role.rank())
}

/// Every permission `role` holds: its own increment and, cumulatively, those
/// of all the roles before it.
pub open spec fn permissions(role: Role) -> Set<RolePermissions> {
    Set::new(|p: RolePermissions| introduced_at(p) <= role.rank())
}

/// Whether an actor whose role may be absent holds `p`; no role, no permission.
pub open spec fn granted(role: Option<Role>, p: RolePermissions) -> bool {
    match role {
        Some(r) => permissions(r).contains(p),
        None => false,
    }
}

/// The permissions `role` adds over the role just before it, in a fixed order.
fn increment_of(role: Role) -> (r: Vec<RolePermissions>)
    ensures
        r@.no_duplicates(),
        forall|p: RolePermissions| r@.contains(p) <==> introduced_at(p) == role.rank(),
{
    let r = match role {
        Role::User => Vec::new(),
        Role::Writer => vec![RolePermissions::CreateArticle],
        Role::Editor => vec![RolePermissions::UpdateArticle, RolePermissions::ApproveArticle],
        Role::Coord => vec![
            RolePermissions::DisapproveArticle,
            RolePermissions::InactivateComment,
            RolePermissions::SolveReport,
        ],
        Role::Admin => vec![
            RolePermissions::UpdateUser,
            RolePermissions::DeleteComment,
            RolePermissions::CreateTeamUser,
            RolePermissions::UpdateTeamUser,
            RolePermissions::DeleteTeamUser,
        ],
        Role::Principal => vec![
            RolePermissions::ChangeUserPassword,
            RolePermissions::DeleteArticle,
            RolePermissions::DeleteReport,
            RolePermissions::CreateNewTeamRole,
            RolePermissions::UpdateTeamRole,
        ],
        Role::Ceo => vec![RolePermissions::DeleteTeamRole, RolePermissions::DeleteArticleTag],
    };
    r
}

impl RolePermissions {
    /// The permissions that `role` resolves to, built level by level along the
    /// hierarchy: each level appends what it introduces to what the levels
    /// before it hold.
    pub fn get_from_role(role: &Role) -> (r: Vec<RolePermissions>)
        ensures
            r@.no_duplicates(),
            forall|p: RolePermissions| r@.contains(p) <==> permissions(*role).contains(p),
    {
        let top = role.level();
        let mut perms: Vec<RolePermissions> = Vec::new();
        let mut level: u8 = 1;
        while level <= top
            invariant
                1 <= level <= top + 1,
                top as nat == role.rank(),
                top <= TOP_LEVEL,
                perms@.no_duplicates(),
                forall|p: RolePermissions| perms@.contains(p) <==> introduced_at(p) < level,
            decreases top + 1 - level,
        {
            let mut added = increment_of(Role::at_level(level));
            let ghost before = perms@;
            let ghost fresh = added@;
            perms.append(&mut added);
            assert(perms@ == before + fresh);
            assert forall|p: RolePermissions| perms@.contains(p) <==> introduced_at(p) < level + 1 by {
                if before.contains(p) {
                    let i = choose|i: int| 0 <= i < before.len() && before[i] == p;
                    assert(perms@[i] == p);
                }
                if fresh.contains(p) {
                    let i = choose|i: int| 0 <= i < fresh.len() && fresh[i] == p;
                    assert(perms@[before.len() + i] == p);
                }
                if perms@.contains(p) {
                    let i = choose|i: int| 0 <= i < perms@.len() && perms@[i] == p;
                    if i < before.len() {
                        assert(before[i] == p);
                    } else {
                        assert(fresh[i - before.len()] == p);
                    }
                }
            }
            assert forall|i: int, j: int|
                0 <= i < perms@.len() && 0 <= j < perms@.len() && i != j
                implies perms@[i] != perms@[j] by {
                if i < before.len() && j >= before.len() {
                    assert(before.contains(perms@[i]));
                    assert(fresh.contains(perms@[j]));
                } else if j < before.len() && i >= before.len() {
                    assert(before.contains(perms@[j]));
                    assert(fresh.contains(perms@[i]));
                } else if i >= before.len() {
                    assert(fresh[i - before.len()] == perms@[i]);
                }
            }
            level = level + 1;
        }
        perms
    }
}

/// Whether `role` holds `permission`: a membership test against the
/// role's resolved set.
pub fn verify_role_has_permission(role: &Role, permission: RolePermissions) -> (r: bool)
    ensures
        r == permissions(*role).contains(permission),
{
    let perms = RolePermissions::get_from_role(role);
    let mut i: usize = 0;
    while i < perms.len()
        invariant
            0 <= i <= perms@.len(),
            forall|j: int| 0 <= j < i ==> perms@[j] != permission,
            forall|p: RolePermissions| perms@.contains(p) <==> permissions(*role).contains(p),
        decreases perms@.len() - i,
    {
        if perms[i] == permission {
            return true;
        }
        i = i + 1;
    }
    false
}

/// The guard for an actor whose role may be absent: an absent role holds no
/// permission.
pub fn authorize(role: Option<Role>, permission: RolePermissions) -> (r: bool)
    ensures
        r == granted(role, permission),
{
    match role {
        Some(r) => verify_role_has_permission(&r, permission),
        None => false,
    }
}

/// Along the hierarchy the permission sets only grow: a role holds everything
/// any role before it holds.
pub proof fn lemma_permissions_monotone(lo: Role, hi: Role)
    requires
        lo.rank() <= hi.rank(),
    ensures
        permissions(lo).subset_of(permissions(hi)),
{
}

/// Each step of the hierarchy is strict: the role at position `i + 1` holds
/// what the role at `i` holds together with its own increment, which is not
/// empty and which the role at `i` lacks.
pub proof fn lemma_each_step_adds(i: nat)
    requires
        i < TOP_LEVEL,
    ensures
        permissions(Role::from_rank(i + 1)) == permissions(Role::from_rank(i)).union(
            increment(Role::from_rank(i + 1)),
        ),
        increment(Role::from_rank(i + 1)).disjoint(permissions(Role::from_rank(i))),
        exists|p: RolePermissions| #[trigger] increment(Role::from_rank(i + 1)).contains(p),
{
    let lo = Role::from_rank(i);
    let hi = Role::from_rank(i + 1);
    assert(permissions(hi) =~= permissions(lo).union(increment(hi)));
    let witness = if i == 0 {
        RolePermissions::CreateArticle
    } else if i == 1 {
        RolePermissions::UpdateArticle
    } else if i == 2 {
        RolePermissions::SolveReport
    } else if i == 3 {
        RolePermissions::UpdateUser
    } else if i == 4 {
        RolePermissions::DeleteArticle
    } else {
        RolePermissions::DeleteTeamRole
    };
    assert(increment(hi).contains(witness));
}

} // verus!
