use vstd::prelude::*;

verus! {

#[derive(Debug, Clone, Copy, PartialEq, Eq, Structural)]
pub enum Role {
    Owner,
    Operator,
    Contract,
    Auditor,
    Validator,
    Admin,
}

#[derive(Debug, PartialEq, Eq)]
pub struct AccessPolicy {
    pub allowed_roles: Vec<Role>,
    pub allow_owner_override: bool,
    pub requires_certification: bool,
}

impl AccessPolicy {
    /// Field-by-field equality, comparing role lists by their contents.
    pub open spec fn same(self, other: AccessPolicy) -> bool {
        &&& self.allowed_roles@ == other.allowed_roles@
        &&& self.allow_owner_override == other.allow_owner_override
        &&& self.requires_certification == other.requires_certification
    }

    /// A policy that admits every role and lets the owner through.
    pub fn open() -> (r: Self)
        ensures
            r.allowed_roles@ == seq![
                Role::Owner,
                Role::Operator,
                Role::Contract,
                Role::Auditor,
                Role::Validator,
                Role::Admin,
            ],
            r.allow_owner_override,
            !r.requires_certification,
    {
        let mut roles: Vec<Role> = Vec::new();
        roles.push(Role::Owner);
        roles.push(Role::Operator);
        roles.push(Role::Contract);
        roles.push(Role::Auditor);
        roles.push(Role::Validator);
        roles.push(Role::Admin);
        Self { allowed_roles: roles, allow_owner_override: true, requires_certification: false }
    }
}

impl Clone for AccessPolicy {
    fn clone(&self) -> (r: Self)
        ensures
            r.same(*self),
    {
        let roles = self.allowed_roles.clone();
        assert(roles@ =~= self.allowed_roles@);
        AccessPolicy {
            allowed_roles: roles,
            allow_owner_override: self.allow_owner_override,
            requires_certification: self.requires_certification,
        }
    }
}

#[derive(Debug, PartialEq, Eq)]
pub struct AccessContext {
    pub caller_pk: String,
    pub roles: Vec<Role>,
    pub owner_pk: String,
    pub certification_required: bool,
}

/// The caller is the owner and the policy lets the owner through, or one of the caller's
/// roles is among the policy's allowed roles.
pub open spec fn authorized(ctx: AccessContext, policy: AccessPolicy) -> bool {
    ||| policy.allow_owner_override && ctx.caller_pk@ == ctx.owner_pk@
    ||| exists|i: int| 0 <= i < ctx.roles@.len() && policy.allowed_roles@.contains(#[trigger] ctx.roles@[i])
}

fn role_allowed(roles: &Vec<Role>, role: Role) -> (r: bool)
    ensures
        r == roles@.contains(role),
{
    let mut i: usize = 0;
    while i < roles.len()
        invariant
            i <= roles@.len(),
            forall|j: int| 0 <= j < i ==> roles@[j] != role,
        decreases roles@.len() - i,
    {
        if roles[i] == role {
            return true;
        }
        i = i + 1;
    }
    false
}

pub fn is_authorized(ctx: &AccessContext, policy: &AccessPolicy) -> (r: bool)
    ensures
        r == authorized(*ctx, *policy),
{
    if policy.allow_owner_override && ctx.caller_pk == ctx.owner_pk {
        return true;
    }
    let mut i: usize = 0;
    while i < ctx.roles.len()
        invariant
            i <= ctx.roles@.len(),
            !(policy.allow_owner_override && ctx.caller_pk@ == ctx.owner_pk@),
            forall|j: int| 0 <= j < i ==> !policy.allowed_roles@.contains(#[trigger] ctx.roles@[j]),
        decreases ctx.roles@.len() - i,
    {
        if role_allowed(&policy.allowed_roles, ctx.roles[i]) {
            return true;
        }
        i = i + 1;
    }
    false
}

} // verus!
