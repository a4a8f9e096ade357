use vstd::prelude::*;

use crate::access::{authorized, is_authorized, AccessContext, AccessPolicy, Role};
use crate::canonical::{
    json_string, lemma_regroup, lit, push_json_string, push_lit, push_vector, vector_json,
};
use crate::certification::{CertificationReport, CertificationState};
use crate::errors::{KernelError, KernelErrorKind, Result};
use crate::keyed::KeyedMap;
use crate::projection::SettlementRule;
use crate::reconstruction::SettlementOutcome;
use crate::types::{
    seq_scale, zeros, ContractId, EntityId, JsonEnvelope, ProjectionId, SpaceId, Vector,
};
use crate::utils::AUTH_RATIO_SCALE;

verus! {

#[derive(Debug, PartialEq, Eq)]
pub struct ContractMetadata {
    pub contract_id: ContractId,
    pub name: String,
    pub version: String,
    pub description: String,
    pub owner_pk: String,
    pub access_policy: AccessPolicy,
    pub settlement_rule: SettlementRule,
}

impl ContractMetadata {
    /// Field-by-field equality, comparing role lists by their contents.
    pub open spec fn same(self, other: ContractMetadata) -> bool {
        &&& self.contract_id == other.contract_id
        &&& self.name == other.name
        &&& self.version == other.version
        &&& self.description == other.description
        &&& self.owner_pk == other.owner_pk
        &&& self.access_policy.same(other.access_policy)
        &&& self.settlement_rule == other.settlement_rule
    }
}

impl Clone for ContractMetadata {
    fn clone(&self) -> (r: Self)
        ensures
            r.same(*self),
    {
        ContractMetadata {
            contract_id: self.contract_id.clone(),
            name: self.name.clone(),
            version: self.version.clone(),
            description: self.description.clone(),
            owner_pk: self.owner_pk.clone(),
            access_policy: self.access_policy.clone(),
            settlement_rule: self.settlement_rule,
        }
    }
}

#[derive(Debug, PartialEq, Eq)]
pub struct ContractContext {
    pub contract_id: ContractId,
    pub space_id: SpaceId,
    pub projection_id: ProjectionId,
    pub entity_id: EntityId,
    pub caller_pk: String,
    pub roles: Vec<Role>,
    pub certification: CertificationReport,
    pub projected_vector: Vector,
    pub locked_vector: Vector,
    pub live_remaining: Vector,
    pub environment: JsonEnvelope,
}

#[derive(Debug, Clone, PartialEq, Eq)]
pub struct ContractDecision {
    pub allow: bool,
    pub reason: Option<String>,
    pub modified_settlement_rule: Option<SettlementRule>,
    pub settlement_outcome: Option<SettlementOutcome>,
    pub emitted_metadata: JsonEnvelope,
}

/// A contract that authorizes, denies or shapes a projection's lifecycle.
pub trait Contract: Send + Sync {
    /// The metadata the contract reports.
    spec fn metadata_spec(&self) -> ContractMetadata;

    /// `r` is what the contract's evaluation of `ctx` returns.
    spec fn evaluated(&self, ctx: ContractContext, r: Result<ContractDecision>) -> bool;

    fn metadata(&self) -> (r: &ContractMetadata)
        ensures
            *r == self.metadata_spec(),
    ;

    fn evaluate(&self, ctx: &ContractContext) -> (r: Result<ContractDecision>)
        ensures
            self.evaluated(*ctx, r),
    ;
}

/// A contract as the registry holds it: behind `dyn Contract`.
struct BoundContract {
    contract: Box<dyn Contract>,
}

/// Boxes `contract` as a `Box<dyn Contract>` for the registry (std's `Box::new` and its
/// unsizing coercion). Claimed: the trait object reports the same metadata and reaches the same
/// evaluations as `contract`, since dynamic dispatch calls `C`'s own methods.
#[verifier::external_body]
fn bind_contract<C: Contract + 'static>(contract: C) -> (r: BoundContract)
    ensures
        r.contract.metadata_spec() == contract.metadata_spec(),
        forall|ctx: ContractContext, res: Result<ContractDecision>|
            #[trigger] r.contract.evaluated(ctx, res) == contract.evaluated(ctx, res),
{
    BoundContract { contract: Box::new(contract) }
}

/// Borrows the contract a registry entry holds, if any, as `&dyn Contract` (std's `Deref` for
/// `Box`). Claimed: the borrowed trait object reports the same metadata and reaches the same
/// evaluations as the boxed one, since both dispatch to the same value's methods.
#[verifier::external_body]
fn borrow_contract(bound: Option<&BoundContract>) -> (r: Option<&dyn Contract>)
    ensures
        r is Some <==> bound is Some,
        r is Some ==> r->Some_0.metadata_spec() == bound->Some_0.contract.metadata_spec(),
        r is Some ==> forall|ctx: ContractContext, res: Result<ContractDecision>|
            #[trigger] r->Some_0.evaluated(ctx, res) == bound->Some_0.contract.evaluated(ctx, res),
{
    match bound {
        Some(b) => Some(&*b.contract),
        None => None,
    }
}

/// The contracts a kernel knows, by contract id.
pub struct ContractRegistry {
    contracts: KeyedMap<BoundContract>,
}

impl View for ContractRegistry {
    /// Each bound id with the contract bound to it.
    type V = Map<Seq<char>, Box<dyn Contract>>;

    closed spec fn view(&self) -> Map<Seq<char>, Box<dyn Contract>> {
        Map::new(
            |id: Seq<char>| self.contracts@.dom().contains(id),
            |id: Seq<char>| self.contracts@[id].contract,
        )
    }
}

impl Default for ContractRegistry {
    fn default() -> (r: Self)
        ensures
            r@ == Map::<Seq<char>, Box<dyn Contract>>::empty(),
    {
        let r = ContractRegistry { contracts: KeyedMap::new() };
        assert(r@ =~= Map::<Seq<char>, Box<dyn Contract>>::empty());
        r
    }
}

impl ContractRegistry {
    /// Binds `contract` to the id its metadata names, replacing any contract bound to that id;
    /// every other binding stays as it was.
    pub fn register<C: Contract + 'static>(&mut self, contract: C)
        ensures
            ({
                let id = contract.metadata_spec().contract_id.0@;
                &&& final(self)@.dom() == old(self)@.dom().insert(id)
                &&& final(self)@[id].metadata_spec() == contract.metadata_spec()
                &&& forall|ctx: ContractContext, res: Result<ContractDecision>|
                    #[trigger] final(self)@[id].evaluated(ctx, res) == contract.evaluated(ctx, res)
                &&& forall|k: Seq<char>|
                    k != id && #[trigger] old(self)@.dom().contains(k) ==> final(self)@[k] == old(self)@[k]
            }),
    {
        let key = contract.metadata().contract_id.0.clone();
        let ghost old_map = self.contracts@;
        self.contracts.insert(key, bind_contract(contract));
        assert(self@.dom() =~= old(self)@.dom().insert(contract.metadata_spec().contract_id.0@));
        assert forall|k: Seq<char>|
            k != contract.metadata_spec().contract_id.0@ && #[trigger] old(self)@.dom().contains(k)
                implies self@[k] == old(self)@[k] by {
            assert(old_map.dom().contains(k));
        }
    }

    /// The contract bound to `contract_id`, if any.
    pub fn get(&self, contract_id: &ContractId) -> (r: Option<&dyn Contract>)
        ensures
            r is Some <==> self@.dom().contains(contract_id.0@),
            r matches Some(c) ==> c.metadata_spec() == self@[contract_id.0@].metadata_spec(),
            r matches Some(c) ==> forall|ctx: ContractContext, res: Result<ContractDecision>|
                #[trigger] c.evaluated(ctx, res) == self@[contract_id.0@].evaluated(ctx, res),
    {
        borrow_contract(self.contracts.get(contract_id.0.as_str()))
    }

    /// Evaluates `ctx` with the contract bound to `contract_id`; `None` when no contract is
    /// bound to it.
    pub fn evaluate_bound(&self, contract_id: &ContractId, ctx: &ContractContext) -> (r: Option<
        Result<ContractDecision>,
    >)
        ensures
            r is None <==> !self@.dom().contains(contract_id.0@),
            r matches Some(res) ==> self@[contract_id.0@].evaluated(*ctx, res),
    {
        match self.contracts.get(contract_id.0.as_str()) {
            Some(bound) => Some(bound.contract.evaluate(ctx)),
            None => None,
        }
    }
}

#[derive(Debug, PartialEq, Eq)]
pub struct StakeDirective {
    pub staked_vector: Vector,
    pub directed_allocation: Vector,
    pub reward_vector: Vector,
    pub loss_vector: Vector,
    pub access_allowed: bool,
}

/// A stake contract: the caller must pass the access policy and be certified; the locked
/// vector is then released in a single staged phase.
pub struct DefaultStakeContract {
    metadata: ContractMetadata,
}

impl DefaultStakeContract {
    pub fn new(metadata: ContractMetadata) -> (r: Self)
        ensures
            r.metadata_spec() == metadata,
    {
        Self { metadata }
    }
}

/// The access request the default stake contract makes on behalf of a caller.
pub open spec fn stake_access(ctx: ContractContext, metadata: ContractMetadata) -> AccessContext {
    AccessContext {
        caller_pk: ctx.caller_pk,
        roles: ctx.roles,
        owner_pk: metadata.owner_pk,
        certification_required: true,
    }
}

/// `{"directed_allocation":..,"projection":..,"reward":..,"space":..,"staked":..}`
pub open spec fn stake_metadata_json(ctx: ContractContext) -> Seq<u8> {
    let locked = ctx.locked_vector@;
    lit("{\"directed_allocation\":"@) + vector_json(seq_scale(locked, 10_000, AUTH_RATIO_SCALE as u128))
        + lit(",\"projection\":"@) + json_string(ctx.projection_id.0@) + lit(",\"reward\":"@)
        + vector_json(seq_scale(locked, 25_000, AUTH_RATIO_SCALE as u128)) + lit(",\"space\":"@)
        + json_string(ctx.space_id.0@) + lit(",\"staked\":"@) + vector_json(locked) + lit("}"@)
}

fn stake_metadata(ctx: &ContractContext, allocation: &Vector, reward: &Vector) -> (r: JsonEnvelope)
    requires
        allocation@ == seq_scale(ctx.locked_vector@, 10_000, AUTH_RATIO_SCALE as u128),
        reward@ == seq_scale(ctx.locked_vector@, 25_000, AUTH_RATIO_SCALE as u128),
    ensures
        r.0@ == stake_metadata_json(*ctx),
{
    let mut buf: Vec<u8> = Vec::new();
    let ghost start = buf@;
    push_lit(&mut buf, "{\"directed_allocation\":");
    let ghost mut acc = lit("{\"directed_allocation\":"@);
    push_vector(&mut buf, allocation);
    proof {
        lemma_regroup(start, acc, vector_json(allocation@));
        acc = acc + vector_json(allocation@);
    }
    push_lit(&mut buf, ",\"projection\":");
    proof {
        lemma_regroup(start, acc, lit(",\"projection\":"@));
        acc = acc + lit(",\"projection\":"@);
    }
    push_json_string(&mut buf, ctx.projection_id.0.as_str());
    proof {
        lemma_regroup(start, acc, json_string(ctx.projection_id.0@));
        acc = acc + json_string(ctx.projection_id.0@);
    }
    push_lit(&mut buf, ",\"reward\":");
    proof {
        lemma_regroup(start, acc, lit(",\"reward\":"@));
        acc = acc + lit(",\"reward\":"@);
    }
    push_vector(&mut buf, reward);
    proof {
        lemma_regroup(start, acc, vector_json(reward@));
        acc = acc + vector_json(reward@);
    }
    push_lit(&mut buf, ",\"space\":");
    proof {
        lemma_regroup(start, acc, lit(",\"space\":"@));
        acc = acc + lit(",\"space\":"@);
    }
    push_json_string(&mut buf, ctx.space_id.0.as_str());
    proof {
        lemma_regroup(start, acc, json_string(ctx.space_id.0@));
        acc = acc + json_string(ctx.space_id.0@);
    }
    push_lit(&mut buf, ",\"staked\":");
    proof {
        lemma_regroup(start, acc, lit(",\"staked\":"@));
        acc = acc + lit(",\"staked\":"@);
    }
    push_vector(&mut buf, &ctx.locked_vector);
    proof {
        lemma_regroup(start, acc, vector_json(ctx.locked_vector@));
        acc = acc + vector_json(ctx.locked_vector@);
    }
    push_lit(&mut buf, "}");
    proof {
        lemma_regroup(start, acc, lit("}"@));
        acc = acc + lit("}"@);
    }
    assert(acc == stake_metadata_json(*ctx));
    assert(buf@ =~= stake_metadata_json(*ctx));
    JsonEnvelope(buf)
}

fn text_envelope(s: &str) -> (r: JsonEnvelope)
    ensures
        r.0@ == lit(s@),
{
    let mut buf: Vec<u8> = Vec::new();
    push_lit(&mut buf, s);
    assert(buf@ =~= lit(s@));
    JsonEnvelope(buf)
}

impl DefaultStakeContract {
    /// The decision `evaluate` reaches for `ctx`: `d` is that decision.
    pub open spec fn decides(&self, ctx: ContractContext, d: ContractDecision) -> bool {
        let metadata = self.metadata_spec();
        if !authorized(stake_access(ctx, metadata), metadata.access_policy) {
            &&& !d.allow
            &&& d.reason matches Some(m) && m@ == "access policy denied the caller"@
            &&& d.modified_settlement_rule is None
            &&& d.settlement_outcome is None
            &&& d.emitted_metadata.0@ == lit("{\"allow\":false}"@)
        } else if ctx.certification.state != CertificationState::Certified {
            &&& !d.allow
            &&& d.reason matches Some(m) && m@ == "caller vector is not certified"@
            &&& d.modified_settlement_rule is None
            &&& d.settlement_outcome is None
            &&& d.emitted_metadata.0@ == lit("{\"allow\":false,\"reason\":\"uncertified\"}"@)
        } else {
            &&& d.allow
            &&& d.reason matches Some(m) && m@ == "projection accepted by default stake contract"@
            &&& d.modified_settlement_rule == Some(metadata.settlement_rule)
            &&& d.settlement_outcome matches Some(
                SettlementOutcome::StagedRelease { released, remaining_locked, remaining_phases },
            )
            &&& released@ == ctx.locked_vector@
            &&& remaining_locked@ == zeros(ctx.locked_vector@.len())
            &&& remaining_phases == 1
            &&& d.emitted_metadata.0@ == stake_metadata_json(ctx)
        }
    }
}

impl Contract for DefaultStakeContract {
    closed spec fn metadata_spec(&self) -> ContractMetadata {
        self.metadata
    }

    /// The evaluation always succeeds, with the decision `decides` describes.
    open spec fn evaluated(&self, ctx: ContractContext, r: Result<ContractDecision>) -> bool {
        r matches Ok(d) && self.decides(ctx, d)
    }

    fn metadata(&self) -> (r: &ContractMetadata) {
        &self.metadata
    }

    fn evaluate(&self, ctx: &ContractContext) -> (r: Result<ContractDecision>) {
        let roles = ctx.roles.clone();
        assert(roles@ =~= ctx.roles@);
        let access_ctx = AccessContext {
            caller_pk: ctx.caller_pk.clone(),
            roles,
            owner_pk: self.metadata.owner_pk.clone(),
            certification_required: true,
        };
        let allowed = is_authorized(&access_ctx, &self.metadata.access_policy);
        proof {
            assert(access_ctx.roles@ == stake_access(*ctx, self.metadata).roles@);
            if authorized(access_ctx, self.metadata.access_policy) {
                if !(self.metadata.access_policy.allow_owner_override && access_ctx.caller_pk@
                    == access_ctx.owner_pk@) {
                    let i = choose|i: int|
                        0 <= i < access_ctx.roles@.len()
                            && self.metadata.access_policy.allowed_roles@.contains(
                            #[trigger] access_ctx.roles@[i],
                        );
                    assert(self.metadata.access_policy.allowed_roles@.contains(ctx.roles@[i]));
                }
            }
            if authorized(stake_access(*ctx, self.metadata), self.metadata.access_policy) {
                if !(self.metadata.access_policy.allow_owner_override && ctx.caller_pk@
                    == self.metadata.owner_pk@) {
                    let i = choose|i: int|
                        0 <= i < ctx.roles@.len()
                            && self.metadata.access_policy.allowed_roles@.contains(
                            #[trigger] ctx.roles@[i],
                        );
                    assert(self.metadata.access_policy.allowed_roles@.contains(access_ctx.roles@[i]));
                }
            }
        }
        if !allowed {
            return Ok(ContractDecision {
                allow: false,
                reason: Some(String::from_str("access policy denied the caller")),
                modified_settlement_rule: None,
                settlement_outcome: None,
                emitted_metadata: text_envelope("{\"allow\":false}"),
            });
        }
        if ctx.certification.state != CertificationState::Certified {
            return Ok(ContractDecision {
                allow: false,
                reason: Some(String::from_str("caller vector is not certified")),
                modified_settlement_rule: None,
                settlement_outcome: None,
                emitted_metadata: text_envelope("{\"allow\":false,\"reason\":\"uncertified\"}"),
            });
        }
        let reward = ctx.locked_vector.scale_bps(25_000);
        let allocation = ctx.locked_vector.scale_bps(10_000);
        let rule = self.metadata.settlement_rule;
        let outcome = SettlementOutcome::StagedRelease {
            released: ctx.locked_vector.clone(),
            remaining_locked: Vector::zero(ctx.locked_vector.len()),
            remaining_phases: 1,
        };
        let emitted_metadata = stake_metadata(ctx, &allocation, &reward);
        Ok(ContractDecision {
            allow: true,
            reason: Some(String::from_str("projection accepted by default stake contract")),
            modified_settlement_rule: Some(rule),
            settlement_outcome: Some(outcome),
            emitted_metadata,
        })
    }
}

/// Evaluates `ctx` with the bound contract; without a binding the request is refused.
pub fn require_contract(contract: Option<&dyn Contract>, ctx: &ContractContext) -> (r: Result<
    ContractDecision,
>)
    ensures
        contract is None ==> (r matches Err(e) && e.is(
            KernelErrorKind::ContractError,
            "missing contract binding"@,
        )),
        contract matches Some(c) ==> c.evaluated(*ctx, r),
{
    match contract {
        Some(contract) => contract.evaluate(ctx),
        None => Err(KernelError::ContractError(String::from_str("missing contract binding"))),
    }
}

/// The detail of the error a denying decision turns into.
pub open spec fn denial_detail(decision: ContractDecision) -> Seq<char> {
    match decision.reason {
        Some(m) => m@,
        None => "contract denied projection"@,
    }
}

/// Whether a contract's decision lets a projection proceed: an allowing decision does; a
/// denying one is a contract error carrying the decision's reason.
pub fn admit_projection(decision: ContractDecision) -> (r: Result<()>)
    ensures
        decision.allow ==> r is Ok,
        !decision.allow ==> (r matches Err(e) && e.is(
            KernelErrorKind::ContractError,
            denial_detail(decision),
        )),
{
    if !decision.allow {
        let detail = match decision.reason {
            Some(m) => m,
            None => String::from_str("contract denied projection"),
        };
        return Err(KernelError::ContractError(detail));
    }
    Ok(())
}

} // verus!
