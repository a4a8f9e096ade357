use vstd::prelude::*;

use crate::certification::CertificationThreshold;
use crate::errors::{KernelError, KernelErrorKind, Result};
use crate::types::{
    all_zero, covers, dimension_mismatch_detail, negative_difference_detail, seq_sub, ContractId,
    EntityId, JsonEnvelope, ProjectionId, RecordId, SpaceId, Vector, VectorState,
};

verus! {

#[derive(Debug, Clone, Copy, PartialEq, Eq, Structural)]
pub enum ProjectionLockKind {
    Stake,
    DirectedAllocation,
    RiskEscrow,
    TaskLock,
}

#[derive(Debug, Clone, Copy, PartialEq, Eq, Structural)]
pub enum SettlementTrigger {
    Manual,
    HeightReached(u64),
    TimeReached(u64),
    ContractSignal,
    OracleSignal,
}

#[derive(Debug, Clone, Copy, PartialEq, Eq, Structural)]
pub enum DrainPolicy {
    /// No drain is applied (serialised as `None`).
    NoDrain,
    FixedBps(u32),
}

/// Which settlement outcomes a projection admits.
#[derive(Debug, Clone, Copy, PartialEq, Eq, Structural)]
pub struct SettlementRule {
    pub allow_gain: bool,
    pub allow_loss: bool,
    pub allow_partial_release: bool,
    pub allow_staged_release: bool,
    pub max_phases: u32,
}

impl SettlementRule {
    /// Gains, losses and partial releases in a single phase; no staged release.
    pub fn immediate() -> (r: Self)
        ensures
            r == (SettlementRule {
                allow_gain: true,
                allow_loss: true,
                allow_partial_release: true,
                allow_staged_release: false,
                max_phases: 1,
            }),
    {
        Self {
            allow_gain: true,
            allow_loss: true,
            allow_partial_release: true,
            allow_staged_release: false,
            max_phases: 1,
        }
    }
}

pub(crate) fn clone_contract_id(id: &Option<ContractId>) -> (r: Option<ContractId>)
    ensures
        r == *id,
{
    match id {
        Some(c) => Some(c.clone()),
        None => None,
    }
}

pub(crate) fn clone_record_ids(ids: &Vec<RecordId>) -> (r: Vec<RecordId>)
    ensures
        r@ == ids@,
{
    let mut out: Vec<RecordId> = Vec::new();
    let mut i: usize = 0;
    while i < ids.len()
        invariant
            i <= ids@.len(),
            out@ == ids@.take(i as int),
        decreases ids@.len() - i,
    {
        out.push(ids[i].clone());
        i = i + 1;
        assert(out@ =~= ids@.take(i as int));
    }
    assert(out@ =~= ids@);
    out
}

#[derive(Debug, PartialEq, Eq)]
pub struct ProjectionRequest {
    pub projection_id: ProjectionId,
    pub source_entity_id: EntityId,
    pub source_space_id: SpaceId,
    pub contract_id: Option<ContractId>,
    pub source_state: VectorState,
    pub locked_amount: Vector,
    pub lock_kind: ProjectionLockKind,
    pub rule_environment: String,
    pub settlement_rule: SettlementRule,
    pub settlement_trigger: SettlementTrigger,
    pub drain_policy: DrainPolicy,
    pub certification_threshold: CertificationThreshold,
    pub created_by_pk: String,
    pub parent_record_ids: Vec<RecordId>,
}

impl ProjectionRequest {
    /// Field-by-field equality, comparing vectors and lists by their contents.
    pub open spec fn same(self, other: ProjectionRequest) -> bool {
        &&& self.projection_id == other.projection_id
        &&& self.source_entity_id == other.source_entity_id
        &&& self.source_space_id == other.source_space_id
        &&& self.contract_id == other.contract_id
        &&& self.source_state.same(other.source_state)
        &&& self.locked_amount@ == other.locked_amount@
        &&& self.lock_kind == other.lock_kind
        &&& self.rule_environment == other.rule_environment
        &&& self.settlement_rule == other.settlement_rule
        &&& self.settlement_trigger == other.settlement_trigger
        &&& self.drain_policy == other.drain_policy
        &&& self.certification_threshold == other.certification_threshold
        &&& self.created_by_pk == other.created_by_pk
        &&& self.parent_record_ids@ == other.parent_record_ids@
    }

    /// The source vector and the locked amount have the same dimension, the source covers the
    /// locked amount component by component, and the locked amount is not zero.
    pub open spec fn acceptable(self) -> bool {
        &&& covers(self.source_state.vector@, self.locked_amount@)
        &&& !all_zero(self.locked_amount@)
    }
}

impl Clone for ProjectionRequest {
    fn clone(&self) -> (r: Self)
        ensures
            r.same(*self),
    {
        ProjectionRequest {
            projection_id: self.projection_id.clone(),
            source_entity_id: self.source_entity_id.clone(),
            source_space_id: self.source_space_id.clone(),
            contract_id: clone_contract_id(&self.contract_id),
            source_state: self.source_state.clone(),
            locked_amount: self.locked_amount.clone(),
            lock_kind: self.lock_kind,
            rule_environment: self.rule_environment.clone(),
            settlement_rule: self.settlement_rule,
            settlement_trigger: self.settlement_trigger,
            drain_policy: self.drain_policy,
            certification_threshold: self.certification_threshold,
            created_by_pk: self.created_by_pk.clone(),
            parent_record_ids: clone_record_ids(&self.parent_record_ids),
        }
    }
}

#[derive(Debug, Clone, Copy, PartialEq, Eq, Structural)]
pub enum ProjectionStatus {
    Active,
    Settling,
    Settled,
    Staged { remaining_phases: u32 },
    Revoked,
}

impl ProjectionStatus {
    /// Active and staged projections can still be settled.
    pub open spec fn settleable(self) -> bool {
        self is Active || self is Staged
    }
}

#[derive(Debug, PartialEq, Eq)]
pub struct ProjectionEnvelope {
    pub projection_id: ProjectionId,
    pub source_entity_id: EntityId,
    pub source_space_id: SpaceId,
    pub contract_id: Option<ContractId>,
    pub original_vector: Vector,
    pub remaining_vector: Vector,
    pub locked_vector: Vector,
    pub escrow_vector: Vector,
    pub lock_kind: ProjectionLockKind,
    pub rule_environment: String,
    pub settlement_rule: SettlementRule,
    pub settlement_trigger: SettlementTrigger,
    pub drain_policy: DrainPolicy,
    pub certification_threshold: CertificationThreshold,
    pub status: ProjectionStatus,
    pub created_record_id: RecordId,
    pub settlement_record_id: Option<RecordId>,
    pub created_by_pk: String,
}

/// The error `ensure_settleable` reports for a projection in `status`, if any.
pub open spec fn status_failure(status: ProjectionStatus, id: Seq<char>) -> Option<
    (KernelErrorKind, Seq<char>),
> {
    match status {
        ProjectionStatus::Active => None,
        ProjectionStatus::Staged { .. } => None,
        ProjectionStatus::Settled => Some(
            (KernelErrorKind::DoubleReconstruction, "projection "@ + id + " already settled"@),
        ),
        ProjectionStatus::Settling => Some(
            (KernelErrorKind::InvalidState, "projection "@ + id + " is already settling"@),
        ),
        ProjectionStatus::Revoked => Some(
            (KernelErrorKind::InvalidState, "projection "@ + id + " is revoked"@),
        ),
    }
}

impl ProjectionEnvelope {
    /// Field-by-field equality, comparing vectors by their contents.
    pub open spec fn same(self, other: ProjectionEnvelope) -> bool {
        &&& self.projection_id == other.projection_id
        &&& self.source_entity_id == other.source_entity_id
        &&& self.source_space_id == other.source_space_id
        &&& self.contract_id == other.contract_id
        &&& self.original_vector@ == other.original_vector@
        &&& self.remaining_vector@ == other.remaining_vector@
        &&& self.locked_vector@ == other.locked_vector@
        &&& self.escrow_vector@ == other.escrow_vector@
        &&& self.lock_kind == other.lock_kind
        &&& self.rule_environment == other.rule_environment
        &&& self.settlement_rule == other.settlement_rule
        &&& self.settlement_trigger == other.settlement_trigger
        &&& self.drain_policy == other.drain_policy
        &&& self.certification_threshold == other.certification_threshold
        &&& self.status == other.status
        &&& self.created_record_id == other.created_record_id
        &&& self.settlement_record_id == other.settlement_record_id
        &&& self.created_by_pk == other.created_by_pk
    }

    /// The envelope that projecting `request` under `record_id` produces: the source keeps
    /// what is not locked, the locked amount is also held in escrow, and the projection is active.
    pub open spec fn projected_from(self, request: ProjectionRequest, record_id: RecordId) -> bool {
        &&& self.projection_id == request.projection_id
        &&& self.source_entity_id == request.source_entity_id
        &&& self.source_space_id == request.source_space_id
        &&& self.contract_id == request.contract_id
        &&& self.original_vector@ == request.source_state.vector@
        &&& self.remaining_vector@ == seq_sub(request.source_state.vector@, request.locked_amount@)
        &&& self.locked_vector@ == request.locked_amount@
        &&& self.escrow_vector@ == request.locked_amount@
        &&& self.lock_kind == request.lock_kind
        &&& self.rule_environment == request.rule_environment
        &&& self.settlement_rule == request.settlement_rule
        &&& self.settlement_trigger == request.settlement_trigger
        &&& self.drain_policy == request.drain_policy
        &&& self.certification_threshold == request.certification_threshold
        &&& self.status == ProjectionStatus::Active
        &&& self.created_record_id == record_id
        &&& self.settlement_record_id is None
        &&& self.created_by_pk == request.created_by_pk
    }

    pub fn is_active(&self) -> (r: bool)
        ensures
            r == self.status.settleable(),
    {
        match self.status {
            ProjectionStatus::Active | ProjectionStatus::Staged { .. } => true,
            _ => false,
        }
    }

    pub fn ensure_settleable(&self) -> (r: Result<()>)
        ensures
            status_failure(self.status, self.projection_id.0@) is None ==> r is Ok,
            status_failure(self.status, self.projection_id.0@) matches Some(f) ==> (r matches Err(e)
                && e.is(f.0, f.1)),
    {
        match self.status {
            ProjectionStatus::Active | ProjectionStatus::Staged { .. } => Ok(()),
            ProjectionStatus::Settled => Err(KernelError::DoubleReconstruction(
                String::from_str("projection ").concat(self.projection_id.0.as_str()).concat(
                    " already settled",
                ),
            )),
            ProjectionStatus::Settling => Err(KernelError::InvalidState(
                String::from_str("projection ").concat(self.projection_id.0.as_str()).concat(
                    " is already settling",
                ),
            )),
            ProjectionStatus::Revoked => Err(KernelError::InvalidState(
                String::from_str("projection ").concat(self.projection_id.0.as_str()).concat(
                    " is revoked",
                ),
            )),
        }
    }
}

pub(crate) fn clone_record_id_option(id: &Option<RecordId>) -> (r: Option<RecordId>)
    ensures
        r == *id,
{
    match id {
        Some(c) => Some(c.clone()),
        None => None,
    }
}

impl Clone for ProjectionEnvelope {
    fn clone(&self) -> (r: Self)
        ensures
            r.same(*self),
    {
        ProjectionEnvelope {
            projection_id: self.projection_id.clone(),
            source_entity_id: self.source_entity_id.clone(),
            source_space_id: self.source_space_id.clone(),
            contract_id: clone_contract_id(&self.contract_id),
            original_vector: self.original_vector.clone(),
            remaining_vector: self.remaining_vector.clone(),
            locked_vector: self.locked_vector.clone(),
            escrow_vector: self.escrow_vector.clone(),
            lock_kind: self.lock_kind,
            rule_environment: self.rule_environment.clone(),
            settlement_rule: self.settlement_rule,
            settlement_trigger: self.settlement_trigger,
            drain_policy: self.drain_policy,
            certification_threshold: self.certification_threshold,
            status: self.status,
            created_record_id: self.created_record_id.clone(),
            settlement_record_id: clone_record_id_option(&self.settlement_record_id),
            created_by_pk: self.created_by_pk.clone(),
        }
    }
}

#[derive(Debug, PartialEq, Eq)]
pub struct ProjectionResult {
    pub envelope: ProjectionEnvelope,
    pub record_payload: JsonEnvelope,
}

/// The error `build_projection_envelope` reports for `request`, if any.
pub open spec fn projection_failure(request: ProjectionRequest) -> Option<(KernelErrorKind, Seq<char>)> {
    let source = request.source_state.vector@;
    let locked = request.locked_amount@;
    if source.len() != locked.len() {
        Some((KernelErrorKind::TypeMismatch, dimension_mismatch_detail(source.len(), locked.len())))
    } else if !covers(source, locked) {
        Some((KernelErrorKind::InvalidState, negative_difference_detail()))
    } else if all_zero(locked) {
        Some((KernelErrorKind::ZeroVectorViolation, "projection locked amount cannot be zero"@))
    } else {
        None
    }
}

/// Isolates the locked amount of the source vector into a new active projection envelope.
pub fn build_projection_envelope(request: &ProjectionRequest, projection_record_id: RecordId) -> (r:
    Result<ProjectionEnvelope>)
    ensures
        projection_failure(*request) is None <==> request.acceptable(),
        projection_failure(*request) matches Some(f) ==> (r matches Err(e) && e.is(f.0, f.1)),
        projection_failure(*request) is None ==> (r matches Ok(env) && env.projected_from(
            *request,
            projection_record_id,
        )),
{
    request.source_state.vector.ensure_same_dim(&request.locked_amount)?;
    let remaining = request.source_state.vector.checked_sub_vector(&request.locked_amount)?;
    if request.locked_amount.is_zero() {
        return Err(KernelError::ZeroVectorViolation(
            String::from_str("projection locked amount cannot be zero"),
        ));
    }
    let escrow_vector = request.locked_amount.clone();
    Ok(ProjectionEnvelope {
        projection_id: request.projection_id.clone(),
        source_entity_id: request.source_entity_id.clone(),
        source_space_id: request.source_space_id.clone(),
        contract_id: clone_contract_id(&request.contract_id),
        original_vector: request.source_state.vector.clone(),
        remaining_vector: remaining,
        locked_vector: request.locked_amount.clone(),
        escrow_vector,
        lock_kind: request.lock_kind,
        rule_environment: request.rule_environment.clone(),
        settlement_rule: request.settlement_rule,
        settlement_trigger: request.settlement_trigger,
        drain_policy: request.drain_policy,
        certification_threshold: request.certification_threshold,
        status: ProjectionStatus::Active,
        created_record_id: projection_record_id,
        settlement_record_id: None,
        created_by_pk: request.created_by_pk.clone(),
    })
}

} // verus!
