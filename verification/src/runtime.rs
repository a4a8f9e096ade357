use vstd::prelude::*;

use crate::canonical::{
    certify_parameters, certify_parameters_json, create_parameters, create_parameters_json,
    opt_text, project_parameters, project_parameters_json, reconstruct_parameters,
    reconstruct_parameters_json,
};
use crate::certification::{
    auth_ratio_value, certification_failure, certify, weighted_sum, AuthInputs, AuthRatio, CertificationContext,
    CertificationReport, CertificationState,
};
use crate::contract::{
    admit_projection, denial_detail, Contract, ContractContext, ContractDecision, ContractRegistry,
};
use crate::errors::{KernelError, KernelErrorKind, Result};
use crate::keyed::KeyedMap;
use crate::projection::{
    build_projection_envelope, projection_failure, status_failure, ProjectionEnvelope,
    ProjectionRequest, ProjectionStatus,
};
use crate::reconstruction::{
    reconstruct_projection, reconstruction_step, settled_by, ReconstructionReceipt,
    ReconstructionRequest, SettlementOutcome,
};
use crate::record::{make_record_id, record_id_text, Record};
use crate::types::{
    all_zero, fits_u64, seq_sat_add, seq_sub, zeros, EntityId, LogicalClock, OperationKind, RecordId,
    RegionId, SpaceId, Timestamp, Vector, VectorState, VectorTypeTag, Wallet,
};
use crate::utils::AUTH_RATIO_SCALE;

verus! {

#[derive(Debug, PartialEq, Eq)]
pub struct KernelContext {
    pub protocol_version: String,
    pub space_id: SpaceId,
    pub region_id: RegionId,
    pub timestamp: Timestamp,
    pub logical_clock: LogicalClock,
}

impl Clone for KernelContext {
    fn clone(&self) -> (r: Self)
        ensures
            r == *self,
    {
        KernelContext {
            protocol_version: self.protocol_version.clone(),
            space_id: self.space_id.clone(),
            region_id: self.region_id.clone(),
            timestamp: self.timestamp,
            logical_clock: self.logical_clock,
        }
    }
}

/// What the kernel knows of an entity now.
#[derive(Debug, PartialEq, Eq)]
pub struct LiveEntityState {
    pub entity_id: EntityId,
    pub wallet: Wallet,
    pub vector_state: VectorState,
    pub certification: CertificationReport,
    pub active_projection: Option<ProjectionEnvelope>,
}

impl LiveEntityState {
    /// Field-by-field equality, comparing vectors and JSON by their contents.
    pub open spec fn same(self, other: LiveEntityState) -> bool {
        &&& self.entity_id == other.entity_id
        &&& self.wallet.same(other.wallet)
        &&& self.vector_state.same(other.vector_state)
        &&& self.certification == other.certification
        &&& match (self.active_projection, other.active_projection) {
            (Some(a), Some(b)) => a.same(b),
            (None, None) => true,
            _ => false,
        }
    }
}

impl Clone for LiveEntityState {
    fn clone(&self) -> (r: Self)
        ensures
            r.same(*self),
    {
        LiveEntityState {
            entity_id: self.entity_id.clone(),
            wallet: self.wallet.clone(),
            vector_state: self.vector_state.clone(),
            certification: self.certification.clone(),
            active_projection: match &self.active_projection {
                Some(p) => Some(p.clone()),
                None => None,
            },
        }
    }
}

/// The append-only log of records.
#[derive(Debug)]
pub struct EventStore {
    records: Vec<Record>,
}

impl View for EventStore {
    type V = Seq<Record>;

    closed spec fn view(&self) -> Seq<Record> {
        self.records@
    }
}

impl Default for EventStore {
    fn default() -> (r: Self)
        ensures
            r@ == Seq::<Record>::empty(),
    {
        EventStore { records: Vec::new() }
    }
}

impl EventStore {
    pub fn append(&mut self, record: Record)
        ensures
            final(self)@ == old(self)@.push(record),
    {
        self.records.push(record);
    }

    pub fn all(&self) -> (r: &[Record])
        ensures
            r@ == self@,
    {
        self.records.as_slice()
    }
}

/// Caches derived from the records: live entity states and projection envelopes, by id.
#[derive(Debug)]
pub struct DerivedStateCache {
    pub entity_states: KeyedMap<LiveEntityState>,
    pub projection_states: KeyedMap<ProjectionEnvelope>,
}

impl Default for DerivedStateCache {
    fn default() -> (r: Self)
        ensures
            r.entity_states@ == Map::<Seq<char>, LiveEntityState>::empty(),
            r.projection_states@ == Map::<Seq<char>, ProjectionEnvelope>::empty(),
    {
        DerivedStateCache { entity_states: KeyedMap::new(), projection_states: KeyedMap::new() }
    }
}

pub struct Kernel {
    pub context: KernelContext,
    pub event_store: EventStore,
    pub derived: DerivedStateCache,
    pub contracts: ContractRegistry,
}

/// `rec` carries the context's space, region, time, clock and protocol version, no signature,
/// and describes a successful transition.
pub open spec fn stamped_by(rec: Record, ctx: KernelContext) -> bool {
    &&& rec.space_id == ctx.space_id
    &&& rec.region_id == ctx.region_id
    &&& rec.timestamp == ctx.timestamp
    &&& rec.logical_clock == ctx.logical_clock
    &&& rec.version == ctx.protocol_version
    &&& rec.signature is None
    &&& !rec.is_failure
    &&& rec.failure_reason is None
}

/// `new` is `old` with one more record at its end, equal to `rec`, which is sealed.
pub open spec fn appended(old: Seq<Record>, new: Seq<Record>, rec: Record) -> bool {
    &&& new.len() == old.len() + 1
    &&& new.drop_last() == old
    &&& new.last().same(rec)
    &&& rec.sealed()
}

/// `a` and `b` agree on every field but the hash.
pub open spec fn same_but_hash(a: Record, b: Record) -> bool {
    &&& a.record_id == b.record_id
    &&& a.parent_record_ids@ == b.parent_record_ids@
    &&& a.event_kind == b.event_kind
    &&& a.space_id == b.space_id
    &&& a.region_id == b.region_id
    &&& a.entity_id == b.entity_id
    &&& a.projection_id == b.projection_id
    &&& a.v_before@ == b.v_before@
    &&& a.v_after@ == b.v_after@
    &&& a.parameters.0@ == b.parameters.0@
    &&& a.certification_state == b.certification_state
    &&& a.auth_ratio == b.auth_ratio
    &&& a.timestamp == b.timestamp
    &&& a.logical_clock == b.logical_clock
    &&& a.proof == b.proof
    &&& a.initiator_pk == b.initiator_pk
    &&& a.signature == b.signature
    &&& a.version == b.version
    &&& a.settlement_ref == b.settlement_ref
    &&& a.is_failure == b.is_failure
    &&& a.failure_reason == b.failure_reason
}

/// The error `create_entity` reports, if any.
pub open spec fn create_failure(vector_state: VectorState, inputs: AuthInputs, ctx: CertificationContext) -> Option<
    (KernelErrorKind, Seq<char>),
> {
    match certification_failure(inputs, ctx) {
        Some(f) => Some(f),
        None => if all_zero(vector_state.vector@) && vector_state.tau != VectorTypeTag::Zero {
            Some(
                (
                    KernelErrorKind::ZeroVectorViolation,
                    "non-zero type cannot host a zero vector on create"@,
                ),
            )
        } else {
            None
        },
    }
}

/// `rec` is the record of creating the entity of `wallet` with `vector_state`, certified by `report`.
pub open spec fn create_record(
    rec: Record,
    ctx: KernelContext,
    wallet: Wallet,
    vector_state: VectorState,
    report: CertificationReport,
) -> bool {
    &&& stamped_by(rec, ctx)
    &&& rec.record_id.0@ == record_id_text("create"@, ctx.logical_clock)
    &&& rec.parent_record_ids@ == Seq::<RecordId>::empty()
    &&& rec.event_kind == OperationKind::Create
    &&& rec.entity_id.0 == wallet.wallet_id
    &&& rec.projection_id is None
    &&& rec.v_before@ == zeros(vector_state.vector@.len())
    &&& rec.v_after@ == vector_state.vector@
    &&& rec.parameters.0@ == create_parameters_json(wallet, vector_state, report)
    &&& rec.certification_state == report.state
    &&& rec.auth_ratio == report.auth_ratio
    &&& rec.proof is None
    &&& rec.initiator_pk == vector_state.owner_pk
    &&& rec.settlement_ref is None
}

/// The error `certify_entity` reports, if any.
pub open spec fn certify_failure(
    states: Map<Seq<char>, LiveEntityState>,
    entity_id: EntityId,
    inputs: AuthInputs,
    ctx: CertificationContext,
) -> Option<(KernelErrorKind, Seq<char>)> {
    match certification_failure(inputs, ctx) {
        Some(f) => Some(f),
        None => if !states.dom().contains(entity_id.0@) {
            Some((KernelErrorKind::NotFound, entity_id.0@))
        } else {
            None
        },
    }
}

/// `rec` is the record of re-certifying `entity_id`, whose state was `prior`, with `report`.
pub open spec fn certify_record(
    rec: Record,
    ctx: KernelContext,
    entity_id: EntityId,
    prior: LiveEntityState,
    report: CertificationReport,
) -> bool {
    &&& stamped_by(rec, ctx)
    &&& rec.record_id.0@ == record_id_text("certify"@, ctx.logical_clock)
    &&& rec.parent_record_ids@ == Seq::<RecordId>::empty()
    &&& rec.event_kind == OperationKind::Certify
    &&& rec.entity_id == entity_id
    &&& rec.projection_id is None
    &&& rec.v_before@ == prior.vector_state.vector@
    &&& rec.v_after@ == prior.vector_state.vector@
    &&& rec.parameters.0@ == certify_parameters_json(report)
    &&& rec.certification_state == report.state
    &&& rec.auth_ratio == report.auth_ratio
    &&& rec.proof is None
    &&& rec.initiator_pk == prior.vector_state.owner_pk
    &&& rec.settlement_ref is None
}

/// The error `project` reports on the live source entity, if any: it must exist, be certified,
/// be owned by the projection's creator, and hold the vector the request projects from.
pub open spec fn source_failure(
    states: Map<Seq<char>, LiveEntityState>,
    request: ProjectionRequest,
) -> Option<(KernelErrorKind, Seq<char>)> {
    let src = request.source_entity_id.0@;
    if !states.dom().contains(src) {
        Some((KernelErrorKind::NotFound, src))
    } else if states[src].certification.state != CertificationState::Certified {
        Some(
            (
                KernelErrorKind::CertificationFailed,
                "source entity must be certified before projection"@,
            ),
        )
    } else if states[src].vector_state.owner_pk@ != request.created_by_pk@ {
        Some(
            (
                KernelErrorKind::AuthorizationFailed,
                "projection creator does not own the source entity"@,
            ),
        )
    } else if states[src].vector_state.vector@ != request.source_state.vector@ {
        Some(
            (
                KernelErrorKind::InvalidState,
                "projection source state does not match the live vector"@,
            ),
        )
    } else {
        None
    }
}

/// The error `project` reports before any contract is consulted, if any.
pub open spec fn project_failure(
    states: Map<Seq<char>, LiveEntityState>,
    request: ProjectionRequest,
) -> Option<(KernelErrorKind, Seq<char>)> {
    match source_failure(states, request) {
        Some(f) => Some(f),
        None => projection_failure(request),
    }
}

/// No contract takes part in the projection: none is named, or none is bound to the named id.
pub open spec fn no_contract_applies(
    contracts: Map<Seq<char>, Box<dyn Contract>>,
    contract_ctx: Option<ContractContext>,
) -> bool {
    match contract_ctx {
        None => true,
        Some(c) => !contracts.dom().contains(c.contract_id.0@),
    }
}

/// The projection may get past the contracts: none applies, or the bound one can allow it.
pub open spec fn may_admit(
    contracts: Map<Seq<char>, Box<dyn Contract>>,
    contract_ctx: Option<ContractContext>,
) -> bool {
    match contract_ctx {
        None => true,
        Some(cc) => !contracts.dom().contains(cc.contract_id.0@) || exists|d: ContractDecision|
            #[trigger] contracts[cc.contract_id.0@].evaluated(cc, Ok(d)) && d.allow,
    }
}

/// What the contract's evaluation `res` lets through: the evaluation's own error is returned; a
/// denying decision is a contract error carrying its reason; an allowing decision admits.
pub open spec fn admission(res: Result<ContractDecision>, r: Result<()>) -> bool {
    match res {
        Err(e) => r == Err::<(), KernelError>(e),
        Ok(d) => if d.allow {
            r is Ok
        } else {
            r matches Err(e) && e.is(KernelErrorKind::ContractError, denial_detail(d))
        },
    }
}

/// What a projection owes to the contract's evaluation `res`: it fails as `admission` says, and
/// otherwise succeeds.
pub open spec fn contract_verdict(res: Result<ContractDecision>, r: Result<Record>) -> bool {
    admission(
        res,
        match r {
            Ok(_) => Ok(()),
            Err(e) => Err(e),
        },
    )
}

/// `rec` is the record of `request` producing `env` from an entity whose state was `prior`.
pub open spec fn project_record(
    rec: Record,
    ctx: KernelContext,
    request: ProjectionRequest,
    env: ProjectionEnvelope,
    prior: LiveEntityState,
) -> bool {
    &&& stamped_by(rec, ctx)
    &&& rec.record_id == env.created_record_id
    &&& rec.parent_record_ids@ == request.parent_record_ids@
    &&& rec.event_kind == OperationKind::Project
    &&& rec.entity_id == request.source_entity_id
    &&& rec.projection_id == Some(request.projection_id)
    &&& rec.v_before@ == request.source_state.vector@
    &&& rec.v_after@ == env.remaining_vector@
    &&& rec.parameters.0@ == project_parameters_json(env)
    &&& rec.certification_state == prior.certification.state
    &&& rec.auth_ratio == prior.certification.auth_ratio
    &&& opt_text(rec.proof) == Some("projection-lock"@)
    &&& rec.initiator_pk == request.created_by_pk
    &&& rec.settlement_ref is None
}

/// `st` is `prior` after the projection `env`: the live vector is what `env` leaves and `env`
/// is the active projection.
pub open spec fn projected_state(st: LiveEntityState, prior: LiveEntityState, env: ProjectionEnvelope) -> bool {
    &&& st.entity_id == prior.entity_id
    &&& st.wallet == prior.wallet
    &&& st.vector_state.vector@ == env.remaining_vector@
    &&& st.vector_state.owner_pk == prior.vector_state.owner_pk
    &&& st.vector_state.tau == prior.vector_state.tau
    &&& st.vector_state.meta == prior.vector_state.meta
    &&& st.certification == prior.certification
    &&& st.active_projection matches Some(p) && p.same(env)
}

/// The outcome a reconstruction applies: the contract's settlement outcome when it names one,
/// the requested outcome otherwise.
pub open spec fn effective_outcome(
    request: ReconstructionRequest,
    decision: Option<ContractDecision>,
) -> SettlementOutcome {
    match decision {
        Some(d) => match d.settlement_outcome {
            Some(o) => o,
            None => request.outcome,
        },
        None => request.outcome,
    }
}

/// The error `reconstruct` reports from the kernel's own copy of the projection, if it holds
/// one: a projection it holds as settled, settling or revoked cannot be settled again.
pub open spec fn reconstruct_failure(
    states: Map<Seq<char>, ProjectionEnvelope>,
    request: ReconstructionRequest,
) -> Option<(KernelErrorKind, Seq<char>)> {
    let pid = request.projection.projection_id.0@;
    if states.dom().contains(pid) {
        status_failure(states[pid].status, states[pid].projection_id.0@)
    } else {
        None
    }
}

/// `rec` is the record of the settlement of `projection` into `updated` with `receipt`.
pub open spec fn reconstruct_record(
    rec: Record,
    ctx: KernelContext,
    projection: ProjectionEnvelope,
    updated: ProjectionEnvelope,
    receipt: ReconstructionReceipt,
) -> bool {
    &&& stamped_by(rec, ctx)
    &&& rec.record_id == receipt.settlement_record_id
    &&& rec.parent_record_ids@ == seq![receipt.prior_record_id]
    &&& rec.event_kind == OperationKind::Reconstruct
    &&& rec.entity_id.0 == projection.projection_id.0
    &&& rec.projection_id == Some(projection.projection_id)
    &&& rec.v_before@ == projection.original_vector@
    &&& rec.v_after@ == receipt.resulting_vector@
    &&& rec.parameters.0@ == reconstruct_parameters_json(receipt, updated.status)
    &&& rec.certification_state == CertificationState::Certified
    &&& rec.auth_ratio == AuthRatio(AUTH_RATIO_SCALE as u32)
    &&& opt_text(rec.proof) == Some("reconstruction-settlement"@)
    &&& rec.initiator_pk == projection.created_by_pk
    &&& opt_text(rec.settlement_ref) == Some("projection-settlement"@)
}

/// The entity states after the settlement `updated`: the source entity, when live, takes the
/// settled live vector and keeps the projection active unless it is settled.
pub open spec fn settled_states(
    after: Map<Seq<char>, LiveEntityState>,
    before: Map<Seq<char>, LiveEntityState>,
    updated: ProjectionEnvelope,
) -> bool {
    let src = updated.source_entity_id.0@;
    if before.dom().contains(src) {
        let prior = before[src];
        let st = after[src];
        &&& after == before.insert(src, st)
        &&& st.entity_id == prior.entity_id
        &&& st.wallet == prior.wallet
        &&& st.vector_state.vector@ == updated.remaining_vector@
        &&& st.vector_state.owner_pk == prior.vector_state.owner_pk
        &&& st.vector_state.tau == prior.vector_state.tau
        &&& st.vector_state.meta == prior.vector_state.meta
        &&& st.certification == prior.certification
        &&& (updated.status == ProjectionStatus::Settled ==> st.active_projection is None)
        &&& (updated.status != ProjectionStatus::Settled ==> (st.active_projection matches Some(p)
            && p.same(updated)))
    } else {
        after == before
    }
}

/// Brings the source entity of `updated`, when live, in line with the settlement.
fn refresh_source(states: &mut KeyedMap<LiveEntityState>, updated: &ProjectionEnvelope)
    ensures
        settled_states(final(states)@, old(states)@, *updated),
{
    let ghost before = states@;
    let source = updated.source_entity_id.0.as_str();
    if states.contains_key(source) {
        match states.remove(source) {
            Some(mut state) => {
                state.vector_state.vector = updated.remaining_vector.clone();
                state.active_projection = match updated.status {
                    ProjectionStatus::Settled => None,
                    _ => Some(updated.clone()),
                };
                states.insert(updated.source_entity_id.0.clone(), state);
                assert(states@ =~= before.insert(updated.source_entity_id.0@, state));
            },
            None => {},
        }
    }
}

/// Whether two vectors have the same components.
fn same_components(a: &Vector, b: &Vector) -> (r: bool)
    ensures
        r == (a@ == b@),
{
    if a.components.len() != b.components.len() {
        return false;
    }
    let mut i: usize = 0;
    while i < a.components.len()
        invariant
            a@.len() == b@.len(),
            i <= a@.len(),
            forall|j: int| 0 <= j < i ==> a@[j] == b@[j],
        decreases a@.len() - i,
    {
        if a.components[i] != b.components[i] {
            return false;
        }
        i = i + 1;
    }
    assert(a@ =~= b@);
    true
}

impl Kernel {
    pub fn new(context: KernelContext) -> (r: Self)
        ensures
            r.context == context,
            r.event_store@ == Seq::<Record>::empty(),
            r.derived.entity_states@ == Map::<Seq<char>, LiveEntityState>::empty(),
            r.derived.projection_states@ == Map::<Seq<char>, ProjectionEnvelope>::empty(),
            r.contracts@ == Map::<Seq<char>, Box<dyn Contract>>::empty(),
    {
        Self {
            context,
            event_store: EventStore::default(),
            derived: DerivedStateCache::default(),
            contracts: ContractRegistry::default(),
        }
    }

    fn next_record_id(&self, prefix: &str) -> (r: RecordId)
        ensures
            r.0@ == record_id_text(prefix@, self.context.logical_clock),
    {
        make_record_id(prefix, self.context.logical_clock)
    }

    /// Seals `record` with the hash of its material, checks the seal, and appends it.
    fn append_record(&mut self, record: Record) -> (r: Result<Record>)
        ensures
            r matches Ok(rec) && same_but_hash(rec, record) && appended(
                old(self).event_store@,
                final(self).event_store@,
                rec,
            ),
            final(self).context == old(self).context,
            final(self).derived == old(self).derived,
            final(self).contracts == old(self).contracts,
    {
        let mut record = record;
        record.hash = record.recompute_hash()?;
        record.verify_hash()?;
        let stored = record.clone();
        let ghost before = self.event_store@;
        self.event_store.append(stored);
        assert(self.event_store@.drop_last() =~= before);
        Ok(record)
    }

    /// Certifies a new entity, records its creation and makes it live.
    pub fn create_entity(
        &mut self,
        wallet: Wallet,
        vector_state: VectorState,
        auth_inputs: AuthInputs,
        cert_ctx: CertificationContext,
    ) -> (r: Result<Record>)
        requires
            weighted_sum(auth_inputs, cert_ctx.weights) <= u64::MAX,
            create_failure(vector_state, auth_inputs, cert_ctx) is None ==> fits_u64(
                vector_state.vector@,
            ),
        ensures
            r is Err ==> *final(self) == *old(self),
            create_failure(vector_state, auth_inputs, cert_ctx) matches Some(f) ==> (r matches Err(e)
                && e.is(f.0, f.1)),
            auth_ratio_value(auth_inputs, cert_ctx.weights) <= AUTH_RATIO_SCALE && !(all_zero(
                vector_state.vector@,
            ) && vector_state.tau != VectorTypeTag::Zero) ==> r is Ok,
            create_failure(vector_state, auth_inputs, cert_ctx) is None ==> (r matches Ok(rec) && {
                let st = final(self).derived.entity_states@[wallet.wallet_id@];
                &&& st.certification.certifies(auth_inputs, cert_ctx)
                &&& st.entity_id == EntityId(wallet.wallet_id)
                &&& st.wallet == wallet
                &&& st.vector_state == vector_state
                &&& st.active_projection is None
                &&& final(self).derived.entity_states@ == old(self).derived.entity_states@.insert(
                    wallet.wallet_id@,
                    st,
                )
                &&& final(self).derived.projection_states == old(self).derived.projection_states
                &&& create_record(rec, old(self).context, wallet, vector_state, st.certification)
                &&& appended(old(self).event_store@, final(self).event_store@, rec)
                &&& final(self).context == old(self).context
                &&& final(self).contracts == old(self).contracts
            }),
    {
        let certification = certify(auth_inputs, &cert_ctx)?;
        let v = vector_state.vector.clone();
        if v.is_zero() && vector_state.tau != VectorTypeTag::Zero {
            return Err(KernelError::ZeroVectorViolation(
                String::from_str("non-zero type cannot host a zero vector on create"),
            ));
        }
        let parameters = create_parameters(&wallet, &vector_state, &certification);
        let record = Record {
            record_id: self.next_record_id("create"),
            parent_record_ids: Vec::new(),
            event_kind: OperationKind::Create,
            space_id: self.context.space_id.clone(),
            region_id: self.context.region_id.clone(),
            entity_id: EntityId(wallet.wallet_id.clone()),
            projection_id: None,
            v_before: Vector::zero(v.len()),
            v_after: v,
            parameters,
            certification_state: certification.state,
            auth_ratio: certification.auth_ratio,
            timestamp: self.context.timestamp,
            logical_clock: self.context.logical_clock,
            proof: None,
            initiator_pk: vector_state.owner_pk.clone(),
            signature: None,
            hash: String::new(),
            version: self.context.protocol_version.clone(),
            settlement_ref: None,
            is_failure: false,
            failure_reason: None,
        };
        let record = self.append_record(record)?;
        let key = wallet.wallet_id.clone();
        let state = LiveEntityState {
            entity_id: EntityId(wallet.wallet_id.clone()),
            wallet,
            vector_state,
            certification,
            active_projection: None,
        };
        self.derived.entity_states.insert(key, state);
        Ok(record)
    }

    /// Re-certifies a live entity and records the new certification.
    pub fn certify_entity(
        &mut self,
        entity_id: &EntityId,
        auth_inputs: AuthInputs,
        cert_ctx: CertificationContext,
    ) -> (r: Result<Record>)
        requires
            weighted_sum(auth_inputs, cert_ctx.weights) <= u64::MAX,
        ensures
            r is Err ==> *final(self) == *old(self),
            certify_failure(old(self).derived.entity_states@, *entity_id, auth_inputs, cert_ctx) matches Some(f)
                ==> (r matches Err(e) && e.is(f.0, f.1)),
            certify_failure(old(self).derived.entity_states@, *entity_id, auth_inputs, cert_ctx) is None
                ==> (r matches Ok(rec) && {
                let prior = old(self).derived.entity_states@[entity_id.0@];
                let st = final(self).derived.entity_states@[entity_id.0@];
                &&& st.certification.certifies(auth_inputs, cert_ctx)
                &&& st == LiveEntityState { certification: st.certification, ..prior }
                &&& final(self).derived.entity_states@ == old(self).derived.entity_states@.insert(
                    entity_id.0@,
                    st,
                )
                &&& final(self).derived.projection_states == old(self).derived.projection_states
                &&& certify_record(rec, old(self).context, *entity_id, prior, st.certification)
                &&& rec.auth_ratio == st.certification.auth_ratio
                &&& rec.certification_state == st.certification.state
                &&& appended(old(self).event_store@, final(self).event_store@, rec)
                &&& final(self).context == old(self).context
                &&& final(self).contracts == old(self).contracts
            }),
    {
        let report = certify(auth_inputs, &cert_ctx)?;
        if !self.derived.entity_states.contains_key(entity_id.0.as_str()) {
            return Err(KernelError::NotFound(entity_id.0.clone()));
        }
        let ghost before = self.derived.entity_states@;
        let mut state = match self.derived.entity_states.remove(entity_id.0.as_str()) {
            Some(st) => st,
            None => {
                return Err(KernelError::NotFound(entity_id.0.clone()));
            },
        };
        let v = state.vector_state.vector.clone();
        let initiator_pk = state.vector_state.owner_pk.clone();
        let parameters = certify_parameters(&report);
        let certification_state = report.state;
        let auth_ratio = report.auth_ratio;
        state.certification = report;
        let key = entity_id.0.clone();
        self.derived.entity_states.insert(key, state);
        assert(self.derived.entity_states@ =~= before.insert(entity_id.0@, state));
        let record = Record {
            record_id: self.next_record_id("certify"),
            parent_record_ids: Vec::new(),
            event_kind: OperationKind::Certify,
            space_id: self.context.space_id.clone(),
            region_id: self.context.region_id.clone(),
            entity_id: entity_id.clone(),
            projection_id: None,
            v_before: v.clone(),
            v_after: v,
            parameters,
            certification_state,
            auth_ratio,
            timestamp: self.context.timestamp,
            logical_clock: self.context.logical_clock,
            proof: None,
            initiator_pk,
            signature: None,
            hash: String::new(),
            version: self.context.protocol_version.clone(),
            settlement_ref: None,
            is_failure: false,
            failure_reason: None,
        };
        self.append_record(record)
    }

    /// Locks part of a certified entity's vector into a projection, consulting the bound
    /// contract when one is named, and records the projection. Only the entity's owner may
    /// project it, and only from the entity's live vector.
    pub fn project(&mut self, request: ProjectionRequest, contract_ctx: Option<ContractContext>) -> (r:
        Result<Record>)
        requires
            project_failure(old(self).derived.entity_states@, request) is None && may_admit(
                old(self).contracts@,
                contract_ctx,
            ) ==> fits_u64(request.locked_amount@) && fits_u64(
                seq_sub(request.source_state.vector@, request.locked_amount@),
            ),
        ensures
            r is Err ==> *final(self) == *old(self),
            project_failure(old(self).derived.entity_states@, request) matches Some(f) ==> (r matches Err(
                e,
            ) && e.is(f.0, f.1)),
            project_failure(old(self).derived.entity_states@, request) is None && no_contract_applies(
                old(self).contracts@,
                contract_ctx,
            ) ==> r is Ok,
            contract_ctx matches Some(cc) ==> (project_failure(old(self).derived.entity_states@, request)
                is None && old(self).contracts@.dom().contains(cc.contract_id.0@) ==> exists|
                res: Result<ContractDecision>,
            |
                #[trigger] old(self).contracts@[cc.contract_id.0@].evaluated(cc, res) && contract_verdict(
                    res,
                    r,
                )),
            r matches Ok(rec) ==> {
                let src = request.source_entity_id.0@;
                let pid = request.projection_id.0@;
                let prior = old(self).derived.entity_states@[src];
                let env = final(self).derived.projection_states@[pid];
                let st = final(self).derived.entity_states@[src];
                &&& project_failure(old(self).derived.entity_states@, request) is None
                &&& prior.vector_state.owner_pk@ == request.created_by_pk@
                &&& rec.v_before@ == prior.vector_state.vector@
                &&& rec.v_before@.len() == rec.v_after@.len()
                &&& rec.v_after@.len() == request.locked_amount@.len()
                &&& forall|i: int|
                    0 <= i < rec.v_before@.len() ==> rec.v_before@[i] == rec.v_after@[i]
                        + request.locked_amount@[i]
                &&& st.vector_state.vector@ == seq_sub(prior.vector_state.vector@, request.locked_amount@)
                &&& env.created_record_id.0@ == record_id_text("project"@, old(self).context.logical_clock)
                &&& env.projected_from(request, env.created_record_id)
                &&& final(self).derived.projection_states@ == old(self).derived.projection_states@.insert(pid, env)
                &&& projected_state(st, prior, env)
                &&& final(self).derived.entity_states@ == old(self).derived.entity_states@.insert(src, st)
                &&& project_record(rec, old(self).context, request, env, prior)
                &&& appended(old(self).event_store@, final(self).event_store@, rec)
                &&& final(self).context == old(self).context
                &&& final(self).contracts == old(self).contracts
            },
    {
        if let Err(e) = self.check_source(&request) {
            return Err(e);
        }
        let projection = build_projection_envelope(&request, self.next_record_id("project"))?;
        if let Err(e) = self.consult_contract(&contract_ctx) {
            return Err(e);
        }
        let r = self.commit_projection(&request, projection);
        proof {
            if r is Ok {
                let rec = r->Ok_0;
                let src = request.source_entity_id.0@;
                let pid = request.projection_id.0@;
                crate::laws::law_project_record_replays_projection(
                    rec,
                    old(self).context,
                    request,
                    self.derived.projection_states@[pid],
                    old(self).derived.entity_states@[src],
                );
            }
        }
        r
    }

    /// Checks the live source entity of `request`.
    fn check_source(&self, request: &ProjectionRequest) -> (r: Result<()>)
        ensures
            source_failure(self.derived.entity_states@, *request) matches Some(f) ==> (r matches Err(e)
                && e.is(f.0, f.1)),
            source_failure(self.derived.entity_states@, *request) is None ==> r is Ok,
    {
        match self.derived.entity_states.get(request.source_entity_id.0.as_str()) {
            Some(live) => {
                if live.certification.state != CertificationState::Certified {
                    return Err(KernelError::CertificationFailed(
                        String::from_str("source entity must be certified before projection"),
                    ));
                }
                if live.vector_state.owner_pk != request.created_by_pk {
                    return Err(KernelError::AuthorizationFailed(
                        String::from_str("projection creator does not own the source entity"),
                    ));
                }
                if !same_components(&live.vector_state.vector, &request.source_state.vector) {
                    return Err(KernelError::InvalidState(
                        String::from_str("projection source state does not match the live vector"),
                    ));
                }
                Ok(())
            },
            None => Err(KernelError::NotFound(request.source_entity_id.0.clone())),
        }
    }

    /// Asks the contract bound to the id `contract_ctx` names, when there is one, whether the
    /// projection may proceed.
    fn consult_contract(&self, contract_ctx: &Option<ContractContext>) -> (r: Result<()>)
        ensures
            no_contract_applies(self.contracts@, *contract_ctx) ==> r is Ok,
            contract_ctx matches Some(cc) ==> (self.contracts@.dom().contains(cc.contract_id.0@)
                ==> exists|res: Result<ContractDecision>|
                #[trigger] self.contracts@[cc.contract_id.0@].evaluated(*cc, res) && admission(res, r)),
    {
        if let Some(cc) = contract_ctx.as_ref() {
            match self.contracts.evaluate_bound(&cc.contract_id, cc) {
                Some(Ok(decision)) => {
                    let ghost d = decision;
                    let r = admit_projection(decision);
                    assert(admission(Ok(d), r));
                    r
                },
                Some(Err(e)) => {
                    assert(admission(Err(e), Err(e)));
                    Err(e)
                },
                None => Ok(()),
            }
        } else {
            Ok(())
        }
    }

    /// Records `projection`, caches it, and makes it the source entity's active projection.
    fn commit_projection(&mut self, request: &ProjectionRequest, projection: ProjectionEnvelope) -> (r:
        Result<Record>)
        requires
            old(self).derived.entity_states@.dom().contains(request.source_entity_id.0@),
            projection.projection_id == request.projection_id,
        ensures
            r matches Ok(rec) && {
                let src = request.source_entity_id.0@;
                let pid = request.projection_id.0@;
                let prior = old(self).derived.entity_states@[src];
                let env = final(self).derived.projection_states@[pid];
                let st = final(self).derived.entity_states@[src];
                &&& env == projection
                &&& final(self).derived.projection_states@ == old(self).derived.projection_states@.insert(pid, env)
                &&& projected_state(st, prior, env)
                &&& final(self).derived.entity_states@ == old(self).derived.entity_states@.insert(src, st)
                &&& project_record(rec, old(self).context, *request, env, prior)
                &&& appended(old(self).event_store@, final(self).event_store@, rec)
                &&& final(self).context == old(self).context
                &&& final(self).contracts == old(self).contracts
            },
    {
        let ghost before_states = self.derived.entity_states@;
        let mut state = match self.derived.entity_states.remove(request.source_entity_id.0.as_str()) {
            Some(st) => st,
            None => {
                return Err(KernelError::NotFound(request.source_entity_id.0.clone()));
            },
        };
        let parameters = project_parameters(&projection);
        let record = Record {
            record_id: projection.created_record_id.clone(),
            parent_record_ids: crate::projection::clone_record_ids(&request.parent_record_ids),
            event_kind: OperationKind::Project,
            space_id: self.context.space_id.clone(),
            region_id: self.context.region_id.clone(),
            entity_id: request.source_entity_id.clone(),
            projection_id: Some(request.projection_id.clone()),
            v_before: request.source_state.vector.clone(),
            v_after: projection.remaining_vector.clone(),
            parameters,
            certification_state: state.certification.state,
            auth_ratio: state.certification.auth_ratio,
            timestamp: self.context.timestamp,
            logical_clock: self.context.logical_clock,
            proof: Some(String::from_str("projection-lock")),
            initiator_pk: request.created_by_pk.clone(),
            signature: None,
            hash: String::new(),
            version: self.context.protocol_version.clone(),
            settlement_ref: None,
            is_failure: false,
            failure_reason: None,
        };
        let record = self.append_record(record)?;
        state.vector_state.vector = projection.remaining_vector.clone();
        state.active_projection = Some(projection.clone());
        self.derived.entity_states.insert(request.source_entity_id.0.clone(), state);
        assert(self.derived.entity_states@ =~= before_states.insert(request.source_entity_id.0@, state));
        self.derived.projection_states.insert(request.projection_id.0.clone(), projection);
        Ok(record)
    }

    /// Settles a projection with the requested outcome, or with the outcome the contract's
    /// decision names, and records the settlement.
    pub fn reconstruct(
        &mut self,
        request: ReconstructionRequest,
        contract_decision: Option<ContractDecision>,
    ) -> (r: Result<(Record, ReconstructionReceipt)>)
        requires
            reconstruct_failure(old(self).derived.projection_states@, request) is None ==> (
            reconstruction_step(
                request.projection,
                effective_outcome(request, contract_decision),
                request.projection.settlement_rule,
            ) matches Ok(step) ==> fits_u64(step.0) && fits_u64(step.1) && fits_u64(
                seq_sat_add(request.projection.remaining_vector@, step.0),
            )),
        ensures
            r is Err ==> *final(self) == *old(self),
            reconstruct_failure(old(self).derived.projection_states@, request) matches Some(f) ==> (
            r matches Err(e) && e.is(f.0, f.1)),
            reconstruct_failure(old(self).derived.projection_states@, request) is None ==> match reconstruction_step(
                request.projection,
                effective_outcome(request, contract_decision),
                request.projection.settlement_rule,
            ) {
                Err(f) => r matches Err(e) && e.is(f.0, f.1),
                Ok(step) => r matches Ok(res) && {
                    let rec = res.0;
                    let receipt = res.1;
                    let pid = request.projection.projection_id.0@;
                    let updated = final(self).derived.projection_states@[pid];
                    &&& receipt.settlement_record_id.0@ == record_id_text(
                        "reconstruct"@,
                        old(self).context.logical_clock,
                    )
                    &&& settled_by(
                        updated,
                        receipt,
                        request.projection,
                        effective_outcome(request, contract_decision),
                        step,
                        receipt.settlement_record_id,
                        request.settlement_reference,
                    )
                    &&& final(self).derived.projection_states@ == old(self).derived.projection_states@.insert(
                        pid,
                        updated,
                    )
                    &&& settled_states(
                        final(self).derived.entity_states@,
                        old(self).derived.entity_states@,
                        updated,
                    )
                    &&& reconstruct_record(rec, old(self).context, request.projection, updated, receipt)
                    &&& appended(old(self).event_store@, final(self).event_store@, rec)
                    &&& final(self).context == old(self).context
                    &&& final(self).contracts == old(self).contracts
                },
            },
    {
        if let Some(stored) = self.derived.projection_states.get(
            request.projection.projection_id.0.as_str(),
        ) {
            if let Err(e) = stored.ensure_settleable() {
                return Err(e);
            }
        }
        let settlement_rule = request.projection.settlement_rule;
        let effective = match contract_decision {
            Some(d) => match d.settlement_outcome {
                Some(o) => o,
                None => request.outcome,
            },
            None => request.outcome,
        };
        let recon_request = ReconstructionRequest {
            projection: request.projection,
            outcome: effective,
            reconstructed_record_id: self.next_record_id("reconstruct"),
            settlement_reference: request.settlement_reference,
        };
        let (updated, receipt) = reconstruct_projection(recon_request, &settlement_rule)?;
        self.commit_settlement(updated, receipt)
    }

    /// The record of the settlement `updated` described by `receipt`, before it is sealed.
    fn settlement_record(&self, updated: &ProjectionEnvelope, receipt: &ReconstructionReceipt) -> (r: Record)
        requires
            receipt.projection_id == updated.projection_id,
        ensures
            reconstruct_record(r, self.context, *updated, *updated, *receipt),
    {
        let parameters = reconstruct_parameters(receipt, updated.status);
        let mut parents: Vec<RecordId> = Vec::new();
        parents.push(receipt.prior_record_id.clone());
        assert(parents@ =~= seq![receipt.prior_record_id]);
        Record {
            record_id: receipt.settlement_record_id.clone(),
            parent_record_ids: parents,
            event_kind: OperationKind::Reconstruct,
            space_id: self.context.space_id.clone(),
            region_id: self.context.region_id.clone(),
            entity_id: EntityId(receipt.projection_id.0.clone()),
            projection_id: Some(receipt.projection_id.clone()),
            v_before: updated.original_vector.clone(),
            v_after: receipt.resulting_vector.clone(),
            parameters,
            certification_state: CertificationState::Certified,
            auth_ratio: AuthRatio(AUTH_RATIO_SCALE as u32),
            timestamp: self.context.timestamp,
            logical_clock: self.context.logical_clock,
            proof: Some(String::from_str("reconstruction-settlement")),
            initiator_pk: updated.created_by_pk.clone(),
            signature: None,
            hash: String::new(),
            version: self.context.protocol_version.clone(),
            settlement_ref: Some(String::from_str("projection-settlement")),
            is_failure: false,
            failure_reason: None,
        }
    }

    /// Records the settlement, caches the updated projection and refreshes its source entity.
    fn commit_settlement(&mut self, updated: ProjectionEnvelope, receipt: ReconstructionReceipt) -> (r:
        Result<(Record, ReconstructionReceipt)>)
        requires
            receipt.projection_id == updated.projection_id,
        ensures
            r matches Ok(res) && {
                let rec = res.0;
                let pid = updated.projection_id.0@;
                &&& res.1 == receipt
                &&& final(self).derived.projection_states@[pid] == updated
                &&& final(self).derived.projection_states@ == old(self).derived.projection_states@.insert(
                    pid,
                    updated,
                )
                &&& settled_states(
                    final(self).derived.entity_states@,
                    old(self).derived.entity_states@,
                    updated,
                )
                &&& reconstruct_record(rec, old(self).context, updated, updated, receipt)
                &&& appended(old(self).event_store@, final(self).event_store@, rec)
                &&& final(self).context == old(self).context
                &&& final(self).contracts == old(self).contracts
            },
    {
        let record = self.settlement_record(&updated, &receipt);
        let record = self.append_record(record)?;
        refresh_source(&mut self.derived.entity_states, &updated);
        self.derived.projection_states.insert(updated.projection_id.0.clone(), updated);
        Ok((record, receipt))
    }

    pub fn query_entity(&self, entity_id: &EntityId) -> (r: Result<LiveEntityState>)
        ensures
            self.derived.entity_states@.dom().contains(entity_id.0@) ==> (r matches Ok(st) && st.same(
                self.derived.entity_states@[entity_id.0@],
            )),
            !self.derived.entity_states@.dom().contains(entity_id.0@) ==> (r matches Err(e) && e.is(
                KernelErrorKind::NotFound,
                entity_id.0@,
            )),
    {
        match self.derived.entity_states.get(entity_id.0.as_str()) {
            Some(st) => Ok(st.clone()),
            None => Err(KernelError::NotFound(entity_id.0.clone())),
        }
    }
}

} // verus!
