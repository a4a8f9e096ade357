use serde_json::Value;
use v_contractx::access::{AccessPolicy, Role};
use v_contractx::certification::{
    AuthInputs, AuthRatio, AuthWeights, CertificationContext, CertificationReport,
    CertificationState, CertificationThreshold, MicroScore,
};
use v_contractx::contract::{
    admit_projection, require_contract, Contract, ContractContext, ContractDecision,
    ContractMetadata, DefaultStakeContract,
};
use v_contractx::errors::KernelError;
use v_contractx::projection::{
    DrainPolicy, ProjectionLockKind, ProjectionRequest, ProjectionStatus, SettlementRule,
    SettlementTrigger,
};
use v_contractx::reconstruction::{ReconstructionRequest, SettlementOutcome};
use v_contractx::record::make_record_id;
use v_contractx::runtime::{Kernel, KernelContext};
use v_contractx::types::{
    ContractId, EntityId, JsonEnvelope, OperationKind, ProjectionId, RecordId, RegionId, SpaceId,
    Vector, VectorState, VectorTypeTag, Wallet,
};

fn obj(pairs: Vec<(&str, Value)>) -> Value {
    let mut m = serde_json::Map::new();
    for (k, v) in pairs {
        m.insert(k.to_string(), v);
    }
    Value::Object(m)
}

fn kernel() -> Kernel {
    Kernel::new(KernelContext {
        protocol_version: "1.1".to_string(),
        space_id: SpaceId("space-a".to_string()),
        region_id: RegionId("region-1".to_string()),
        timestamp: 1,
        logical_clock: 1,
    })
}

fn cert_ctx(threshold: u32) -> CertificationContext {
    CertificationContext {
        vector_type: "free".to_string(),
        operation_class: "projection".to_string(),
        space_policy_version: "1".to_string(),
        risk_profile: "standard".to_string(),
        protocol_version: "1.1".to_string(),
        threshold: CertificationThreshold(threshold),
        weights: AuthWeights::normalized(400_000, 300_000, 200_000, 100_000).unwrap(),
    }
}

fn inputs() -> AuthInputs {
    AuthInputs {
        magnitude: MicroScore(900_000),
        composition: MicroScore(800_000),
        ownership: MicroScore(700_000),
        policy: MicroScore(600_000),
    }
}

fn wallet() -> Wallet {
    Wallet { wallet_id: "wallet-a".to_string(), pk: "pk-a".to_string(), wallet_meta: JsonEnvelope(b"{}".to_vec()) }
}

fn state(components: Vec<u128>, tau: VectorTypeTag) -> VectorState {
    VectorState { vector: Vector::new(components), owner_pk: "pk-a".to_string(), tau, meta: JsonEnvelope(b"{}".to_vec()) }
}

fn request(rule: SettlementRule) -> ProjectionRequest {
    ProjectionRequest {
        projection_id: ProjectionId("proj-1".to_string()),
        source_entity_id: EntityId("wallet-a".to_string()),
        source_space_id: SpaceId("space-a".to_string()),
        contract_id: Some(ContractId("stake-1".to_string())),
        source_state: state(vec![10, 5, 0], VectorTypeTag::Free),
        locked_amount: Vector::new(vec![5, 0, 0]),
        lock_kind: ProjectionLockKind::Stake,
        rule_environment: "task-a".to_string(),
        settlement_rule: rule,
        settlement_trigger: SettlementTrigger::HeightReached(42),
        drain_policy: DrainPolicy::FixedBps(7),
        certification_threshold: CertificationThreshold(500_000),
        created_by_pk: "pk-a".to_string(),
        parent_record_ids: vec![RecordId("create-1".to_string())],
    }
}

fn staged_rule() -> SettlementRule {
    SettlementRule { allow_gain: true, allow_loss: true, allow_partial_release: true, allow_staged_release: true, max_phases: 2 }
}

fn metadata() -> ContractMetadata {
    ContractMetadata {
        contract_id: ContractId("stake-1".to_string()),
        name: "stake".to_string(),
        version: "1".to_string(),
        description: "default stake".to_string(),
        owner_pk: "owner-pk".to_string(),
        access_policy: AccessPolicy { allowed_roles: vec![Role::Admin], allow_owner_override: true, requires_certification: true },
        settlement_rule: staged_rule(),
    }
}

fn certified_report() -> CertificationReport {
    CertificationReport {
        auth_ratio: AuthRatio(800_000),
        threshold: CertificationThreshold(600_000),
        state: CertificationState::Certified,
        policy_version: "1.1".to_string(),
        reason: None,
    }
}

fn contract_ctx(caller: &str, roles: Vec<Role>, certification: CertificationReport) -> ContractContext {
    ContractContext {
        contract_id: ContractId("stake-1".to_string()),
        space_id: SpaceId("space-a".to_string()),
        projection_id: ProjectionId("proj-1".to_string()),
        entity_id: EntityId("wallet-a".to_string()),
        caller_pk: caller.to_string(),
        roles,
        certification,
        projected_vector: Vector::new(vec![5, 0, 0]),
        locked_vector: Vector::new(vec![1_000_000, 40]),
        live_remaining: Vector::new(vec![5, 5, 0]),
        environment: JsonEnvelope(b"{}".to_vec()),
    }
}

#[test]
fn create_records_the_entity_and_its_certification() {
    let mut k = kernel();
    let record = k.create_entity(wallet(), state(vec![10, 5, 0], VectorTypeTag::Free), inputs(), cert_ctx(600_000)).unwrap();
    assert_eq!(record.record_id, RecordId("create-1".to_string()));
    assert_eq!(record.entity_id, EntityId("wallet-a".to_string()));
    assert_eq!(record.v_before, Vector::new(vec![0, 0, 0]));
    assert_eq!(record.v_after, Vector::new(vec![10, 5, 0]));
    assert_eq!(record.certification_state, CertificationState::Certified);
    assert_eq!(record.auth_ratio, AuthRatio(800_000));
    assert_eq!(record.version, "1.1");
    assert_eq!(record.verify_hash(), Ok(()));
    let expected = obj(vec![
        ("wallet", obj(vec![("wallet_id", Value::from("wallet-a")), ("pk", Value::from("pk-a")), ("wallet_meta", obj(vec![]))])),
        ("vector_state", obj(vec![
            ("vector", obj(vec![("components", Value::Array(vec![Value::from(10u64), Value::from(5u64), Value::from(0u64)]))])),
            ("owner_pk", Value::from("pk-a")),
            ("tau", Value::from("Free")),
            ("meta", obj(vec![])),
        ])),
        ("certification", obj(vec![
            ("auth_ratio", Value::from(800_000u32)),
            ("threshold", Value::from(600_000u32)),
            ("state", Value::from("Certified")),
            ("policy_version", Value::from("1.1")),
            ("reason", Value::Null),
        ])),
    ]);
    assert_eq!(record.parameters.0, serde_json::to_vec(&expected).unwrap());
    assert_eq!(k.event_store.all().len(), 1);
    let live = k.query_entity(&EntityId("wallet-a".to_string())).unwrap();
    assert_eq!(live.vector_state.vector, Vector::new(vec![10, 5, 0]));
    assert_eq!(live.certification.state, CertificationState::Certified);
    assert_eq!(live.active_projection, None);
}

#[test]
fn create_refuses_zero_vectors_of_non_zero_type() {
    let mut k = kernel();
    assert_eq!(
        k.create_entity(wallet(), state(vec![0, 0], VectorTypeTag::Free), inputs(), cert_ctx(600_000)),
        Err(KernelError::ZeroVectorViolation("non-zero type cannot host a zero vector on create".to_string()))
    );
    assert_eq!(k.event_store.all().len(), 0);
    assert!(k.create_entity(wallet(), state(vec![0, 0], VectorTypeTag::Zero), inputs(), cert_ctx(600_000)).is_ok());
    let bad_inputs = AuthInputs { magnitude: MicroScore(5_000_000), ..inputs() };
    let weights = AuthWeights::normalized(1_000_000, 0, 0, 0).unwrap();
    let ctx = CertificationContext { weights, ..cert_ctx(600_000) };
    assert_eq!(
        k.create_entity(wallet(), state(vec![1], VectorTypeTag::Free), bad_inputs, ctx),
        Err(KernelError::InvalidParameter("auth ratio must be within [0, 1_000_000]".to_string()))
    );
    assert_eq!(k.event_store.all().len(), 1);
}

#[test]
fn certify_updates_the_live_certification() {
    let mut k = kernel();
    assert_eq!(
        k.certify_entity(&EntityId("ghost".to_string()), inputs(), cert_ctx(600_000)),
        Err(KernelError::NotFound("ghost".to_string()))
    );
    k.create_entity(wallet(), state(vec![10, 5, 0], VectorTypeTag::Free), inputs(), cert_ctx(600_000)).unwrap();
    let record = k.certify_entity(&EntityId("wallet-a".to_string()), inputs(), cert_ctx(900_000)).unwrap();
    assert_eq!(record.event_kind, OperationKind::Certify);
    assert_eq!(record.record_id, RecordId("certify-1".to_string()));
    assert_eq!(record.certification_state, CertificationState::Uncertified);
    assert_eq!(record.v_before, record.v_after);
    assert_eq!(record.verify_hash(), Ok(()));
    let live = k.query_entity(&EntityId("wallet-a".to_string())).unwrap();
    assert_eq!(live.certification.state, CertificationState::Uncertified);
    assert_eq!(live.certification.reason, Some("auth ratio below threshold".to_string()));
    assert_eq!(
        k.project(request(SettlementRule::immediate()), None),
        Err(KernelError::CertificationFailed("source entity must be certified before projection".to_string()))
    );
    assert_eq!(k.event_store.all().len(), 2);
}

#[test]
fn query_of_unknown_entity_is_not_found() {
    let k = kernel();
    assert_eq!(k.query_entity(&EntityId("nobody".to_string())), Err(KernelError::NotFound("nobody".to_string())));
}

#[test]
fn project_without_a_live_entity_is_not_found() {
    let mut k = kernel();
    assert_eq!(
        k.project(request(SettlementRule::immediate()), None),
        Err(KernelError::NotFound("wallet-a".to_string()))
    );
}

#[test]
fn project_record_states_the_projection() {
    let mut k = kernel();
    k.create_entity(wallet(), state(vec![10, 5, 0], VectorTypeTag::Free), inputs(), cert_ctx(600_000)).unwrap();
    let record = k.project(request(SettlementRule::immediate()), None).unwrap();
    assert_eq!(record.record_id, RecordId("project-1".to_string()));
    assert_eq!(record.parent_record_ids, vec![RecordId("create-1".to_string())]);
    assert_eq!(record.projection_id, Some(ProjectionId("proj-1".to_string())));
    assert_eq!(record.proof, Some("projection-lock".to_string()));
    assert_eq!(record.v_after, Vector::new(vec![5, 5, 0]));
    assert_eq!(record.verify_hash(), Ok(()));
    let expected = obj(vec![
        ("projection_id", Value::from("proj-1")),
        ("locked_vector", obj(vec![("components", Value::Array(vec![Value::from(5u64), Value::from(0u64), Value::from(0u64)]))])),
        ("remaining_vector", obj(vec![("components", Value::Array(vec![Value::from(5u64), Value::from(5u64), Value::from(0u64)]))])),
        ("lock_kind", Value::from("Stake")),
        ("rule_environment", Value::from("task-a")),
        ("settlement_rule", obj(vec![
            ("allow_gain", Value::from(true)),
            ("allow_loss", Value::from(true)),
            ("allow_partial_release", Value::from(true)),
            ("allow_staged_release", Value::from(false)),
            ("max_phases", Value::from(1u32)),
        ])),
        ("settlement_trigger", obj(vec![("HeightReached", Value::from(42u64))])),
        ("drain_policy", obj(vec![("FixedBps", Value::from(7u32))])),
        ("certification_threshold", Value::from(500_000u32)),
    ]);
    assert_eq!(record.parameters.0, serde_json::to_vec(&expected).unwrap());
    let live = k.query_entity(&EntityId("wallet-a".to_string())).unwrap();
    assert_eq!(live.vector_state.vector, Vector::new(vec![5, 5, 0]));
    assert_eq!(live.active_projection.unwrap().locked_vector, Vector::new(vec![5, 0, 0]));
}

#[test]
fn bound_contract_gates_projection() {
    let mut k = kernel();
    k.create_entity(wallet(), state(vec![10, 5, 0], VectorTypeTag::Free), inputs(), cert_ctx(600_000)).unwrap();
    k.contracts.register(DefaultStakeContract::new(metadata()));
    assert!(k.contracts.get(&ContractId("stake-1".to_string())).is_some());
    assert!(k.contracts.get(&ContractId("other".to_string())).is_none());
    let denied = k.project(request(staged_rule()), Some(contract_ctx("intruder", vec![Role::Operator], certified_report())));
    assert_eq!(denied, Err(KernelError::ContractError("access policy denied the caller".to_string())));
    assert_eq!(k.event_store.all().len(), 1);
    assert!(k.derived.projection_states.get("proj-1").is_none());
    let record = k.project(request(staged_rule()), Some(contract_ctx("intruder", vec![Role::Admin], certified_report()))).unwrap();
    assert_eq!(record.event_kind, OperationKind::Project);
    let mut unbound = contract_ctx("intruder", vec![], certified_report());
    unbound.contract_id = ContractId("other".to_string());
    let mut second = request(staged_rule());
    second.projection_id = ProjectionId("proj-2".to_string());
    second.source_state = state(vec![5, 5, 0], VectorTypeTag::Free);
    assert!(k.project(second, Some(unbound)).is_ok());
    assert_eq!(k.event_store.all().len(), 3);
    let live = k.query_entity(&EntityId("wallet-a".to_string())).unwrap();
    assert_eq!(live.vector_state.vector, Vector::new(vec![0, 5, 0]));
}

#[test]
fn bound_contract_is_evaluated_by_id() {
    let mut k = kernel();
    k.contracts.register(DefaultStakeContract::new(metadata()));
    let ctx = contract_ctx("intruder", vec![Role::Operator], certified_report());
    let decision = k.contracts.evaluate_bound(&ContractId("stake-1".to_string()), &ctx).unwrap().unwrap();
    assert!(!decision.allow);
    assert_eq!(decision.reason, Some("access policy denied the caller".to_string()));
    assert!(k.contracts.evaluate_bound(&ContractId("other".to_string()), &ctx).is_none());
}

#[test]
fn project_refuses_a_creator_who_does_not_own_the_entity() {
    let mut k = kernel();
    k.create_entity(wallet(), state(vec![10, 5, 0], VectorTypeTag::Free), inputs(), cert_ctx(600_000)).unwrap();
    let mut foreign = request(SettlementRule::immediate());
    foreign.created_by_pk = "pk-b".to_string();
    assert_eq!(
        k.project(foreign, None),
        Err(KernelError::AuthorizationFailed("projection creator does not own the source entity".to_string()))
    );
    assert_eq!(k.event_store.all().len(), 1);
    assert!(k.derived.projection_states.get("proj-1").is_none());
    let live = k.query_entity(&EntityId("wallet-a".to_string())).unwrap();
    assert_eq!(live.vector_state.vector, Vector::new(vec![10, 5, 0]));
}

#[test]
fn project_refuses_a_source_other_than_the_live_vector() {
    let mut k = kernel();
    k.create_entity(wallet(), state(vec![10, 5, 0], VectorTypeTag::Free), inputs(), cert_ctx(600_000)).unwrap();
    let mut stale = request(SettlementRule::immediate());
    stale.source_state = state(vec![100, 5, 0], VectorTypeTag::Free);
    assert_eq!(
        k.project(stale, None),
        Err(KernelError::InvalidState("projection source state does not match the live vector".to_string()))
    );
    assert_eq!(k.event_store.all().len(), 1);
    k.project(request(SettlementRule::immediate()), None).unwrap();
    let mut again = request(SettlementRule::immediate());
    again.projection_id = ProjectionId("proj-2".to_string());
    assert_eq!(
        k.project(again, None),
        Err(KernelError::InvalidState("projection source state does not match the live vector".to_string()))
    );
    assert_eq!(k.event_store.all().len(), 2);
}

#[test]
fn the_same_reconstruction_request_settles_once() {
    let mut k = kernel();
    k.create_entity(wallet(), state(vec![10, 5, 0], VectorTypeTag::Free), inputs(), cert_ctx(600_000)).unwrap();
    k.project(request(SettlementRule::immediate()), None).unwrap();
    let projection = k.derived.projection_states.get("proj-1").unwrap().clone();
    let recon = |p: &v_contractx::projection::ProjectionEnvelope| ReconstructionRequest {
        projection: p.clone(),
        outcome: SettlementOutcome::NoChange,
        reconstructed_record_id: make_record_id("reconstruct", 1),
        settlement_reference: "settlement-1".to_string(),
    };
    let (_, receipt) = k.reconstruct(recon(&projection), None).unwrap();
    assert_eq!(receipt.status, ProjectionStatus::Settled);
    assert_eq!(k.event_store.all().len(), 3);
    assert_eq!(
        k.reconstruct(recon(&projection), None),
        Err(KernelError::DoubleReconstruction("projection proj-1 already settled".to_string()))
    );
    assert_eq!(k.event_store.all().len(), 3);
    let live = k.query_entity(&EntityId("wallet-a".to_string())).unwrap();
    assert_eq!(live.vector_state.vector, Vector::new(vec![10, 5, 0]));
    assert_eq!(live.active_projection, None);
}

#[test]
fn contract_decision_drives_reconstruction() {
    let mut k = kernel();
    k.create_entity(wallet(), state(vec![10, 5, 0], VectorTypeTag::Free), inputs(), cert_ctx(600_000)).unwrap();
    k.project(request(staged_rule()), None).unwrap();
    let projection = k.derived.projection_states.get("proj-1").unwrap().clone();
    let contract = DefaultStakeContract::new(metadata());
    let mut ctx = contract_ctx("owner-pk", vec![], certified_report());
    ctx.locked_vector = projection.locked_vector.clone();
    let decision = contract.evaluate(&ctx).unwrap();
    let recon = ReconstructionRequest {
        projection: projection.clone(),
        outcome: SettlementOutcome::Loss { amount: Vector::new(vec![5, 0, 0]) },
        reconstructed_record_id: make_record_id("ignored", 9),
        settlement_reference: "settlement-1".to_string(),
    };
    let (record, receipt) = k.reconstruct(recon, Some(decision)).unwrap();
    assert_eq!(receipt.status, ProjectionStatus::Settled);
    assert_eq!(receipt.returned_to_live, Vector::new(vec![5, 0, 0]));
    assert_eq!(receipt.resulting_vector, Vector::new(vec![10, 5, 0]));
    assert_eq!(receipt.outcome_summary, "staged settlement applied");
    assert_eq!(receipt.settlement_record_id, RecordId("reconstruct-1".to_string()));
    assert_eq!(record.record_id, RecordId("reconstruct-1".to_string()));
    assert_eq!(record.parent_record_ids, vec![RecordId("project-1".to_string())]);
    assert_eq!(record.entity_id, EntityId("proj-1".to_string()));
    assert_eq!(record.certification_state, CertificationState::Certified);
    assert_eq!(record.auth_ratio, AuthRatio(1_000_000));
    assert_eq!(record.settlement_ref, Some("projection-settlement".to_string()));
    assert_eq!(record.verify_hash(), Ok(()));
    let live = k.query_entity(&EntityId("wallet-a".to_string())).unwrap();
    assert_eq!(live.vector_state.vector, Vector::new(vec![10, 5, 0]));
    assert_eq!(live.active_projection, None);
    let settled = k.derived.projection_states.get("proj-1").unwrap().clone();
    assert_eq!(settled.status, ProjectionStatus::Settled);
    let again = ReconstructionRequest {
        projection: settled,
        outcome: SettlementOutcome::NoChange,
        reconstructed_record_id: make_record_id("reconstruct", 1),
        settlement_reference: "settlement-2".to_string(),
    };
    assert_eq!(
        k.reconstruct(again, None),
        Err(KernelError::DoubleReconstruction("projection proj-1 already settled".to_string()))
    );
    assert_eq!(k.event_store.all().len(), 3);
    for r in k.event_store.all() {
        assert_eq!(r.verify_hash(), Ok(()));
    }
}

#[test]
fn staged_settlement_keeps_the_projection_active() {
    let mut k = kernel();
    k.create_entity(wallet(), state(vec![10, 5, 0], VectorTypeTag::Free), inputs(), cert_ctx(600_000)).unwrap();
    k.project(request(staged_rule()), None).unwrap();
    let projection = k.derived.projection_states.get("proj-1").unwrap().clone();
    let recon = ReconstructionRequest {
        projection,
        outcome: SettlementOutcome::StagedRelease {
            released: Vector::new(vec![2, 0, 0]),
            remaining_locked: Vector::new(vec![3, 0, 0]),
            remaining_phases: 2,
        },
        reconstructed_record_id: make_record_id("reconstruct", 1),
        settlement_reference: "stage-1".to_string(),
    };
    let (_, receipt) = k.reconstruct(recon, None).unwrap();
    assert_eq!(receipt.status, ProjectionStatus::Staged { remaining_phases: 1 });
    let live = k.query_entity(&EntityId("wallet-a".to_string())).unwrap();
    assert_eq!(live.vector_state.vector, Vector::new(vec![7, 5, 0]));
    let active = live.active_projection.unwrap();
    assert_eq!(active.status, ProjectionStatus::Staged { remaining_phases: 1 });
    assert_eq!(active.locked_vector, Vector::new(vec![3, 0, 0]));
}

#[test]
fn default_stake_contract_decisions() {
    let contract = DefaultStakeContract::new(metadata());
    assert_eq!(contract.metadata().contract_id, ContractId("stake-1".to_string()));
    let denied = contract.evaluate(&contract_ctx("intruder", vec![Role::Operator], certified_report())).unwrap();
    assert!(!denied.allow);
    assert_eq!(denied.reason, Some("access policy denied the caller".to_string()));
    assert_eq!(denied.emitted_metadata.0, b"{\"allow\":false}".to_vec());
    let mut uncertified = certified_report();
    uncertified.state = CertificationState::Pending;
    let refused = contract.evaluate(&contract_ctx("owner-pk", vec![], uncertified)).unwrap();
    assert!(!refused.allow);
    assert_eq!(refused.reason, Some("caller vector is not certified".to_string()));
    assert_eq!(refused.emitted_metadata.0, b"{\"allow\":false,\"reason\":\"uncertified\"}".to_vec());
    let accepted = contract.evaluate(&contract_ctx("someone", vec![Role::Admin], certified_report())).unwrap();
    assert!(accepted.allow);
    assert_eq!(accepted.reason, Some("projection accepted by default stake contract".to_string()));
    assert_eq!(accepted.modified_settlement_rule, Some(staged_rule()));
    assert_eq!(
        accepted.settlement_outcome,
        Some(SettlementOutcome::StagedRelease {
            released: Vector::new(vec![1_000_000, 40]),
            remaining_locked: Vector::new(vec![0, 0]),
            remaining_phases: 1,
        })
    );
    assert_eq!(
        String::from_utf8(accepted.emitted_metadata.0.clone()).unwrap(),
        "{\"directed_allocation\":{\"components\":[10000,0]},\"projection\":\"proj-1\",\"reward\":{\"components\":[25000,1]},\"space\":\"space-a\",\"staked\":{\"components\":[1000000,40]}}"
    );
}

#[test]
fn contract_binding_and_admission() {
    let ctx = contract_ctx("owner-pk", vec![], certified_report());
    assert_eq!(
        require_contract(None, &ctx),
        Err(KernelError::ContractError("missing contract binding".to_string()))
    );
    let contract = DefaultStakeContract::new(metadata());
    assert!(require_contract(Some(&contract), &ctx).unwrap().allow);
    let deny = |reason: Option<String>| ContractDecision {
        allow: false,
        reason,
        modified_settlement_rule: None,
        settlement_outcome: None,
        emitted_metadata: JsonEnvelope(b"{}".to_vec()),
    };
    assert_eq!(admit_projection(deny(None)), Err(KernelError::ContractError("contract denied projection".to_string())));
    assert_eq!(admit_projection(deny(Some("no".to_string()))), Err(KernelError::ContractError("no".to_string())));
    let mut allow = deny(None);
    allow.allow = true;
    assert_eq!(admit_projection(allow), Ok(()));
}

#[test]
fn registry_hands_back_the_registered_contract() {
    let mut k = kernel();
    k.contracts.register(DefaultStakeContract::new(metadata()));
    let id = ContractId("stake-1".to_string());
    let bound = k.contracts.get(&id).unwrap();
    assert_eq!(bound.metadata().contract_id, id);
    assert_eq!(bound.metadata().owner_pk, "owner-pk");
    assert!(bound.evaluate(&contract_ctx("owner-pk", vec![], certified_report())).unwrap().allow);
    let mut replacement = metadata();
    replacement.owner_pk = "new-owner".to_string();
    k.contracts.register(DefaultStakeContract::new(replacement));
    let bound = k.contracts.get(&id).unwrap();
    assert_eq!(bound.metadata().owner_pk, "new-owner");
    let decision = k.contracts.evaluate_bound(&id, &contract_ctx("owner-pk", vec![], certified_report())).unwrap().unwrap();
    assert!(!decision.allow);
    assert_eq!(decision.reason, Some("access policy denied the caller".to_string()));
}
