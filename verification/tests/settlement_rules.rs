use v_contractx::certification::CertificationThreshold;
use v_contractx::errors::KernelError;
use v_contractx::projection::{
    build_projection_envelope, DrainPolicy, ProjectionEnvelope, ProjectionLockKind,
    ProjectionRequest, ProjectionStatus, SettlementRule, SettlementTrigger,
};
use v_contractx::reconstruction::{reconstruct_projection, ReconstructionRequest, SettlementOutcome};
use v_contractx::record::make_record_id;
use v_contractx::types::{
    EntityId, JsonEnvelope, ProjectionId, RecordId, SpaceId, Vector, VectorState, VectorTypeTag,
};

fn request(source: Vec<u128>, locked: Vec<u128>) -> ProjectionRequest {
    ProjectionRequest {
        projection_id: ProjectionId("proj-1".to_string()),
        source_entity_id: EntityId("wallet-a".to_string()),
        source_space_id: SpaceId("space-a".to_string()),
        contract_id: None,
        source_state: VectorState {
            vector: Vector::new(source),
            owner_pk: "pk-a".to_string(),
            tau: VectorTypeTag::Free,
            meta: JsonEnvelope(b"{}".to_vec()),
        },
        locked_amount: Vector::new(locked),
        lock_kind: ProjectionLockKind::Stake,
        rule_environment: "task-a".to_string(),
        settlement_rule: SettlementRule::immediate(),
        settlement_trigger: SettlementTrigger::Manual,
        drain_policy: DrainPolicy::NoDrain,
        certification_threshold: CertificationThreshold(500_000),
        created_by_pk: "pk-a".to_string(),
        parent_record_ids: vec![],
    }
}

fn envelope() -> ProjectionEnvelope {
    build_projection_envelope(&request(vec![10, 5, 0], vec![5, 3, 0]), RecordId("project-1".to_string())).unwrap()
}

fn settle(
    projection: ProjectionEnvelope,
    outcome: SettlementOutcome,
    rule: &SettlementRule,
) -> Result<(ProjectionEnvelope, v_contractx::reconstruction::ReconstructionReceipt), KernelError> {
    reconstruct_projection(
        ReconstructionRequest {
            projection,
            outcome,
            reconstructed_record_id: make_record_id("reconstruct", 2),
            settlement_reference: "ref".to_string(),
        },
        rule,
    )
}

fn staged_rule(max_phases: u32) -> SettlementRule {
    SettlementRule {
        allow_gain: false,
        allow_loss: false,
        allow_partial_release: false,
        allow_staged_release: true,
        max_phases,
    }
}

#[test]
fn immediate_rule_allows_single_phase_outcomes() {
    let rule = SettlementRule::immediate();
    assert!(rule.allow_gain && rule.allow_loss && rule.allow_partial_release);
    assert!(!rule.allow_staged_release);
    assert_eq!(rule.max_phases, 1);
}

#[test]
fn projection_isolates_locked_amount() {
    let env = envelope();
    assert_eq!(env.original_vector, Vector::new(vec![10, 5, 0]));
    assert_eq!(env.remaining_vector, Vector::new(vec![5, 2, 0]));
    assert_eq!(env.locked_vector, Vector::new(vec![5, 3, 0]));
    assert_eq!(env.escrow_vector, Vector::new(vec![5, 3, 0]));
    assert_eq!(env.status, ProjectionStatus::Active);
    assert_eq!(env.created_record_id, RecordId("project-1".to_string()));
    assert_eq!(env.settlement_record_id, None);
    assert!(env.is_active());
    assert_eq!(env.ensure_settleable(), Ok(()));
    let total: u128 = env.remaining_vector.magnitude() + env.locked_vector.magnitude();
    assert_eq!(total, env.original_vector.magnitude());
}

#[test]
fn projection_refuses_bad_requests() {
    let rid = RecordId("project-1".to_string());
    assert_eq!(
        build_projection_envelope(&request(vec![10, 5], vec![1, 1, 1]), rid.clone()),
        Err(KernelError::TypeMismatch("vector dimension mismatch: 2 vs 3".to_string()))
    );
    assert_eq!(
        build_projection_envelope(&request(vec![10, 5], vec![11, 0]), rid.clone()),
        Err(KernelError::InvalidState("cannot subtract larger projected vector from source".to_string()))
    );
    assert_eq!(
        build_projection_envelope(&request(vec![10, 5], vec![0, 0]), rid),
        Err(KernelError::ZeroVectorViolation("projection locked amount cannot be zero".to_string()))
    );
}

#[test]
fn settleability_follows_status() {
    let mut env = envelope();
    env.status = ProjectionStatus::Staged { remaining_phases: 2 };
    assert!(env.is_active());
    env.status = ProjectionStatus::Settled;
    assert!(!env.is_active());
    assert_eq!(
        env.ensure_settleable(),
        Err(KernelError::DoubleReconstruction("projection proj-1 already settled".to_string()))
    );
    env.status = ProjectionStatus::Settling;
    assert_eq!(
        env.ensure_settleable(),
        Err(KernelError::InvalidState("projection proj-1 is already settling".to_string()))
    );
    env.status = ProjectionStatus::Revoked;
    assert_eq!(
        env.ensure_settleable(),
        Err(KernelError::InvalidState("projection proj-1 is revoked".to_string()))
    );
}

#[test]
fn no_change_restores_the_source() {
    let (updated, receipt) = settle(envelope(), SettlementOutcome::NoChange, &SettlementRule::immediate()).unwrap();
    assert_eq!(updated.remaining_vector, Vector::new(vec![10, 5, 0]));
    assert_eq!(updated.locked_vector, Vector::new(vec![0, 0, 0]));
    assert_eq!(updated.escrow_vector, Vector::new(vec![0, 0, 0]));
    assert_eq!(updated.status, ProjectionStatus::Settled);
    assert_eq!(updated.settlement_record_id, Some(RecordId("reconstruct-2".to_string())));
    assert_eq!(receipt.returned_to_live, Vector::new(vec![5, 3, 0]));
    assert_eq!(receipt.resulting_vector, Vector::new(vec![10, 5, 0]));
    assert_eq!(receipt.outcome_summary, "no change");
    assert_eq!(receipt.prior_record_id, RecordId("project-1".to_string()));
    assert_eq!(receipt.settlement_record_id, RecordId("reconstruct-2".to_string()));
    assert_eq!(receipt.settlement_reference, "ref");
    assert_eq!(receipt.drain_policy, DrainPolicy::NoDrain);
}

#[test]
fn gain_and_loss_adjust_the_returned_amount() {
    let (_, gain) = settle(
        envelope(),
        SettlementOutcome::Gain { amount: Vector::new(vec![1, 1, 1]) },
        &SettlementRule::immediate(),
    )
    .unwrap();
    assert_eq!(gain.returned_to_live, Vector::new(vec![6, 4, 1]));
    assert_eq!(gain.resulting_vector, Vector::new(vec![11, 6, 1]));
    assert_eq!(gain.outcome_summary, "gain settled");
    let (_, loss) = settle(
        envelope(),
        SettlementOutcome::Loss { amount: Vector::new(vec![5, 1, 0]) },
        &SettlementRule::immediate(),
    )
    .unwrap();
    assert_eq!(loss.returned_to_live, Vector::new(vec![0, 2, 0]));
    assert_eq!(loss.resulting_vector, Vector::new(vec![5, 4, 0]));
    assert_eq!(loss.locked_remaining, Vector::new(vec![0, 0, 0]));
    assert_eq!(
        settle(
            envelope(),
            SettlementOutcome::Loss { amount: Vector::new(vec![6, 0, 0]) },
            &SettlementRule::immediate(),
        ),
        Err(KernelError::InvalidState("cannot subtract larger projected vector from source".to_string()))
    );
}

#[test]
fn partial_release_splits_the_locked_amount() {
    let (updated, receipt) = settle(
        envelope(),
        SettlementOutcome::PartialRelease { amount: Vector::new(vec![2, 3, 0]) },
        &SettlementRule::immediate(),
    )
    .unwrap();
    assert_eq!(receipt.returned_to_live, Vector::new(vec![2, 3, 0]));
    assert_eq!(receipt.locked_remaining, Vector::new(vec![3, 0, 0]));
    assert_eq!(updated.locked_vector, Vector::new(vec![3, 0, 0]));
    assert_eq!(updated.remaining_vector, Vector::new(vec![7, 5, 0]));
    assert_eq!(updated.status, ProjectionStatus::Settled);
    assert_eq!(receipt.outcome_summary, "partial release settled");
}

#[test]
fn disallowed_outcomes_are_refused() {
    let rule = staged_rule(3);
    assert_eq!(
        settle(envelope(), SettlementOutcome::Gain { amount: Vector::new(vec![0, 0, 0]) }, &rule),
        Err(KernelError::InvalidState("gains are disallowed by settlement rule".to_string()))
    );
    assert_eq!(
        settle(envelope(), SettlementOutcome::Loss { amount: Vector::new(vec![0, 0, 0]) }, &rule),
        Err(KernelError::InvalidState("losses are disallowed by settlement rule".to_string()))
    );
    assert_eq!(
        settle(envelope(), SettlementOutcome::PartialRelease { amount: Vector::new(vec![0, 0, 0]) }, &rule),
        Err(KernelError::InvalidState("partial release is disallowed by settlement rule".to_string()))
    );
    let staged = SettlementOutcome::StagedRelease {
        released: Vector::new(vec![1, 0, 0]),
        remaining_locked: Vector::new(vec![4, 3, 0]),
        remaining_phases: 1,
    };
    assert_eq!(
        settle(envelope(), staged, &SettlementRule::immediate()),
        Err(KernelError::InvalidState("staged settlement is disallowed by settlement rule".to_string()))
    );
}

#[test]
fn staged_release_counts_down_phases() {
    let outcome = |phases: u32| SettlementOutcome::StagedRelease {
        released: Vector::new(vec![1, 0, 0]),
        remaining_locked: Vector::new(vec![4, 3, 0]),
        remaining_phases: phases,
    };
    assert_eq!(
        settle(envelope(), outcome(0), &staged_rule(3)),
        Err(KernelError::InvalidParameter("remaining_phases must be non-zero for staged release".to_string()))
    );
    assert_eq!(
        settle(envelope(), outcome(4), &staged_rule(3)),
        Err(KernelError::InvalidParameter("remaining_phases exceeds settlement rule cap".to_string()))
    );
    let (updated, receipt) = settle(envelope(), outcome(3), &staged_rule(3)).unwrap();
    assert_eq!(updated.status, ProjectionStatus::Staged { remaining_phases: 2 });
    assert_eq!(receipt.status, ProjectionStatus::Staged { remaining_phases: 2 });
    assert_eq!(updated.locked_vector, Vector::new(vec![4, 3, 0]));
    assert_eq!(updated.remaining_vector, Vector::new(vec![6, 2, 0]));
    assert_eq!(receipt.outcome_summary, "staged settlement applied");
    let (last, _) = settle(updated, outcome(1), &staged_rule(3)).unwrap();
    assert_eq!(last.status, ProjectionStatus::Settled);
    assert_eq!(last.remaining_vector, Vector::new(vec![7, 2, 0]));
}

#[test]
fn a_settled_projection_cannot_be_reconstructed_again() {
    let (updated, _) = settle(envelope(), SettlementOutcome::NoChange, &SettlementRule::immediate()).unwrap();
    assert_eq!(
        settle(updated, SettlementOutcome::NoChange, &SettlementRule::immediate()),
        Err(KernelError::DoubleReconstruction("projection proj-1 already settled".to_string()))
    );
}

#[test]
fn returned_vector_must_match_live_dimension() {
    let mut env = envelope();
    env.remaining_vector = Vector::new(vec![1, 1]);
    assert_eq!(
        settle(env, SettlementOutcome::NoChange, &SettlementRule::immediate()),
        Err(KernelError::TypeMismatch("vector dimension mismatch: 2 vs 3".to_string()))
    );
}
