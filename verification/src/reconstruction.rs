use vstd::prelude::*;

use crate::errors::{KernelError, KernelErrorKind, Result};
use crate::projection::{
    status_failure, DrainPolicy, ProjectionEnvelope, ProjectionStatus, SettlementRule,
};
use crate::types::{
    covers, dimension_mismatch_detail, negative_difference_detail, seq_sat_add, seq_sub, zeros,
    ProjectionId, RecordId, Vector,
};

verus! {

#[derive(Debug, PartialEq, Eq)]
pub enum SettlementOutcome {
    NoChange,
    Gain { amount: Vector },
    Loss { amount: Vector },
    PartialRelease { amount: Vector },
    StagedRelease { released: Vector, remaining_locked: Vector, remaining_phases: u32 },
}

impl SettlementOutcome {
    /// Equality of outcomes, comparing vectors by their contents.
    pub open spec fn same(self, other: SettlementOutcome) -> bool {
        match (self, other) {
            (SettlementOutcome::NoChange, SettlementOutcome::NoChange) => true,
            (SettlementOutcome::Gain { amount: a }, SettlementOutcome::Gain { amount: b }) => a@ == b@,
            (SettlementOutcome::Loss { amount: a }, SettlementOutcome::Loss { amount: b }) => a@ == b@,
            (
                SettlementOutcome::PartialRelease { amount: a },
                SettlementOutcome::PartialRelease { amount: b },
            ) => a@ == b@,
            (
                SettlementOutcome::StagedRelease {
                    released: r1,
                    remaining_locked: l1,
                    remaining_phases: p1,
                },
                SettlementOutcome::StagedRelease {
                    released: r2,
                    remaining_locked: l2,
                    remaining_phases: p2,
                },
            ) => r1@ == r2@ && l1@ == l2@ && p1 == p2,
            _ => false,
        }
    }

    /// The summary text a receipt records for the outcome.
    pub open spec fn summary(self) -> Seq<char> {
        match self {
            SettlementOutcome::NoChange => "no change"@,
            SettlementOutcome::Gain { .. } => "gain settled"@,
            SettlementOutcome::Loss { .. } => "loss settled"@,
            SettlementOutcome::PartialRelease { .. } => "partial release settled"@,
            SettlementOutcome::StagedRelease { .. } => "staged settlement applied"@,
        }
    }
}

impl Clone for SettlementOutcome {
    fn clone(&self) -> (r: Self)
        ensures
            r.same(*self),
    {
        match self {
            SettlementOutcome::NoChange => SettlementOutcome::NoChange,
            SettlementOutcome::Gain { amount } => SettlementOutcome::Gain { amount: amount.clone() },
            SettlementOutcome::Loss { amount } => SettlementOutcome::Loss { amount: amount.clone() },
            SettlementOutcome::PartialRelease { amount } => SettlementOutcome::PartialRelease {
                amount: amount.clone(),
            },
            SettlementOutcome::StagedRelease { released, remaining_locked, remaining_phases } =>
                SettlementOutcome::StagedRelease {
                released: released.clone(),
                remaining_locked: remaining_locked.clone(),
                remaining_phases: *remaining_phases,
            },
        }
    }
}

#[derive(Debug, PartialEq, Eq)]
pub struct ReconstructionRequest {
    pub projection: ProjectionEnvelope,
    pub outcome: SettlementOutcome,
    pub reconstructed_record_id: RecordId,
    pub settlement_reference: String,
}

#[derive(Debug, PartialEq, Eq)]
pub struct ReconstructionReceipt {
    pub projection_id: ProjectionId,
    pub prior_record_id: RecordId,
    pub settlement_record_id: RecordId,
    pub resulting_vector: Vector,
    pub returned_to_live: Vector,
    pub locked_remaining: Vector,
    pub status: ProjectionStatus,
    pub settlement_reference: String,
    pub outcome_summary: String,
    pub drain_policy: DrainPolicy,
}

impl ReconstructionReceipt {
    /// Field-by-field equality, comparing vectors by their contents.
    pub open spec fn same(self, other: ReconstructionReceipt) -> bool {
        &&& self.projection_id == other.projection_id
        &&& self.prior_record_id == other.prior_record_id
        &&& self.settlement_record_id == other.settlement_record_id
        &&& self.resulting_vector@ == other.resulting_vector@
        &&& self.returned_to_live@ == other.returned_to_live@
        &&& self.locked_remaining@ == other.locked_remaining@
        &&& self.status == other.status
        &&& self.settlement_reference == other.settlement_reference
        &&& self.outcome_summary == other.outcome_summary
        &&& self.drain_policy == other.drain_policy
    }
}

impl Clone for ReconstructionReceipt {
    fn clone(&self) -> (r: Self)
        ensures
            r.same(*self),
    {
        ReconstructionReceipt {
            projection_id: self.projection_id.clone(),
            prior_record_id: self.prior_record_id.clone(),
            settlement_record_id: self.settlement_record_id.clone(),
            resulting_vector: self.resulting_vector.clone(),
            returned_to_live: self.returned_to_live.clone(),
            locked_remaining: self.locked_remaining.clone(),
            status: self.status,
            settlement_reference: self.settlement_reference.clone(),
            outcome_summary: self.outcome_summary.clone(),
            drain_policy: self.drain_policy,
        }
    }
}

/// What a settlement does before it is applied to the envelope: the vector returned to the
/// live balance, the vector that stays locked, and the projection's next status.
pub type SettlementStep = (Seq<u128>, Seq<u128>, ProjectionStatus);

/// Subtracting `b` from `a` as `checked_sub_vector` does.
pub open spec fn checked_sub_spec(a: Seq<u128>, b: Seq<u128>) -> core::result::Result<
    Seq<u128>,
    (KernelErrorKind, Seq<char>),
> {
    if a.len() != b.len() {
        Err((KernelErrorKind::TypeMismatch, dimension_mismatch_detail(a.len(), b.len())))
    } else if !covers(a, b) {
        Err((KernelErrorKind::InvalidState, negative_difference_detail()))
    } else {
        Ok(seq_sub(a, b))
    }
}

/// Adding `b` to `a` as `checked_add_vector` does.
pub open spec fn checked_add_spec(a: Seq<u128>, b: Seq<u128>) -> core::result::Result<
    Seq<u128>,
    (KernelErrorKind, Seq<char>),
> {
    if a.len() != b.len() {
        Err((KernelErrorKind::TypeMismatch, dimension_mismatch_detail(a.len(), b.len())))
    } else {
        Ok(seq_sat_add(a, b))
    }
}

/// The effect of `outcome` on a projection that locks `locked`, under `rule`.
pub open spec fn settlement_step(
    locked: Seq<u128>,
    outcome: SettlementOutcome,
    rule: SettlementRule,
) -> core::result::Result<SettlementStep, (KernelErrorKind, Seq<char>)> {
    match outcome {
        SettlementOutcome::NoChange => Ok((locked, zeros(locked.len()), ProjectionStatus::Settled)),
        SettlementOutcome::Gain { amount } => {
            if !rule.allow_gain {
                Err((KernelErrorKind::InvalidState, "gains are disallowed by settlement rule"@))
            } else {
                match checked_add_spec(locked, amount@) {
                    Ok(live) => Ok((live, zeros(locked.len()), ProjectionStatus::Settled)),
                    Err(f) => Err(f),
                }
            }
        },
        SettlementOutcome::Loss { amount } => {
            if !rule.allow_loss {
                Err((KernelErrorKind::InvalidState, "losses are disallowed by settlement rule"@))
            } else {
                match checked_sub_spec(locked, amount@) {
                    Ok(live) => Ok((live, zeros(locked.len()), ProjectionStatus::Settled)),
                    Err(f) => Err(f),
                }
            }
        },
        SettlementOutcome::PartialRelease { amount } => {
            if !rule.allow_partial_release {
                Err(
                    (
                        KernelErrorKind::InvalidState,
                        "partial release is disallowed by settlement rule"@,
                    ),
                )
            } else {
                match checked_sub_spec(locked, amount@) {
                    Ok(rest) => Ok((amount@, rest, ProjectionStatus::Settled)),
                    Err(f) => Err(f),
                }
            }
        },
        SettlementOutcome::StagedRelease { released, remaining_locked, remaining_phases } => {
            if !rule.allow_staged_release {
                Err(
                    (
                        KernelErrorKind::InvalidState,
                        "staged settlement is disallowed by settlement rule"@,
                    ),
                )
            } else if remaining_phases == 0 {
                Err(
                    (
                        KernelErrorKind::InvalidParameter,
                        "remaining_phases must be non-zero for staged release"@,
                    ),
                )
            } else if remaining_phases > rule.max_phases {
                Err(
                    (
                        KernelErrorKind::InvalidParameter,
                        "remaining_phases exceeds settlement rule cap"@,
                    ),
                )
            } else if remaining_phases == 1 {
                Ok((released@, remaining_locked@, ProjectionStatus::Settled))
            } else {
                Ok(
                    (
                        released@,
                        remaining_locked@,
                        ProjectionStatus::Staged { remaining_phases: (remaining_phases - 1) as u32 },
                    ),
                )
            }
        },
    }
}

/// How a settlement of `outcome` on a projection that locks `locked` accounts for the locked
/// amount, between `returned` (given back to the live balance) and `kept` (still locked):
/// - no change returns the locked amount and keeps nothing;
/// - a gain returns the locked amount plus the gain (each component capped at `u128::MAX`) and
///   keeps nothing;
/// - a loss returns the locked amount minus the loss and keeps nothing;
/// - a partial release returns the released amount and keeps the rest of the locked amount;
/// - a staged release returns and keeps what the outcome declares.
pub open spec fn accounts_for(
    locked: Seq<u128>,
    outcome: SettlementOutcome,
    returned: Seq<u128>,
    kept: Seq<u128>,
) -> bool {
    let n = locked.len();
    match outcome {
        SettlementOutcome::NoChange => {
            &&& returned == locked
            &&& kept.len() == n
            &&& forall|i: int| 0 <= i < n ==> kept[i] == 0
        },
        SettlementOutcome::Gain { amount } => {
            &&& amount@.len() == n && returned.len() == n && kept.len() == n
            &&& forall|i: int|
                0 <= i < n ==> kept[i] == 0 && (locked[i] + amount@[i] <= u128::MAX ==> returned[i]
                    == locked[i] + amount@[i]) && (locked[i] + amount@[i] > u128::MAX ==> returned[i]
                    == u128::MAX)
        },
        SettlementOutcome::Loss { amount } => {
            &&& amount@.len() == n && returned.len() == n && kept.len() == n
            &&& forall|i: int| 0 <= i < n ==> kept[i] == 0 && returned[i] + amount@[i] == locked[i]
        },
        SettlementOutcome::PartialRelease { amount } => {
            &&& amount@.len() == n && returned.len() == n && kept.len() == n
            &&& forall|i: int| 0 <= i < n ==> returned[i] == amount@[i] && returned[i] + kept[i] == locked[i]
        },
        SettlementOutcome::StagedRelease { released, remaining_locked, .. } => {
            &&& returned == released@
            &&& kept == remaining_locked@
        },
    }
}

/// The full effect of reconstructing `projection` with `outcome` under `rule`: the projection must
/// be settleable, the outcome must be admitted, and the returned vector must match the live
/// balance's dimension.
pub open spec fn reconstruction_step(
    projection: ProjectionEnvelope,
    outcome: SettlementOutcome,
    rule: SettlementRule,
) -> core::result::Result<SettlementStep, (KernelErrorKind, Seq<char>)> {
    match status_failure(projection.status, projection.projection_id.0@) {
        Some(f) => Err(f),
        None => match settlement_step(projection.locked_vector@, outcome, rule) {
            Err(f) => Err(f),
            Ok(step) => match checked_add_spec(projection.remaining_vector@, step.0) {
                Err(f) => Err(f),
                Ok(_) => Ok(step),
            },
        },
    }
}

/// `updated` and `receipt` are what applying `step` to `projection` produces, with the
/// settlement recorded under `record_id` and referenced by `reference`.
pub open spec fn settled_by(
    updated: ProjectionEnvelope,
    receipt: ReconstructionReceipt,
    projection: ProjectionEnvelope,
    outcome: SettlementOutcome,
    step: SettlementStep,
    record_id: RecordId,
    reference: String,
) -> bool {
    let live = seq_sat_add(projection.remaining_vector@, step.0);
    &&& updated.projection_id == projection.projection_id
    &&& updated.source_entity_id == projection.source_entity_id
    &&& updated.source_space_id == projection.source_space_id
    &&& updated.contract_id == projection.contract_id
    &&& updated.original_vector@ == projection.original_vector@
    &&& updated.remaining_vector@ == live
    &&& updated.locked_vector@ == step.1
    &&& updated.escrow_vector@ == step.1
    &&& updated.lock_kind == projection.lock_kind
    &&& updated.rule_environment == projection.rule_environment
    &&& updated.settlement_rule == projection.settlement_rule
    &&& updated.settlement_trigger == projection.settlement_trigger
    &&& updated.drain_policy == projection.drain_policy
    &&& updated.certification_threshold == projection.certification_threshold
    &&& updated.status == step.2
    &&& updated.created_record_id == projection.created_record_id
    &&& updated.settlement_record_id == Some(record_id)
    &&& updated.created_by_pk == projection.created_by_pk
    &&& receipt.projection_id == projection.projection_id
    &&& receipt.prior_record_id == projection.created_record_id
    &&& receipt.settlement_record_id == record_id
    &&& receipt.resulting_vector@ == live
    &&& receipt.returned_to_live@ == step.0
    &&& receipt.locked_remaining@ == step.1
    &&& receipt.status == step.2
    &&& receipt.settlement_reference == reference
    &&& receipt.outcome_summary@ == outcome.summary()
    &&& receipt.drain_policy == projection.drain_policy
}

/// `base`, plus `add` when given, minus `subtract` when given.
pub open spec fn delta_spec(base: Seq<u128>, add: Option<Seq<u128>>, subtract: Option<Seq<u128>>) -> core::result::Result<
    Seq<u128>,
    (KernelErrorKind, Seq<char>),
> {
    let added = match add {
        Some(a) => checked_add_spec(base, a),
        None => Ok(base),
    };
    match added {
        Err(f) => Err(f),
        Ok(v) => match subtract {
            Some(b) => checked_sub_spec(v, b),
            None => Ok(v),
        },
    }
}

fn apply_vector_delta(base: &Vector, add: Option<&Vector>, subtract: Option<&Vector>) -> (r: Result<
    Vector,
>)
    ensures
        match delta_spec(
            base@,
            match add {
                Some(a) => Some(a@),
                None => None,
            },
            match subtract {
                Some(b) => Some(b@),
                None => None,
            },
        ) {
            Ok(v) => r matches Ok(x) && x@ == v,
            Err(f) => r matches Err(e) && e.is(f.0, f.1),
        },
{
    let mut result = base.clone();
    if let Some(add_vec) = add {
        result = result.checked_add_vector(add_vec)?;
    }
    if let Some(sub_vec) = subtract {
        result = result.checked_sub_vector(sub_vec)?;
    }
    Ok(result)
}

/// Settles an active or staged projection with the declared outcome, returning the updated
/// envelope and a receipt of the settlement.
pub fn reconstruct_projection(request: ReconstructionRequest, settlement_rule: &SettlementRule) -> (r:
    Result<(ProjectionEnvelope, ReconstructionReceipt)>)
    ensures
        match reconstruction_step(request.projection, request.outcome, *settlement_rule) {
            Err(f) => r matches Err(e) && e.is(f.0, f.1),
            Ok(step) => r matches Ok(res) && settled_by(
                res.0,
                res.1,
                request.projection,
                request.outcome,
                step,
                request.reconstructed_record_id,
                request.settlement_reference,
            ),
        },
        r matches Ok(res) ==> {
            let (updated, receipt) = res;
            let before = request.projection.remaining_vector@;
            &&& accounts_for(
                request.projection.locked_vector@,
                request.outcome,
                receipt.returned_to_live@,
                receipt.locked_remaining@,
            )
            &&& updated.locked_vector@ == receipt.locked_remaining@
            &&& updated.escrow_vector@ == receipt.locked_remaining@
            &&& receipt.resulting_vector@ == updated.remaining_vector@
            &&& updated.remaining_vector@.len() == before.len()
            &&& forall|i: int|
                0 <= i < before.len() ==> (before[i] + receipt.returned_to_live@[i] <= u128::MAX
                    ==> updated.remaining_vector@[i] == before[i] + receipt.returned_to_live@[i])
                    && (before[i] + receipt.returned_to_live@[i] > u128::MAX
                    ==> updated.remaining_vector@[i] == u128::MAX)
        },
{
    let ghost locked0 = request.projection.locked_vector@;
    let ghost outcome0 = request.outcome;
    let mut projection = request.projection;
    projection.ensure_settleable()?;
    let locked_len = projection.locked_vector.len();
    let (returned_to_live, locked_remaining, status, summary): (Vector, Vector, ProjectionStatus, String) =
        match request.outcome {
        SettlementOutcome::NoChange => {
            (
                projection.locked_vector.clone(),
                Vector::zero(locked_len),
                ProjectionStatus::Settled,
                String::from_str("no change"),
            )
        },
        SettlementOutcome::Gain { amount } => {
            if !settlement_rule.allow_gain {
                return Err(KernelError::InvalidState(
                    String::from_str("gains are disallowed by settlement rule"),
                ));
            }
            let live = apply_vector_delta(&projection.locked_vector, Some(&amount), None)?;
            (live, Vector::zero(locked_len), ProjectionStatus::Settled, String::from_str("gain settled"))
        },
        SettlementOutcome::Loss { amount } => {
            if !settlement_rule.allow_loss {
                return Err(KernelError::InvalidState(
                    String::from_str("losses are disallowed by settlement rule"),
                ));
            }
            let live = apply_vector_delta(&projection.locked_vector, None, Some(&amount))?;
            (live, Vector::zero(locked_len), ProjectionStatus::Settled, String::from_str("loss settled"))
        },
        SettlementOutcome::PartialRelease { amount } => {
            if !settlement_rule.allow_partial_release {
                return Err(KernelError::InvalidState(
                    String::from_str("partial release is disallowed by settlement rule"),
                ));
            }
            let remaining_locked = projection.locked_vector.checked_sub_vector(&amount)?;
            (amount, remaining_locked, ProjectionStatus::Settled, String::from_str("partial release settled"))
        },
        SettlementOutcome::StagedRelease { released, remaining_locked, remaining_phases } => {
            if !settlement_rule.allow_staged_release {
                return Err(KernelError::InvalidState(
                    String::from_str("staged settlement is disallowed by settlement rule"),
                ));
            }
            if remaining_phases == 0 {
                return Err(KernelError::InvalidParameter(
                    String::from_str("remaining_phases must be non-zero for staged release"),
                ));
            }
            if remaining_phases > settlement_rule.max_phases {
                return Err(KernelError::InvalidParameter(
                    String::from_str("remaining_phases exceeds settlement rule cap"),
                ));
            }
            let projected_status = if remaining_phases == 1 {
                ProjectionStatus::Settled
            } else {
                ProjectionStatus::Staged { remaining_phases: remaining_phases - 1 }
            };
            (released, remaining_locked, projected_status, String::from_str("staged settlement applied"))
        },
    };
    let live = projection.remaining_vector.checked_add_vector(&returned_to_live)?;
    projection.escrow_vector = locked_remaining.clone();
    projection.locked_vector = locked_remaining.clone();
    projection.remaining_vector = live;
    projection.status = status;
    projection.settlement_record_id = Some(request.reconstructed_record_id.clone());
    let receipt = ReconstructionReceipt {
        projection_id: projection.projection_id.clone(),
        prior_record_id: projection.created_record_id.clone(),
        settlement_record_id: request.reconstructed_record_id,
        resulting_vector: projection.remaining_vector.clone(),
        returned_to_live,
        locked_remaining,
        status,
        settlement_reference: request.settlement_reference,
        outcome_summary: summary,
        drain_policy: projection.drain_policy,
    };
    proof {
        crate::laws::law_settlement_accounts_for_locked(locked0, outcome0, *settlement_rule);
    }
    Ok((projection, receipt))
}

} // verus!
