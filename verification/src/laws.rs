//! Properties of the library that span several functions or calls.
use vstd::prelude::*;
use vstd::utf8::{encode_utf8, encode_utf8_decode_utf8, is_ascii_chars, is_ascii_chars_encode_utf8};

use crate::access::{authorized, AccessContext, AccessPolicy, Role};
use crate::canonical::{
    certification_state_json, escape_byte, escaped, hex_digit, json_bool, json_opt_string,
    json_string, json_string_array, json_uint, lemma_regroup, lit,
    operation_kind_json, opt_text, record_id_texts, string_items, uint_items, vector_json,
};
use crate::certification::{
    auth_ratio_value, weighted_sum, AuthInputs, AuthRatio, CertificationContext,
    CertificationReport, CertificationState, CertificationThreshold,
};
use crate::errors::KernelErrorKind;
use crate::projection::{ProjectionEnvelope, ProjectionRequest, ProjectionStatus, SettlementRule};
use crate::reconstruction::{
    accounts_for, reconstruction_step, settled_by, settlement_step, ReconstructionReceipt,
    ReconstructionRequest, SettlementOutcome,
};
use crate::record::{projection_id_text, signature_text, Record};
use crate::runtime::{
    appended, certify_record, create_failure, create_record, project_failure, project_record,
    reconstruct_failure, reconstruct_record, KernelContext, LiveEntityState,
};
use crate::types::{
    all_zero, covers, seq_sat_add, seq_sub, seq_sum, zeros, EntityId, JsonEnvelope, OperationKind,
    ProjectionId, RecordId, RegionId, SignatureReference, SpaceId, Vector, VectorState,
    VectorTypeTag, Wallet,
};
use crate::utils::{decimal, digit_char, AUTH_RATIO_SCALE};

verus! {

proof fn lemma_sum_of_difference(a: Seq<u128>, b: Seq<u128>)
    requires
        covers(a, b),
    ensures
        seq_sum(a) == seq_sum(b) + seq_sum(seq_sub(a, b)),
    decreases a.len(),
{
    if a.len() > 0 {
        assert(seq_sub(a, b).drop_last() =~= seq_sub(a.drop_last(), b.drop_last()));
        lemma_sum_of_difference(a.drop_last(), b.drop_last());
    } else {
        assert(seq_sub(a, b).len() == 0);
    }
}

/// Projection is conservative: what stays live and what is locked add up, component by
/// component and in total magnitude, to the source vector.
pub proof fn law_projection_conserves_source(request: ProjectionRequest)
    requires
        request.acceptable(),
    ensures
        ({
            let source = request.source_state.vector@;
            let locked = request.locked_amount@;
            let remaining = seq_sub(source, locked);
            &&& remaining.len() == source.len()
            &&& forall|i: int| 0 <= i < source.len() ==> remaining[i] + locked[i] == source[i]
            &&& seq_sum(remaining) + seq_sum(locked) == seq_sum(source)
        }),
{
    lemma_sum_of_difference(request.source_state.vector@, request.locked_amount@);
}

/// Settling a fresh projection with no change returns the whole locked amount to the live
/// balance: the source vector is restored exactly and nothing stays locked.
pub proof fn law_no_change_settlement_restores_source(
    request: ProjectionRequest,
    env: ProjectionEnvelope,
    rule: SettlementRule,
)
    requires
        request.acceptable(),
        env.projected_from(request, env.created_record_id),
    ensures
        reconstruction_step(env, SettlementOutcome::NoChange, rule) == Ok::<
            (Seq<u128>, Seq<u128>, ProjectionStatus),
            (KernelErrorKind, Seq<char>),
        >((request.locked_amount@, zeros(request.locked_amount@.len()), ProjectionStatus::Settled)),
        seq_sat_add(env.remaining_vector@, request.locked_amount@) == request.source_state.vector@,
{
    let source = request.source_state.vector@;
    let locked = request.locked_amount@;
    assert(seq_sat_add(seq_sub(source, locked), locked) =~= source);
}

/// A settled projection is never settled again: whatever the outcome and the rule, the
/// attempt is refused as a double reconstruction.
pub proof fn law_settled_projection_refuses_settlement(
    env: ProjectionEnvelope,
    outcome: SettlementOutcome,
    rule: SettlementRule,
)
    requires
        env.status == ProjectionStatus::Settled,
    ensures
        reconstruction_step(env, outcome, rule) == Err::<
            (Seq<u128>, Seq<u128>, ProjectionStatus),
            (KernelErrorKind, Seq<char>),
        >(
            (
                KernelErrorKind::DoubleReconstruction,
                "projection "@ + env.projection_id.0@ + " already settled"@,
            ),
        ),
{
}

/// Every outcome but a staged release settles the projection in one step; a staged release
/// settles it when it declares its last phase and otherwise leaves one phase fewer.
pub proof fn law_settlement_status(locked: Seq<u128>, outcome: SettlementOutcome, rule: SettlementRule)
    requires
        settlement_step(locked, outcome, rule) is Ok,
    ensures
        !(outcome is StagedRelease) ==> settlement_step(locked, outcome, rule)->Ok_0.2
            == ProjectionStatus::Settled,
        outcome matches SettlementOutcome::StagedRelease { remaining_phases, .. } ==> {
            &&& 1 <= remaining_phases <= rule.max_phases
            &&& remaining_phases == 1 ==> settlement_step(locked, outcome, rule)->Ok_0.2
                == ProjectionStatus::Settled
            &&& remaining_phases > 1 ==> settlement_step(locked, outcome, rule)->Ok_0.2
                == (ProjectionStatus::Staged { remaining_phases: (remaining_phases - 1) as u32 })
        },
{
}

/// A settlement that closes a projection yields an envelope that cannot be settled again: any
/// later settlement step on the updated envelope is refused as a double reconstruction.
pub proof fn law_reconstruction_happens_once(
    projection: ProjectionEnvelope,
    outcome: SettlementOutcome,
    rule: SettlementRule,
    updated: ProjectionEnvelope,
    receipt: ReconstructionReceipt,
    record_id: RecordId,
    reference: String,
    next_outcome: SettlementOutcome,
    next_rule: SettlementRule,
)
    requires
        reconstruction_step(projection, outcome, rule) matches Ok(step) && step.2
            == ProjectionStatus::Settled && settled_by(
            updated,
            receipt,
            projection,
            outcome,
            step,
            record_id,
            reference,
        ),
    ensures
        reconstruction_step(updated, next_outcome, next_rule) matches Err(f) && f.0
            == KernelErrorKind::DoubleReconstruction,
{
}

/// Every admitted settlement accounts for the locked amount: what goes back to the live balance
/// and what stays locked add up to the locked amount, plus the gain or minus the loss the outcome
/// declares; only a partial or staged release leaves anything locked.
pub proof fn law_settlement_accounts_for_locked(
    locked: Seq<u128>,
    outcome: SettlementOutcome,
    rule: SettlementRule,
)
    ensures
        settlement_step(locked, outcome, rule) matches Ok(step) ==> accounts_for(
            locked,
            outcome,
            step.0,
            step.1,
        ),
{
    if let Ok(step) = settlement_step(locked, outcome, rule) {
        match outcome {
            SettlementOutcome::NoChange => {},
            SettlementOutcome::Gain { amount } => {},
            SettlementOutcome::Loss { amount } => {},
            SettlementOutcome::PartialRelease { amount } => {},
            SettlementOutcome::StagedRelease { .. } => {},
        }
    }
}

/// A partial release splits the locked amount: what is released and what stays locked add up,
/// component by component, to what was locked.
pub proof fn law_partial_release_splits_locked(
    locked: Seq<u128>,
    outcome: SettlementOutcome,
    rule: SettlementRule,
)
    requires
        outcome is PartialRelease,
        settlement_step(locked, outcome, rule) is Ok,
    ensures
        ({
            let step = settlement_step(locked, outcome, rule)->Ok_0;
            &&& step.0.len() == locked.len() && step.1.len() == locked.len()
            &&& forall|i: int| 0 <= i < locked.len() ==> step.0[i] + step.1[i] == locked[i]
        }),
{
}

/// Subtraction undoes saturating addition when no component saturates, and addition undoes
/// subtraction when the subtrahend fits.
pub proof fn law_vector_add_sub_inverse(a: Seq<u128>, b: Seq<u128>)
    requires
        a.len() == b.len(),
    ensures
        (forall|i: int| 0 <= i < a.len() ==> a[i] + b[i] <= u128::MAX) ==> seq_sub(
            seq_sat_add(a, b),
            b,
        ) == a,
        covers(a, b) ==> seq_sat_add(seq_sub(a, b), b) == a,
{
    if forall|i: int| 0 <= i < a.len() ==> a[i] + b[i] <= u128::MAX {
        assert(seq_sub(seq_sat_add(a, b), b) =~= a);
    }
    if covers(a, b) {
        assert(seq_sat_add(seq_sub(a, b), b) =~= a);
    }
}

/// A record's seal depends on its content alone: a record with the same content as a sealed
/// record is sealed too, so a stored copy verifies exactly as the returned record does.
pub proof fn law_seal_depends_on_content(a: Record, b: Record)
    requires
        a.same(b),
        b.sealed(),
    ensures
        a.sealed(),
        a.material() == b.material(),
{
    assert(a.parent_record_ids@.map_values(|id: RecordId| id.0@) =~= b.parent_record_ids@.map_values(
        |id: RecordId| id.0@,
    ));
}

/// The event store is append-only: an append keeps every earlier record in place and adds one
/// sealed record at the end.
pub proof fn law_event_store_is_append_only(before: Seq<Record>, after: Seq<Record>, rec: Record)
    requires
        appended(before, after, rec),
    ensures
        after.len() == before.len() + 1,
        forall|i: int| 0 <= i < before.len() ==> after[i] == before[i],
        after.last().sealed(),
{
    assert forall|i: int| 0 <= i < before.len() implies after[i] == before[i] by {
        assert(after.drop_last()[i] == after[i]);
    }
    law_seal_depends_on_content(after.last(), rec);
}

/// The open policy admits any caller that holds at least one role, and the owner regardless of
/// roles.
pub proof fn law_open_policy_admits(ctx: AccessContext, policy: AccessPolicy)
    requires
        policy.allowed_roles@ == seq![
            Role::Owner,
            Role::Operator,
            Role::Contract,
            Role::Auditor,
            Role::Validator,
            Role::Admin,
        ],
        policy.allow_owner_override,
        ctx.roles@.len() > 0 || ctx.caller_pk@ == ctx.owner_pk@,
    ensures
        authorized(ctx, policy),
{
    if !(ctx.caller_pk@ == ctx.owner_pk@) {
        let r = ctx.roles@[0];
        assert(policy.allowed_roles@.contains(r)) by {
            match r {
                Role::Owner => assert(policy.allowed_roles@[0] == r),
                Role::Operator => assert(policy.allowed_roles@[1] == r),
                Role::Contract => assert(policy.allowed_roles@[2] == r),
                Role::Auditor => assert(policy.allowed_roles@[3] == r),
                Role::Validator => assert(policy.allowed_roles@[4] == r),
                Role::Admin => assert(policy.allowed_roles@[5] == r),
            }
        }
    }
}

/// A projection the kernel has settled is settled at most once: once a reconstruction stores a
/// settled envelope under a projection's id, every later reconstruction of that id is refused as
/// a double reconstruction, whatever envelope the later request carries.
pub proof fn law_kernel_settles_projection_once(
    states: Map<Seq<char>, ProjectionEnvelope>,
    updated: ProjectionEnvelope,
    request: ReconstructionRequest,
)
    requires
        updated.status == ProjectionStatus::Settled,
        request.projection.projection_id.0@ == updated.projection_id.0@,
    ensures
        reconstruct_failure(states.insert(updated.projection_id.0@, updated), request) matches Some(
            f,
        ) && f.0 == KernelErrorKind::DoubleReconstruction,
{
}

/// A projection's record replays it: the vector before is the entity's live vector, and it is
/// the vector after plus the locked amount, component by component.
pub proof fn law_project_record_replays_projection(
    rec: Record,
    ctx: KernelContext,
    request: ProjectionRequest,
    env: ProjectionEnvelope,
    prior: LiveEntityState,
)
    requires
        project_record(rec, ctx, request, env, prior),
        env.projected_from(request, env.created_record_id),
        request.acceptable(),
        prior.vector_state.vector@ == request.source_state.vector@,
    ensures
        rec.v_before@ == prior.vector_state.vector@,
        rec.v_before@.len() == rec.v_after@.len(),
        rec.v_after@.len() == request.locked_amount@.len(),
        forall|i: int|
            0 <= i < rec.v_before@.len() ==> rec.v_before@[i] == rec.v_after@[i]
                + request.locked_amount@[i],
{
}

/// Creation does not wait for certification: an entity whose score is in range and whose vector
/// suits its type is created whether or not its ratio reaches the threshold, and whether creation
/// fails never depends on the threshold.
pub proof fn law_create_ignores_threshold(
    vector_state: VectorState,
    inputs: AuthInputs,
    ctx: CertificationContext,
    threshold: CertificationThreshold,
)
    ensures
        auth_ratio_value(inputs, ctx.weights) <= AUTH_RATIO_SCALE && !(all_zero(vector_state.vector@)
            && vector_state.tau != VectorTypeTag::Zero) ==> create_failure(vector_state, inputs, ctx)
            is None,
        create_failure(vector_state, inputs, ctx) == create_failure(
            vector_state,
            inputs,
            (CertificationContext { threshold, ..ctx }),
        ),
{
}

/// A certification report compares the weighted score of its inputs with the threshold: the
/// ratio is the weighted sum scaled back to micro units, and the report is certified exactly when
/// that ratio reaches the threshold, with a reason only when it does not.
pub proof fn law_report_compares_ratio_with_threshold(
    report: CertificationReport,
    inputs: AuthInputs,
    ctx: CertificationContext,
)
    requires
        report.certifies(inputs, ctx),
        weighted_sum(inputs, ctx.weights) / AUTH_RATIO_SCALE as int <= AUTH_RATIO_SCALE,
    ensures
        report.auth_ratio.0 == weighted_sum(inputs, ctx.weights) / AUTH_RATIO_SCALE as int,
        (report.state == CertificationState::Certified) == (report.auth_ratio.0 >= ctx.threshold.0),
        report.reason is Some == (report.auth_ratio.0 < ctx.threshold.0),
{
}

/// A re-certification's record carries the new report: its ratio and state are the report's,
/// and so come from the new inputs, not from the entity's earlier certification.
pub proof fn law_certify_record_carries_new_report(
    rec: Record,
    ctx: KernelContext,
    entity_id: EntityId,
    prior: LiveEntityState,
    report: CertificationReport,
    inputs: AuthInputs,
    cert_ctx: CertificationContext,
)
    requires
        certify_record(rec, ctx, entity_id, prior, report),
        report.certifies(inputs, cert_ctx),
    ensures
        rec.auth_ratio == report.auth_ratio,
        rec.certification_state == report.state,
        rec.auth_ratio.0 == auth_ratio_value(inputs, cert_ctx.weights),
        (rec.certification_state == CertificationState::Certified) == (rec.auth_ratio.0
            >= cert_ctx.threshold.0),
{
}

/// A creation's record carries the creation: nothing before, the entity's vector after, and the
/// new entity's score and certification, certified exactly when its ratio reaches the threshold.
pub proof fn law_create_record_carries_the_creation(
    rec: Record,
    ctx: KernelContext,
    wallet: Wallet,
    vector_state: VectorState,
    report: CertificationReport,
    inputs: AuthInputs,
    cert_ctx: CertificationContext,
)
    requires
        create_record(rec, ctx, wallet, vector_state, report),
        report.certifies(inputs, cert_ctx),
    ensures
        rec.v_before@.len() == vector_state.vector@.len(),
        forall|i: int| 0 <= i < rec.v_before@.len() ==> rec.v_before@[i] == 0,
        rec.v_after@ == vector_state.vector@,
        rec.entity_id.0@ == wallet.wallet_id@,
        rec.auth_ratio.0 == auth_ratio_value(inputs, cert_ctx.weights),
        (rec.certification_state == CertificationState::Certified) == (rec.auth_ratio.0
            >= cert_ctx.threshold.0),
{
}

/// A settlement's record carries the settlement: it descends from the projection's own record,
/// names the projection, and goes from the projection's original vector to the live vector the
/// settlement leaves.
pub proof fn law_reconstruct_record_carries_the_settlement(
    rec: Record,
    ctx: KernelContext,
    projection: ProjectionEnvelope,
    updated: ProjectionEnvelope,
    receipt: ReconstructionReceipt,
    outcome: SettlementOutcome,
    step: (Seq<u128>, Seq<u128>, ProjectionStatus),
    record_id: RecordId,
    reference: String,
)
    requires
        reconstruct_record(rec, ctx, projection, updated, receipt),
        settled_by(updated, receipt, projection, outcome, step, record_id, reference),
    ensures
        rec.parent_record_ids@ == seq![projection.created_record_id],
        rec.projection_id == Some(projection.projection_id),
        rec.record_id == record_id,
        rec.v_before@ == projection.original_vector@,
        rec.v_after@ == updated.remaining_vector@,
        rec.v_after@ == seq_sat_add(projection.remaining_vector@, receipt.returned_to_live@),
{
}

/// Projection at the kernel is conservative and owner-only: a projection that passes the
/// kernel's checks comes from the entity's owner and from its live vector, and the live vector
/// it leaves plus the locked amount add up, component by component and in total magnitude, to
/// the live vector before.
pub proof fn law_kernel_projection_conserves_live_vector(
    states: Map<Seq<char>, LiveEntityState>,
    request: ProjectionRequest,
    after: LiveEntityState,
)
    requires
        project_failure(states, request) is None,
        after.vector_state.vector@ == seq_sub(
            states[request.source_entity_id.0@].vector_state.vector@,
            request.locked_amount@,
        ),
    ensures
        ({
            let prior = states[request.source_entity_id.0@];
            let before = prior.vector_state.vector@;
            let now = after.vector_state.vector@;
            let locked = request.locked_amount@;
            &&& prior.vector_state.owner_pk@ == request.created_by_pk@
            &&& before == request.source_state.vector@
            &&& now.len() == before.len()
            &&& forall|i: int| 0 <= i < before.len() ==> now[i] + locked[i] == before[i]
            &&& seq_sum(now) + seq_sum(locked) == seq_sum(before)
        }),
{
    law_projection_conserves_source(request);
}

/// The digit value of a lowercase hexadecimal digit.
spec fn hex_value(d: u8) -> u8 {
    if 48 <= d <= 57 {
        (d - 48) as u8
    } else {
        (d - 87) as u8
    }
}

/// The byte a two-byte escape `\c` stands for.
spec fn unescape_char(c: u8) -> u8 {
    if c == 98 {
        8
    } else if c == 116 {
        9
    } else if c == 110 {
        10
    } else if c == 102 {
        12
    } else if c == 114 {
        13
    } else {
        c
    }
}

/// Reads the bytes of a JSON string's body back from their escaped form, front to back.
spec fn unescaped(b: Seq<u8>) -> Seq<u8>
    decreases b.len(),
{
    if b.len() == 0 {
        seq![]
    } else if b[0] == 92 && b.len() >= 6 && b[1] == 117 {
        seq![(hex_value(b[4]) * 16 + hex_value(b[5])) as u8] + unescaped(b.subrange(6, b.len() as int))
    } else if b[0] == 92 && b.len() >= 2 {
        seq![unescape_char(b[1])] + unescaped(b.subrange(2, b.len() as int))
    } else {
        seq![b[0]] + unescaped(b.subrange(1, b.len() as int))
    }
}

proof fn lemma_unescape_byte(x: u8, t: Seq<u8>)
    ensures
        unescaped(escape_byte(x) + t) == seq![x] + unescaped(t),
{
    let b = escape_byte(x) + t;
    if x == 34 || x == 92 || x == 8 || x == 9 || x == 10 || x == 12 || x == 13 {
        assert(b.subrange(2, b.len() as int) =~= t);
    } else if x < 32 {
        assert(b.subrange(6, b.len() as int) =~= t);
        assert(hex_value(hex_digit(x / 16)) == x / 16);
        assert(hex_value(hex_digit(x % 16)) == x % 16);
        assert((x / 16) * 16 + x % 16 == x);
    } else {
        assert(b.subrange(1, b.len() as int) =~= t);
    }
}

proof fn lemma_unescape_escaped(s: Seq<u8>, t: Seq<u8>)
    ensures
        unescaped(escaped(s) + t) == s + unescaped(t),
    decreases s.len(),
{
    if s.len() == 0 {
        assert(escaped(s) + t =~= t);
        assert(s + unescaped(t) =~= unescaped(t));
    } else {
        let p = s.drop_last();
        let x = s.last();
        lemma_regroup(escaped(p), escape_byte(x), t);
        lemma_unescape_escaped(p, escape_byte(x) + t);
        lemma_unescape_byte(x, t);
        assert(p + (seq![x] + unescaped(t)) =~= s + unescaped(t));
    }
}

/// Reads the body of a JSON string literal up to its closing quote: the bytes it stands for,
/// and what follows the closing quote.
spec fn string_body(b: Seq<u8>) -> (Seq<u8>, Seq<u8>)
    decreases b.len(),
{
    if b.len() == 0 {
        (seq![], seq![])
    } else if b[0] == 34 {
        (seq![], b.subrange(1, b.len() as int))
    } else if b[0] == 92 && b.len() >= 6 && b[1] == 117 {
        let r = string_body(b.subrange(6, b.len() as int));
        (seq![(hex_value(b[4]) * 16 + hex_value(b[5])) as u8] + r.0, r.1)
    } else if b[0] == 92 && b.len() >= 2 {
        let r = string_body(b.subrange(2, b.len() as int));
        (seq![unescape_char(b[1])] + r.0, r.1)
    } else {
        let r = string_body(b.subrange(1, b.len() as int));
        (seq![b[0]] + r.0, r.1)
    }
}

proof fn lemma_string_body_byte(x: u8, t: Seq<u8>)
    ensures
        string_body(escape_byte(x) + t) == (seq![x] + string_body(t).0, string_body(t).1),
{
    let b = escape_byte(x) + t;
    if x == 34 || x == 92 || x == 8 || x == 9 || x == 10 || x == 12 || x == 13 {
        assert(b.subrange(2, b.len() as int) =~= t);
    } else if x < 32 {
        assert(b.subrange(6, b.len() as int) =~= t);
        assert(hex_value(hex_digit(x / 16)) == x / 16);
        assert(hex_value(hex_digit(x % 16)) == x % 16);
        assert((x / 16) * 16 + x % 16 == x);
    } else {
        assert(b.subrange(1, b.len() as int) =~= t);
    }
}

proof fn lemma_string_body_escaped(s: Seq<u8>, u: Seq<u8>)
    ensures
        string_body(escaped(s) + (seq![34u8] + u)) == (s, u),
    decreases s.len(),
{
    let t = seq![34u8] + u;
    if s.len() == 0 {
        assert(escaped(s) + t =~= t);
        assert(t.subrange(1, t.len() as int) =~= u);
    } else {
        let p = s.drop_last();
        let x = s.last();
        lemma_regroup(escaped(p), escape_byte(x), t);
        lemma_string_body_reads(p, escape_byte(x) + t);
        lemma_string_body_byte(x, t);
        assert(t.subrange(1, t.len() as int) =~= u);
        assert(p + (seq![x] + seq![]) =~= s);
    }
}

proof fn lemma_string_body_reads(s: Seq<u8>, t: Seq<u8>)
    ensures
        string_body(escaped(s) + t) == (s + string_body(t).0, string_body(t).1),
    decreases s.len(),
{
    if s.len() == 0 {
        assert(escaped(s) + t =~= t);
        assert(s + string_body(t).0 =~= string_body(t).0);
    } else {
        let p = s.drop_last();
        let x = s.last();
        lemma_regroup(escaped(p), escape_byte(x), t);
        lemma_string_body_reads(p, escape_byte(x) + t);
        lemma_string_body_byte(x, t);
        assert(p + (seq![x] + string_body(t).0) =~= s + string_body(t).0);
    }
}

/// A JSON string literal followed by anything reads back as its text and what follows.
proof fn lemma_json_string_reads_back(p: Seq<char>, u: Seq<u8>)
    ensures
        (json_string(p) + u).len() >= 1,
        (json_string(p) + u)[0] == 34,
        string_body((json_string(p) + u).subrange(1, (json_string(p) + u).len() as int)) == (
        encode_utf8(p), u),
{
    let e = escaped(encode_utf8(p));
    let b = json_string(p) + u;
    assert(b.subrange(1, b.len() as int) =~= e + (seq![34u8] + u));
    lemma_string_body_escaped(encode_utf8(p), u);
}

/// The string literals of `s`, separated by commas, front to back.
spec fn items_forward(s: Seq<Seq<char>>) -> Seq<u8>
    decreases s.len(),
{
    if s.len() == 0 {
        seq![]
    } else if s.len() == 1 {
        json_string(s[0])
    } else {
        json_string(s[0]) + (seq![44u8] + items_forward(s.drop_first()))
    }
}

proof fn lemma_items_forward(s: Seq<Seq<char>>)
    ensures
        string_items(s) == items_forward(s),
    decreases s.len(),
{
    if s.len() >= 2 {
        let init = s.drop_last();
        let rest = s.drop_first();
        lemma_items_forward(init);
        lemma_items_forward(rest);
        assert(rest.drop_last() =~= init.drop_first());
        assert(init[0] == s[0]);
        assert(rest.last() == s.last());
        if s.len() == 2 {
            assert(init.len() == 1);
            assert(rest.len() == 1);
            assert(string_items(s) =~= items_forward(s));
        } else {
            lemma_items_forward(init.drop_first());
            assert(string_items(s) =~= items_forward(s));
        }
    }
}

proof fn lemma_items_forward_injective(s: Seq<Seq<char>>, t: Seq<Seq<char>>)
    requires
        items_forward(s) == items_forward(t),
    ensures
        s == t,
    decreases s.len() + t.len(),
{
    let b = items_forward(s);
    if s.len() == 0 || t.len() == 0 {
        if s.len() != 0 {
            lemma_json_string_reads_back(s[0], if s.len() == 1 { seq![] } else { seq![44u8] + items_forward(s.drop_first()) });
            assert(json_string(s[0]) + seq![] =~= json_string(s[0]));
        }
        if t.len() != 0 {
            lemma_json_string_reads_back(t[0], if t.len() == 1 { seq![] } else { seq![44u8] + items_forward(t.drop_first()) });
            assert(json_string(t[0]) + seq![] =~= json_string(t[0]));
        }
        assert(s =~= t);
    } else {
        let us = if s.len() == 1 { seq![] } else { seq![44u8] + items_forward(s.drop_first()) };
        let ut = if t.len() == 1 { seq![] } else { seq![44u8] + items_forward(t.drop_first()) };
        assert(json_string(s[0]) + seq![] =~= json_string(s[0]));
        assert(json_string(t[0]) + seq![] =~= json_string(t[0]));
        assert(b == json_string(s[0]) + us);
        assert(b == json_string(t[0]) + ut);
        lemma_json_string_reads_back(s[0], us);
        lemma_json_string_reads_back(t[0], ut);
        encode_utf8_decode_utf8(s[0]);
        encode_utf8_decode_utf8(t[0]);
        assert(s[0] == t[0]);
        assert(us == ut);
        if s.len() == 1 || t.len() == 1 {
            if s.len() != 1 {
                assert(us.len() >= 1);
            }
            if t.len() != 1 {
                assert(ut.len() >= 1);
            }
            assert(s.len() == 1 && t.len() == 1);
            assert(s =~= t);
        } else {
            assert(items_forward(s.drop_first()) =~= us.subrange(1, us.len() as int));
            assert(items_forward(t.drop_first()) =~= ut.subrange(1, ut.len() as int));
            lemma_items_forward_injective(s.drop_first(), t.drop_first());
            assert(s =~= seq![s[0]] + s.drop_first());
            assert(t =~= seq![t[0]] + t.drop_first());
        }
    }
}

proof fn lemma_json_string_array_injective(s: Seq<Seq<char>>, t: Seq<Seq<char>>)
    requires
        json_string_array(s) == json_string_array(t),
    ensures
        s == t,
{
    let js = json_string_array(s);
    let is = string_items(s);
    let it = string_items(t);
    assert(js == seq![91u8] + is + seq![93u8]);
    assert(json_string_array(t) == seq![91u8] + it + seq![93u8]);
    assert(is.len() == it.len());
    assert(is =~= js.subrange(1, 1 + is.len() as int));
    assert(it =~= js.subrange(1, 1 + it.len() as int));
    lemma_items_forward(s);
    lemma_items_forward(t);
    lemma_items_forward_injective(s, t);
}

proof fn lemma_json_string_injective(p: Seq<char>, q: Seq<char>)
    requires
        json_string(p) == json_string(q),
    ensures
        p == q,
{
    let ep = escaped(encode_utf8(p));
    let eq = escaped(encode_utf8(q));
    let jp = json_string(p);
    assert(jp.subrange(1, jp.len() - 1) =~= ep);
    assert(jp.subrange(1, jp.len() - 1) =~= eq);
    lemma_unescape_escaped(encode_utf8(p), seq![]);
    lemma_unescape_escaped(encode_utf8(q), seq![]);
    assert(ep + seq![] =~= ep);
    assert(eq + seq![] =~= eq);
    assert(unescaped(seq![]) =~= seq![]);
    assert(encode_utf8(p) + seq![] =~= encode_utf8(p));
    assert(encode_utf8(q) + seq![] =~= encode_utf8(q));
    encode_utf8_decode_utf8(p);
    encode_utf8_decode_utf8(q);
}

proof fn lemma_json_opt_string_injective(p: Option<Seq<char>>, q: Option<Seq<char>>)
    requires
        json_opt_string(p) == json_opt_string(q),
    ensures
        p == q,
{
    reveal_strlit("null");
    is_ascii_chars_encode_utf8("null"@);
    match (p, q) {
        (Some(a), Some(b)) => lemma_json_string_injective(a, b),
        (Some(a), None) => {
            assert(json_opt_string(p)[0] == 34);
            assert(json_opt_string(q)[0] == 110);
        },
        (None, Some(b)) => {
            assert(json_opt_string(q)[0] == 34);
            assert(json_opt_string(p)[0] == 110);
        },
        (None, None) => {},
    }
}

proof fn lemma_json_bool_injective(x: bool, y: bool)
    requires
        json_bool(x) == json_bool(y),
    ensures
        x == y,
{
    reveal_strlit("true");
    reveal_strlit("false");
    is_ascii_chars_encode_utf8("true"@);
    is_ascii_chars_encode_utf8("false"@);
}

/// The number a run of decimal digits stands for.
spec fn decimal_value(s: Seq<char>) -> int
    decreases s.len(),
{
    if s.len() == 0 {
        0
    } else {
        decimal_value(s.drop_last()) * 10 + (s.last() as int - 48)
    }
}

proof fn lemma_decimal_value(n: nat)
    ensures
        decimal_value(decimal(n)) == n,
        decimal(n).len() >= 1,
        forall|i: int| 0 <= i < decimal(n).len() ==> '0' <= #[trigger] decimal(n)[i] <= '9',
    decreases n,
{
    if n < 10 {
        assert(decimal(n).drop_last() =~= Seq::<char>::empty());
        assert(digit_char(n) as int - 48 == n);
        assert(decimal_value(decimal(n)) == decimal_value(Seq::<char>::empty()) * 10 + (n as int));
    } else {
        lemma_decimal_value(n / 10);
        let d = decimal(n);
        assert(d.drop_last() =~= decimal(n / 10));
        assert(d.last() == digit_char(n % 10));
        assert(digit_char(n % 10) as int - 48 == n % 10);
        assert(forall|i: int| 0 <= i < d.len() - 1 ==> d[i] == decimal(n / 10)[i]);
        assert(decimal_value(d) == decimal_value(decimal(n / 10)) * 10 + (n % 10));
        assert((n / 10) * 10 + n % 10 == n);
    }
}

proof fn lemma_json_uint_digits(n: nat)
    ensures
        json_uint(n).len() >= 1,
        forall|i: int| 0 <= i < json_uint(n).len() ==> 48 <= #[trigger] json_uint(n)[i] <= 57,
{
    lemma_decimal_value(n);
    assert(is_ascii_chars(decimal(n)));
    is_ascii_chars_encode_utf8(decimal(n));
    assert forall|i: int| 0 <= i < json_uint(n).len() implies 48 <= #[trigger] json_uint(n)[i] <= 57 by {
        assert('0' <= decimal(n)[i] <= '9');
    }
}

proof fn lemma_json_uint_injective(n: nat, m: nat)
    requires
        json_uint(n) == json_uint(m),
    ensures
        n == m,
{
    encode_utf8_decode_utf8(decimal(n));
    encode_utf8_decode_utf8(decimal(m));
    lemma_decimal_value(n);
    lemma_decimal_value(m);
}

proof fn lemma_uint_items_nonempty(s: Seq<u128>)
    requires
        s.len() >= 1,
    ensures
        uint_items(s).len() >= 1,
{
    lemma_json_uint_digits(s.last() as nat);
    if s.len() == 1 {
        lemma_json_uint_digits(s[0] as nat);
    }
}

proof fn lemma_uint_items_injective(s: Seq<u128>, t: Seq<u128>)
    requires
        uint_items(s) == uint_items(t),
    ensures
        s == t,
    decreases s.len() + t.len(),
{
    let u = uint_items(s);
    if s.len() == 0 || t.len() == 0 {
        if s.len() != 0 {
            lemma_uint_items_nonempty(s);
        }
        if t.len() != 0 {
            lemma_uint_items_nonempty(t);
        }
        assert(s =~= t);
    } else if s.len() == 1 && t.len() == 1 {
        lemma_json_uint_injective(s[0] as nat, t[0] as nat);
        assert(s =~= t);
    } else if s.len() == 1 || t.len() == 1 {
        let (one, many) = if s.len() == 1 {
            (s, t)
        } else {
            (t, s)
        };
        lemma_json_uint_digits(one[0] as nat);
        let head = uint_items(many.drop_last());
        assert(uint_items(many) == head + seq![44u8] + json_uint(many.last() as nat));
        assert(uint_items(many)[head.len() as int] == 44u8);
        assert(json_uint(one[0] as nat)[head.len() as int] == 44u8);
    } else {
        let a = s.last() as nat;
        let b = t.last() as nat;
        let hs = uint_items(s.drop_last());
        let ht = uint_items(t.drop_last());
        lemma_json_uint_digits(a);
        lemma_json_uint_digits(b);
        let la = json_uint(a).len();
        let lb = json_uint(b).len();
        let n = u.len() as int;
        let la = la as int;
        let lb = lb as int;
        assert(u == hs + seq![44u8] + json_uint(a));
        assert(u == ht + seq![44u8] + json_uint(b));
        assert(u[n - la - 1] == 44u8);
        assert(u[n - lb - 1] == 44u8);
        if la < lb {
            assert(u[n - la - 1] == json_uint(b)[lb - la - 1]);
        } else if lb < la {
            assert(u[n - lb - 1] == json_uint(a)[la - lb - 1]);
        }
        assert(json_uint(a) =~= u.subrange(n - la, n));
        assert(json_uint(b) =~= u.subrange(n - lb, n));
        lemma_json_uint_injective(a, b);
        assert(hs =~= u.subrange(0, n - la - 1));
        assert(ht =~= u.subrange(0, n - lb - 1));
        lemma_uint_items_injective(s.drop_last(), t.drop_last());
        assert(s =~= t.drop_last().push(t.last()));
        assert(t =~= t.drop_last().push(t.last()));
    }
}

proof fn lemma_vector_json_injective(v: Seq<u128>, w: Seq<u128>)
    requires
        vector_json(v) == vector_json(w),
    ensures
        v == w,
{
    let p = lit("{\"components\":"@);
    let q = lit("}"@);
    let jv = vector_json(v);
    let pl = p.len() as int;
    let iv = uint_items(v);
    let iw = uint_items(w);
    assert(jv == p + (seq![91u8] + iv + seq![93u8]) + q);
    assert(vector_json(w) == p + (seq![91u8] + iw + seq![93u8]) + q);
    assert(iv.len() == iw.len());
    assert(iv =~= jv.subrange(pl + 1, pl + 1 + iv.len()));
    assert(iw =~= jv.subrange(pl + 1, pl + 1 + iw.len()));
    lemma_uint_items_injective(v, w);
}

/// `u` is an initial segment of `v`.
spec fn leads(u: Seq<u8>, v: Seq<u8>) -> bool {
    u.len() <= v.len() && v.subrange(0, u.len() as int) == u
}

proof fn lemma_prefix_extend(u: Seq<u8>, v: Seq<u8>, c: Seq<u8>)
    requires
        leads(u, v),
    ensures
        leads(u, v + c),
{
    assert((v + c).subrange(0, u.len() as int) =~= v.subrange(0, u.len() as int));
}

/// The `k`-th piece of a record's canonical material: its keys and its fields' texts, in order.
#[verifier::opaque]
spec fn material_piece(r: Record, k: int) -> Seq<u8> {
    if k == 0 {
        lit("{\"record_id\":"@)
    } else if k == 1 {
        json_string(r.record_id.0@)
    } else if k == 2 {
        lit(",\"parent_record_ids\":"@)
    } else if k == 3 {
        json_string_array(record_id_texts(r.parent_record_ids@))
    } else if k == 4 {
        lit(",\"event_kind\":"@)
    } else if k == 5 {
        operation_kind_json(r.event_kind)
    } else if k == 6 {
        lit(",\"space_id\":"@)
    } else if k == 7 {
        json_string(r.space_id.0@)
    } else if k == 8 {
        lit(",\"region_id\":"@)
    } else if k == 9 {
        json_string(r.region_id.0@)
    } else if k == 10 {
        lit(",\"entity_id\":"@)
    } else if k == 11 {
        json_string(r.entity_id.0@)
    } else if k == 12 {
        lit(",\"projection_id\":"@)
    } else if k == 13 {
        json_opt_string(projection_id_text(r.projection_id))
    } else if k == 14 {
        lit(",\"v_before\":"@)
    } else if k == 15 {
        vector_json(r.v_before@)
    } else if k == 16 {
        lit(",\"v_after\":"@)
    } else if k == 17 {
        vector_json(r.v_after@)
    } else if k == 18 {
        lit(",\"parameters\":"@)
    } else if k == 19 {
        r.parameters.0@
    } else if k == 20 {
        lit(",\"certification_state\":"@)
    } else if k == 21 {
        certification_state_json(r.certification_state)
    } else if k == 22 {
        lit(",\"auth_ratio\":"@)
    } else if k == 23 {
        json_uint(r.auth_ratio.0 as nat)
    } else if k == 24 {
        lit(",\"timestamp\":"@)
    } else if k == 25 {
        json_uint(r.timestamp as nat)
    } else if k == 26 {
        lit(",\"logical_clock\":"@)
    } else if k == 27 {
        json_uint(r.logical_clock as nat)
    } else if k == 28 {
        lit(",\"proof\":"@)
    } else if k == 29 {
        json_opt_string(opt_text(r.proof))
    } else if k == 30 {
        lit(",\"initiator_pk\":"@)
    } else if k == 31 {
        json_string(r.initiator_pk@)
    } else if k == 32 {
        lit(",\"signature\":"@)
    } else if k == 33 {
        json_opt_string(signature_text(r.signature))
    } else if k == 34 {
        lit(",\"version\":"@)
    } else if k == 35 {
        json_string(r.version@)
    } else if k == 36 {
        lit(",\"settlement_ref\":"@)
    } else if k == 37 {
        json_opt_string(opt_text(r.settlement_ref))
    } else if k == 38 {
        lit(",\"is_failure\":"@)
    } else if k == 39 {
        json_bool(r.is_failure)
    } else if k == 40 {
        lit(",\"failure_reason\":"@)
    } else if k == 41 {
        json_opt_string(opt_text(r.failure_reason))
    } else if k == 42 {
        lit("}"@)
    } else {
        seq![]
    }
}

/// The first `k` pieces of a record's material, in order.
spec fn material_upto(r: Record, k: nat) -> Seq<u8>
    decreases k,
{
    if k == 0 {
        seq![]
    } else {
        material_upto(r, (k - 1) as nat) + material_piece(r, k - 1)
    }
}

#[verifier::spinoff_prover]
#[verifier::rlimit(60)]
proof fn lemma_material_is_its_pieces(r: Record)
    ensures
        r.material() == material_upto(r, 43),
{
    reveal(material_piece);
    reveal_with_fuel(material_upto, 44);
    assert(material_upto(r, 1) =~= material_piece(r, 0));
}

proof fn lemma_upto_leads(r: Record, j: nat, k: nat)
    requires
        j <= k,
    ensures
        leads(material_upto(r, j), material_upto(r, k)),
    decreases k,
{
    if j == k {
        assert(material_upto(r, j).subrange(0, material_upto(r, j).len() as int) =~= material_upto(r, j));
    } else {
        lemma_upto_leads(r, j, (k - 1) as nat);
        lemma_prefix_extend(material_upto(r, j), material_upto(r, (k - 1) as nat), material_piece(r, k - 1));
    }
}

/// The material pieces of `a` and `b` agree, except perhaps the `j`-th.
spec fn pieces_agree_except(a: Record, b: Record, j: int) -> bool {
    forall|k: int| 0 <= k < 43 && k != j ==> #[trigger] material_piece(a, k) == material_piece(b, k)
}

proof fn lemma_upto_agree(a: Record, b: Record, j: int, k: nat)
    requires
        pieces_agree_except(a, b, j),
        k <= j,
        j < 43,
    ensures
        material_upto(a, k) == material_upto(b, k),
    decreases k,
{
    if k > 0 {
        lemma_upto_agree(a, b, j, (k - 1) as nat);
        assert(material_piece(a, k - 1) == material_piece(b, k - 1));
    }
}

proof fn lemma_upto_len_gap(a: Record, b: Record, j: int, k: nat)
    requires
        pieces_agree_except(a, b, j),
        0 <= j < k <= 43,
    ensures
        material_upto(a, k).len() - material_upto(b, k).len() == material_piece(a, j).len()
            - material_piece(b, j).len(),
    decreases k,
{
    if k == j + 1 {
        lemma_upto_agree(a, b, j, j as nat);
    } else {
        lemma_upto_len_gap(a, b, j, (k - 1) as nat);
        assert(material_piece(a, k - 1) == material_piece(b, k - 1));
    }
}

/// When two records' materials agree and their pieces agree everywhere but at `j`, they agree
/// at `j` too.
proof fn lemma_material_piece_determined(a: Record, b: Record, j: int)
    requires
        0 <= j < 43,
        pieces_agree_except(a, b, j),
        material_upto(a, 43) == material_upto(b, 43),
    ensures
        material_piece(a, j) == material_piece(b, j),
{
    let m = material_upto(a, 43);
    lemma_upto_len_gap(a, b, j, 43);
    lemma_upto_leads(a, (j + 1) as nat, 43);
    lemma_upto_leads(b, (j + 1) as nat, 43);
    lemma_upto_agree(a, b, j, j as nat);
    let ha = material_upto(a, (j + 1) as nat);
    let hb = material_upto(b, (j + 1) as nat);
    let h = material_upto(a, j as nat);
    assert(ha == h + material_piece(a, j));
    assert(hb == h + material_piece(b, j));
    assert(ha.len() == hb.len());
    assert(ha == m.subrange(0, ha.len() as int));
    assert(hb == m.subrange(0, hb.len() as int));
    assert(ha.subrange(h.len() as int, ha.len() as int) =~= material_piece(a, j));
    assert(hb.subrange(h.len() as int, hb.len() as int) =~= material_piece(b, j));
}

proof fn lemma_record_id_piece(r: Record, x: RecordId, y: RecordId)
    ensures
        pieces_agree_except((Record { record_id: x, ..r }), (Record { record_id: y, ..r }), 1),
        material_piece((Record { record_id: x, ..r }), 1) == json_string(x.0@),
        material_piece((Record { record_id: y, ..r }), 1) == json_string(y.0@),
{
    reveal(material_piece);
}

/// A record's seal covers its record id: two records that differ only in their record id have
/// different canonical material, so a changed record id no longer matches the hash sealed over
/// the original.
pub proof fn law_material_distinguishes_record_id(r: Record, x: RecordId, y: RecordId)
    requires
        x.0@ != y.0@,
    ensures
        (Record { record_id: x, ..r }).material() != (Record { record_id: y, ..r }).material(),
{
    let a = Record { record_id: x, ..r };
    let b = Record { record_id: y, ..r };
    if a.material() == b.material() {
        lemma_material_is_its_pieces(a);
        lemma_material_is_its_pieces(b);
        lemma_record_id_piece(r, x, y);
        lemma_material_piece_determined(a, b, 1);
        lemma_json_string_injective(x.0@, y.0@);
    }
}

proof fn lemma_space_id_piece(r: Record, x: SpaceId, y: SpaceId)
    ensures
        pieces_agree_except((Record { space_id: x, ..r }), (Record { space_id: y, ..r }), 7),
        material_piece((Record { space_id: x, ..r }), 7) == json_string(x.0@),
        material_piece((Record { space_id: y, ..r }), 7) == json_string(y.0@),
{
    reveal(material_piece);
}

/// A record's seal covers its space id: two records that differ only in their space id have
/// different canonical material, so a changed space id no longer matches the hash sealed over
/// the original.
pub proof fn law_material_distinguishes_space_id(r: Record, x: SpaceId, y: SpaceId)
    requires
        x.0@ != y.0@,
    ensures
        (Record { space_id: x, ..r }).material() != (Record { space_id: y, ..r }).material(),
{
    let a = Record { space_id: x, ..r };
    let b = Record { space_id: y, ..r };
    if a.material() == b.material() {
        lemma_material_is_its_pieces(a);
        lemma_material_is_its_pieces(b);
        lemma_space_id_piece(r, x, y);
        lemma_material_piece_determined(a, b, 7);
        lemma_json_string_injective(x.0@, y.0@);
    }
}

proof fn lemma_region_id_piece(r: Record, x: RegionId, y: RegionId)
    ensures
        pieces_agree_except((Record { region_id: x, ..r }), (Record { region_id: y, ..r }), 9),
        material_piece((Record { region_id: x, ..r }), 9) == json_string(x.0@),
        material_piece((Record { region_id: y, ..r }), 9) == json_string(y.0@),
{
    reveal(material_piece);
}

/// A record's seal covers its region id: two records that differ only in their region id have
/// different canonical material, so a changed region id no longer matches the hash sealed over
/// the original.
pub proof fn law_material_distinguishes_region_id(r: Record, x: RegionId, y: RegionId)
    requires
        x.0@ != y.0@,
    ensures
        (Record { region_id: x, ..r }).material() != (Record { region_id: y, ..r }).material(),
{
    let a = Record { region_id: x, ..r };
    let b = Record { region_id: y, ..r };
    if a.material() == b.material() {
        lemma_material_is_its_pieces(a);
        lemma_material_is_its_pieces(b);
        lemma_region_id_piece(r, x, y);
        lemma_material_piece_determined(a, b, 9);
        lemma_json_string_injective(x.0@, y.0@);
    }
}

proof fn lemma_entity_id_piece(r: Record, x: EntityId, y: EntityId)
    ensures
        pieces_agree_except((Record { entity_id: x, ..r }), (Record { entity_id: y, ..r }), 11),
        material_piece((Record { entity_id: x, ..r }), 11) == json_string(x.0@),
        material_piece((Record { entity_id: y, ..r }), 11) == json_string(y.0@),
{
    reveal(material_piece);
}

/// A record's seal covers its entity id: two records that differ only in their entity id have
/// different canonical material, so a changed entity id no longer matches the hash sealed over
/// the original.
pub proof fn law_material_distinguishes_entity_id(r: Record, x: EntityId, y: EntityId)
    requires
        x.0@ != y.0@,
    ensures
        (Record { entity_id: x, ..r }).material() != (Record { entity_id: y, ..r }).material(),
{
    let a = Record { entity_id: x, ..r };
    let b = Record { entity_id: y, ..r };
    if a.material() == b.material() {
        lemma_material_is_its_pieces(a);
        lemma_material_is_its_pieces(b);
        lemma_entity_id_piece(r, x, y);
        lemma_material_piece_determined(a, b, 11);
        lemma_json_string_injective(x.0@, y.0@);
    }
}

proof fn lemma_projection_id_piece(r: Record, x: Option<ProjectionId>, y: Option<ProjectionId>)
    ensures
        pieces_agree_except((Record { projection_id: x, ..r }), (Record { projection_id: y, ..r }), 13),
        material_piece((Record { projection_id: x, ..r }), 13) == json_opt_string(projection_id_text(x)),
        material_piece((Record { projection_id: y, ..r }), 13) == json_opt_string(projection_id_text(y)),
{
    reveal(material_piece);
}

/// A record's seal covers its projection id: two records that differ only in their projection id have
/// different canonical material, so a changed projection id no longer matches the hash sealed over
/// the original.
pub proof fn law_material_distinguishes_projection_id(r: Record, x: Option<ProjectionId>, y: Option<ProjectionId>)
    requires
        projection_id_text(x) != projection_id_text(y),
    ensures
        (Record { projection_id: x, ..r }).material() != (Record { projection_id: y, ..r }).material(),
{
    let a = Record { projection_id: x, ..r };
    let b = Record { projection_id: y, ..r };
    if a.material() == b.material() {
        lemma_material_is_its_pieces(a);
        lemma_material_is_its_pieces(b);
        lemma_projection_id_piece(r, x, y);
        lemma_material_piece_determined(a, b, 13);
        lemma_json_opt_string_injective(projection_id_text(x), projection_id_text(y));
    }
}

proof fn lemma_parameters_piece(r: Record, x: JsonEnvelope, y: JsonEnvelope)
    ensures
        pieces_agree_except((Record { parameters: x, ..r }), (Record { parameters: y, ..r }), 19),
        material_piece((Record { parameters: x, ..r }), 19) == x.0@,
        material_piece((Record { parameters: y, ..r }), 19) == y.0@,
{
    reveal(material_piece);
}

/// A record's seal covers its parameters: two records that differ only in their parameters have
/// different canonical material, so a changed parameters no longer matches the hash sealed over
/// the original.
pub proof fn law_material_distinguishes_parameters(r: Record, x: JsonEnvelope, y: JsonEnvelope)
    requires
        x.0@ != y.0@,
    ensures
        (Record { parameters: x, ..r }).material() != (Record { parameters: y, ..r }).material(),
{
    let a = Record { parameters: x, ..r };
    let b = Record { parameters: y, ..r };
    if a.material() == b.material() {
        lemma_material_is_its_pieces(a);
        lemma_material_is_its_pieces(b);
        lemma_parameters_piece(r, x, y);
        lemma_material_piece_determined(a, b, 19);
        
    }
}

proof fn lemma_proof_piece(r: Record, x: Option<String>, y: Option<String>)
    ensures
        pieces_agree_except((Record { proof: x, ..r }), (Record { proof: y, ..r }), 29),
        material_piece((Record { proof: x, ..r }), 29) == json_opt_string(opt_text(x)),
        material_piece((Record { proof: y, ..r }), 29) == json_opt_string(opt_text(y)),
{
    reveal(material_piece);
}

/// A record's seal covers its proof reference: two records that differ only in their proof reference have
/// different canonical material, so a changed proof reference no longer matches the hash sealed over
/// the original.
pub proof fn law_material_distinguishes_proof(r: Record, x: Option<String>, y: Option<String>)
    requires
        opt_text(x) != opt_text(y),
    ensures
        (Record { proof: x, ..r }).material() != (Record { proof: y, ..r }).material(),
{
    let a = Record { proof: x, ..r };
    let b = Record { proof: y, ..r };
    if a.material() == b.material() {
        lemma_material_is_its_pieces(a);
        lemma_material_is_its_pieces(b);
        lemma_proof_piece(r, x, y);
        lemma_material_piece_determined(a, b, 29);
        lemma_json_opt_string_injective(opt_text(x), opt_text(y));
    }
}

proof fn lemma_initiator_pk_piece(r: Record, x: String, y: String)
    ensures
        pieces_agree_except((Record { initiator_pk: x, ..r }), (Record { initiator_pk: y, ..r }), 31),
        material_piece((Record { initiator_pk: x, ..r }), 31) == json_string(x@),
        material_piece((Record { initiator_pk: y, ..r }), 31) == json_string(y@),
{
    reveal(material_piece);
}

/// A record's seal covers its initiator key: two records that differ only in their initiator key have
/// different canonical material, so a changed initiator key no longer matches the hash sealed over
/// the original.
pub proof fn law_material_distinguishes_initiator_pk(r: Record, x: String, y: String)
    requires
        x@ != y@,
    ensures
        (Record { initiator_pk: x, ..r }).material() != (Record { initiator_pk: y, ..r }).material(),
{
    let a = Record { initiator_pk: x, ..r };
    let b = Record { initiator_pk: y, ..r };
    if a.material() == b.material() {
        lemma_material_is_its_pieces(a);
        lemma_material_is_its_pieces(b);
        lemma_initiator_pk_piece(r, x, y);
        lemma_material_piece_determined(a, b, 31);
        lemma_json_string_injective(x@, y@);
    }
}

proof fn lemma_signature_piece(r: Record, x: Option<SignatureReference>, y: Option<SignatureReference>)
    ensures
        pieces_agree_except((Record { signature: x, ..r }), (Record { signature: y, ..r }), 33),
        material_piece((Record { signature: x, ..r }), 33) == json_opt_string(signature_text(x)),
        material_piece((Record { signature: y, ..r }), 33) == json_opt_string(signature_text(y)),
{
    reveal(material_piece);
}

/// A record's seal covers its signature: two records that differ only in their signature have
/// different canonical material, so a changed signature no longer matches the hash sealed over
/// the original.
pub proof fn law_material_distinguishes_signature(r: Record, x: Option<SignatureReference>, y: Option<SignatureReference>)
    requires
        signature_text(x) != signature_text(y),
    ensures
        (Record { signature: x, ..r }).material() != (Record { signature: y, ..r }).material(),
{
    let a = Record { signature: x, ..r };
    let b = Record { signature: y, ..r };
    if a.material() == b.material() {
        lemma_material_is_its_pieces(a);
        lemma_material_is_its_pieces(b);
        lemma_signature_piece(r, x, y);
        lemma_material_piece_determined(a, b, 33);
        lemma_json_opt_string_injective(signature_text(x), signature_text(y));
    }
}

proof fn lemma_version_piece(r: Record, x: String, y: String)
    ensures
        pieces_agree_except((Record { version: x, ..r }), (Record { version: y, ..r }), 35),
        material_piece((Record { version: x, ..r }), 35) == json_string(x@),
        material_piece((Record { version: y, ..r }), 35) == json_string(y@),
{
    reveal(material_piece);
}

/// A record's seal covers its protocol version: two records that differ only in their protocol version have
/// different canonical material, so a changed protocol version no longer matches the hash sealed over
/// the original.
pub proof fn law_material_distinguishes_version(r: Record, x: String, y: String)
    requires
        x@ != y@,
    ensures
        (Record { version: x, ..r }).material() != (Record { version: y, ..r }).material(),
{
    let a = Record { version: x, ..r };
    let b = Record { version: y, ..r };
    if a.material() == b.material() {
        lemma_material_is_its_pieces(a);
        lemma_material_is_its_pieces(b);
        lemma_version_piece(r, x, y);
        lemma_material_piece_determined(a, b, 35);
        lemma_json_string_injective(x@, y@);
    }
}

proof fn lemma_settlement_ref_piece(r: Record, x: Option<String>, y: Option<String>)
    ensures
        pieces_agree_except((Record { settlement_ref: x, ..r }), (Record { settlement_ref: y, ..r }), 37),
        material_piece((Record { settlement_ref: x, ..r }), 37) == json_opt_string(opt_text(x)),
        material_piece((Record { settlement_ref: y, ..r }), 37) == json_opt_string(opt_text(y)),
{
    reveal(material_piece);
}

/// A record's seal covers its settlement reference: two records that differ only in their settlement reference have
/// different canonical material, so a changed settlement reference no longer matches the hash sealed over
/// the original.
pub proof fn law_material_distinguishes_settlement_ref(r: Record, x: Option<String>, y: Option<String>)
    requires
        opt_text(x) != opt_text(y),
    ensures
        (Record { settlement_ref: x, ..r }).material() != (Record { settlement_ref: y, ..r }).material(),
{
    let a = Record { settlement_ref: x, ..r };
    let b = Record { settlement_ref: y, ..r };
    if a.material() == b.material() {
        lemma_material_is_its_pieces(a);
        lemma_material_is_its_pieces(b);
        lemma_settlement_ref_piece(r, x, y);
        lemma_material_piece_determined(a, b, 37);
        lemma_json_opt_string_injective(opt_text(x), opt_text(y));
    }
}

proof fn lemma_is_failure_piece(r: Record, x: bool, y: bool)
    ensures
        pieces_agree_except((Record { is_failure: x, ..r }), (Record { is_failure: y, ..r }), 39),
        material_piece((Record { is_failure: x, ..r }), 39) == json_bool(x),
        material_piece((Record { is_failure: y, ..r }), 39) == json_bool(y),
{
    reveal(material_piece);
}

/// A record's seal covers its failure flag: two records that differ only in their failure flag have
/// different canonical material, so a changed failure flag no longer matches the hash sealed over
/// the original.
pub proof fn law_material_distinguishes_is_failure(r: Record, x: bool, y: bool)
    requires
        x != y,
    ensures
        (Record { is_failure: x, ..r }).material() != (Record { is_failure: y, ..r }).material(),
{
    let a = Record { is_failure: x, ..r };
    let b = Record { is_failure: y, ..r };
    if a.material() == b.material() {
        lemma_material_is_its_pieces(a);
        lemma_material_is_its_pieces(b);
        lemma_is_failure_piece(r, x, y);
        lemma_material_piece_determined(a, b, 39);
        lemma_json_bool_injective(x, y);
    }
}

proof fn lemma_failure_reason_piece(r: Record, x: Option<String>, y: Option<String>)
    ensures
        pieces_agree_except((Record { failure_reason: x, ..r }), (Record { failure_reason: y, ..r }), 41),
        material_piece((Record { failure_reason: x, ..r }), 41) == json_opt_string(opt_text(x)),
        material_piece((Record { failure_reason: y, ..r }), 41) == json_opt_string(opt_text(y)),
{
    reveal(material_piece);
}

/// A record's seal covers its failure reason: two records that differ only in their failure reason have
/// different canonical material, so a changed failure reason no longer matches the hash sealed over
/// the original.
pub proof fn law_material_distinguishes_failure_reason(r: Record, x: Option<String>, y: Option<String>)
    requires
        opt_text(x) != opt_text(y),
    ensures
        (Record { failure_reason: x, ..r }).material() != (Record { failure_reason: y, ..r }).material(),
{
    let a = Record { failure_reason: x, ..r };
    let b = Record { failure_reason: y, ..r };
    if a.material() == b.material() {
        lemma_material_is_its_pieces(a);
        lemma_material_is_its_pieces(b);
        lemma_failure_reason_piece(r, x, y);
        lemma_material_piece_determined(a, b, 41);
        lemma_json_opt_string_injective(opt_text(x), opt_text(y));
    }
}

proof fn lemma_v_before_piece(r: Record, x: Vector, y: Vector)
    ensures
        pieces_agree_except((Record { v_before: x, ..r }), (Record { v_before: y, ..r }), 15),
        material_piece((Record { v_before: x, ..r }), 15) == vector_json(x@),
        material_piece((Record { v_before: y, ..r }), 15) == vector_json(y@),
{
    reveal(material_piece);
}

/// A record's seal covers its vector before: two records that differ only in their vector before have
/// different canonical material, so a changed vector before no longer matches the hash sealed over
/// the original.
pub proof fn law_material_distinguishes_v_before(r: Record, x: Vector, y: Vector)
    requires
        x@ != y@,
    ensures
        (Record { v_before: x, ..r }).material() != (Record { v_before: y, ..r }).material(),
{
    let a = Record { v_before: x, ..r };
    let b = Record { v_before: y, ..r };
    if a.material() == b.material() {
        lemma_material_is_its_pieces(a);
        lemma_material_is_its_pieces(b);
        lemma_v_before_piece(r, x, y);
        lemma_material_piece_determined(a, b, 15);
        lemma_vector_json_injective(x@, y@);
    }
}

proof fn lemma_v_after_piece(r: Record, x: Vector, y: Vector)
    ensures
        pieces_agree_except((Record { v_after: x, ..r }), (Record { v_after: y, ..r }), 17),
        material_piece((Record { v_after: x, ..r }), 17) == vector_json(x@),
        material_piece((Record { v_after: y, ..r }), 17) == vector_json(y@),
{
    reveal(material_piece);
}

/// A record's seal covers its vector after: two records that differ only in their vector after have
/// different canonical material, so a changed vector after no longer matches the hash sealed over
/// the original.
pub proof fn law_material_distinguishes_v_after(r: Record, x: Vector, y: Vector)
    requires
        x@ != y@,
    ensures
        (Record { v_after: x, ..r }).material() != (Record { v_after: y, ..r }).material(),
{
    let a = Record { v_after: x, ..r };
    let b = Record { v_after: y, ..r };
    if a.material() == b.material() {
        lemma_material_is_its_pieces(a);
        lemma_material_is_its_pieces(b);
        lemma_v_after_piece(r, x, y);
        lemma_material_piece_determined(a, b, 17);
        lemma_vector_json_injective(x@, y@);
    }
}

proof fn lemma_auth_ratio_piece(r: Record, x: AuthRatio, y: AuthRatio)
    ensures
        pieces_agree_except((Record { auth_ratio: x, ..r }), (Record { auth_ratio: y, ..r }), 23),
        material_piece((Record { auth_ratio: x, ..r }), 23) == json_uint(x.0 as nat),
        material_piece((Record { auth_ratio: y, ..r }), 23) == json_uint(y.0 as nat),
{
    reveal(material_piece);
}

/// A record's seal covers its auth ratio: two records that differ only in their auth ratio have
/// different canonical material, so a changed auth ratio no longer matches the hash sealed over
/// the original.
pub proof fn law_material_distinguishes_auth_ratio(r: Record, x: AuthRatio, y: AuthRatio)
    requires
        x.0 != y.0,
    ensures
        (Record { auth_ratio: x, ..r }).material() != (Record { auth_ratio: y, ..r }).material(),
{
    let a = Record { auth_ratio: x, ..r };
    let b = Record { auth_ratio: y, ..r };
    if a.material() == b.material() {
        lemma_material_is_its_pieces(a);
        lemma_material_is_its_pieces(b);
        lemma_auth_ratio_piece(r, x, y);
        lemma_material_piece_determined(a, b, 23);
        lemma_json_uint_injective(x.0 as nat, y.0 as nat);
    }
}

proof fn lemma_timestamp_piece(r: Record, x: u64, y: u64)
    ensures
        pieces_agree_except((Record { timestamp: x, ..r }), (Record { timestamp: y, ..r }), 25),
        material_piece((Record { timestamp: x, ..r }), 25) == json_uint(x as nat),
        material_piece((Record { timestamp: y, ..r }), 25) == json_uint(y as nat),
{
    reveal(material_piece);
}

/// A record's seal covers its timestamp: two records that differ only in their timestamp have
/// different canonical material, so a changed timestamp no longer matches the hash sealed over
/// the original.
pub proof fn law_material_distinguishes_timestamp(r: Record, x: u64, y: u64)
    requires
        x != y,
    ensures
        (Record { timestamp: x, ..r }).material() != (Record { timestamp: y, ..r }).material(),
{
    let a = Record { timestamp: x, ..r };
    let b = Record { timestamp: y, ..r };
    if a.material() == b.material() {
        lemma_material_is_its_pieces(a);
        lemma_material_is_its_pieces(b);
        lemma_timestamp_piece(r, x, y);
        lemma_material_piece_determined(a, b, 25);
        lemma_json_uint_injective(x as nat, y as nat);
    }
}

proof fn lemma_logical_clock_piece(r: Record, x: u64, y: u64)
    ensures
        pieces_agree_except((Record { logical_clock: x, ..r }), (Record { logical_clock: y, ..r }), 27),
        material_piece((Record { logical_clock: x, ..r }), 27) == json_uint(x as nat),
        material_piece((Record { logical_clock: y, ..r }), 27) == json_uint(y as nat),
{
    reveal(material_piece);
}

/// A record's seal covers its logical clock: two records that differ only in their logical clock have
/// different canonical material, so a changed logical clock no longer matches the hash sealed over
/// the original.
pub proof fn law_material_distinguishes_logical_clock(r: Record, x: u64, y: u64)
    requires
        x != y,
    ensures
        (Record { logical_clock: x, ..r }).material() != (Record { logical_clock: y, ..r }).material(),
{
    let a = Record { logical_clock: x, ..r };
    let b = Record { logical_clock: y, ..r };
    if a.material() == b.material() {
        lemma_material_is_its_pieces(a);
        lemma_material_is_its_pieces(b);
        lemma_logical_clock_piece(r, x, y);
        lemma_material_piece_determined(a, b, 27);
        lemma_json_uint_injective(x as nat, y as nat);
    }
}

proof fn lemma_operation_kind_json_injective(x: OperationKind, y: OperationKind)
    requires
        operation_kind_json(x) == operation_kind_json(y),
    ensures
        x == y,
{
    reveal_strlit("\"Create\"");
    is_ascii_chars_encode_utf8("\"Create\""@);
    reveal_strlit("\"Certify\"");
    is_ascii_chars_encode_utf8("\"Certify\""@);
    reveal_strlit("\"Transfer\"");
    is_ascii_chars_encode_utf8("\"Transfer\""@);
    reveal_strlit("\"Drain\"");
    is_ascii_chars_encode_utf8("\"Drain\""@);
    reveal_strlit("\"Project\"");
    is_ascii_chars_encode_utf8("\"Project\""@);
    reveal_strlit("\"Reconstruct\"");
    is_ascii_chars_encode_utf8("\"Reconstruct\""@);
    reveal_strlit("\"Query\"");
    is_ascii_chars_encode_utf8("\"Query\""@);
    reveal_strlit("\"Record\"");
    is_ascii_chars_encode_utf8("\"Record\""@);
    reveal_strlit("\"Move\"");
    is_ascii_chars_encode_utf8("\"Move\""@);
    reveal_strlit("\"Rotate\"");
    is_ascii_chars_encode_utf8("\"Rotate\""@);
    reveal_strlit("\"Scale\"");
    is_ascii_chars_encode_utf8("\"Scale\""@);
    reveal_strlit("\"Normalize\"");
    is_ascii_chars_encode_utf8("\"Normalize\""@);
    reveal_strlit("\"Constrain\"");
    is_ascii_chars_encode_utf8("\"Constrain\""@);
    let jx = operation_kind_json(x);
    let jy = operation_kind_json(y);
    assert(jx.len() == jy.len());
    assert(jx[1] == jy[1]);
    assert(jx[2] == jy[2]);
}

proof fn lemma_certification_state_json_injective(x: CertificationState, y: CertificationState)
    requires
        certification_state_json(x) == certification_state_json(y),
    ensures
        x == y,
{
    reveal_strlit("\"Certified\"");
    is_ascii_chars_encode_utf8("\"Certified\""@);
    reveal_strlit("\"Uncertified\"");
    is_ascii_chars_encode_utf8("\"Uncertified\""@);
    reveal_strlit("\"Suspended\"");
    is_ascii_chars_encode_utf8("\"Suspended\""@);
    reveal_strlit("\"Revoked\"");
    is_ascii_chars_encode_utf8("\"Revoked\""@);
    reveal_strlit("\"Pending\"");
    is_ascii_chars_encode_utf8("\"Pending\""@);
    let jx = certification_state_json(x);
    let jy = certification_state_json(y);
    assert(jx.len() == jy.len());
    assert(jx[1] == jy[1]);
    assert(jx[2] == jy[2]);
}

proof fn lemma_event_kind_piece(r: Record, x: OperationKind, y: OperationKind)
    ensures
        pieces_agree_except((Record { event_kind: x, ..r }), (Record { event_kind: y, ..r }), 5),
        material_piece((Record { event_kind: x, ..r }), 5) == operation_kind_json(x),
        material_piece((Record { event_kind: y, ..r }), 5) == operation_kind_json(y),
{
    reveal(material_piece);
}

/// A record's seal covers its event kind: two records that differ only in their event kind have
/// different canonical material, so a changed event kind no longer matches the hash sealed over
/// the original.
pub proof fn law_material_distinguishes_event_kind(r: Record, x: OperationKind, y: OperationKind)
    requires
        x != y,
    ensures
        (Record { event_kind: x, ..r }).material() != (Record { event_kind: y, ..r }).material(),
{
    let a = Record { event_kind: x, ..r };
    let b = Record { event_kind: y, ..r };
    if a.material() == b.material() {
        lemma_material_is_its_pieces(a);
        lemma_material_is_its_pieces(b);
        lemma_event_kind_piece(r, x, y);
        lemma_material_piece_determined(a, b, 5);
        lemma_operation_kind_json_injective(x, y);
    }
}

proof fn lemma_certification_state_piece(r: Record, x: CertificationState, y: CertificationState)
    ensures
        pieces_agree_except((Record { certification_state: x, ..r }), (Record { certification_state: y, ..r }), 21),
        material_piece((Record { certification_state: x, ..r }), 21) == certification_state_json(x),
        material_piece((Record { certification_state: y, ..r }), 21) == certification_state_json(y),
{
    reveal(material_piece);
}

/// A record's seal covers its certification state: two records that differ only in their certification state have
/// different canonical material, so a changed certification state no longer matches the hash sealed over
/// the original.
pub proof fn law_material_distinguishes_certification_state(r: Record, x: CertificationState, y: CertificationState)
    requires
        x != y,
    ensures
        (Record { certification_state: x, ..r }).material() != (Record { certification_state: y, ..r }).material(),
{
    let a = Record { certification_state: x, ..r };
    let b = Record { certification_state: y, ..r };
    if a.material() == b.material() {
        lemma_material_is_its_pieces(a);
        lemma_material_is_its_pieces(b);
        lemma_certification_state_piece(r, x, y);
        lemma_material_piece_determined(a, b, 21);
        lemma_certification_state_json_injective(x, y);
    }
}

proof fn lemma_parent_record_ids_piece(r: Record, x: Vec<RecordId>, y: Vec<RecordId>)
    ensures
        pieces_agree_except((Record { parent_record_ids: x, ..r }), (Record { parent_record_ids: y, ..r }), 3),
        material_piece((Record { parent_record_ids: x, ..r }), 3) == json_string_array(record_id_texts(x@)),
        material_piece((Record { parent_record_ids: y, ..r }), 3) == json_string_array(record_id_texts(y@)),
{
    reveal(material_piece);
}

/// A record's seal covers its parent records: two records that differ only in the ids of the
/// records they descend from have different canonical material, so a changed parent list no
/// longer matches the hash sealed over the original.
pub proof fn law_material_distinguishes_parent_record_ids(r: Record, x: Vec<RecordId>, y: Vec<RecordId>)
    requires
        record_id_texts(x@) != record_id_texts(y@),
    ensures
        (Record { parent_record_ids: x, ..r }).material() != (Record { parent_record_ids: y, ..r }).material(),
{
    let a = Record { parent_record_ids: x, ..r };
    let b = Record { parent_record_ids: y, ..r };
    if a.material() == b.material() {
        lemma_material_is_its_pieces(a);
        lemma_material_is_its_pieces(b);
        lemma_parent_record_ids_piece(r, x, y);
        lemma_material_piece_determined(a, b, 3);
        lemma_json_string_array_injective(record_id_texts(x@), record_id_texts(y@));
    }
}

} // verus!
