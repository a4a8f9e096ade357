//! The canonical JSON text of the values the kernel records: compact, with object members in a
//! fixed order, strings escaped as JSON requires, and integers in decimal.
use vstd::prelude::*;
use vstd::utf8::encode_utf8;

use crate::certification::{CertificationReport, CertificationState};
use crate::projection::{
    DrainPolicy, ProjectionEnvelope, ProjectionLockKind, ProjectionStatus, SettlementRule, SettlementTrigger,
};
use crate::reconstruction::ReconstructionReceipt;
use crate::types::{JsonEnvelope, OperationKind, RecordId, Vector, VectorState, VectorTypeTag, Wallet};
use crate::utils::{decimal, decimal_string};

verus! {

/// The UTF-8 bytes of a fixed piece of text.
pub open spec fn lit(s: Seq<char>) -> Seq<u8> {
    encode_utf8(s)
}

/// A lowercase hexadecimal digit for `n < 16`.
pub open spec fn hex_digit(n: u8) -> u8 {
    if n < 10 { (48 + n) as u8 } else { (87 + n) as u8 }
}

/// How one byte of a string's UTF-8 text appears inside a JSON string literal.
pub open spec fn escape_byte(b: u8) -> Seq<u8> {
    if b == 34 {
        seq![92u8, 34u8]
    } else if b == 92 {
        seq![92u8, 92u8]
    } else if b == 8 {
        seq![92u8, 98u8]
    } else if b == 9 {
        seq![92u8, 116u8]
    } else if b == 10 {
        seq![92u8, 110u8]
    } else if b == 12 {
        seq![92u8, 102u8]
    } else if b == 13 {
        seq![92u8, 114u8]
    } else if b < 32 {
        seq![92u8, 117u8, 48u8, 48u8, hex_digit(b / 16), hex_digit(b % 16)]
    } else {
        seq![b]
    }
}

/// Every byte of `s` escaped in turn.
pub open spec fn escaped(s: Seq<u8>) -> Seq<u8>
    decreases s.len(),
{
    if s.len() == 0 { seq![] } else { escaped(s.drop_last()) + escape_byte(s.last()) }
}

/// A JSON string literal holding `s`.
pub open spec fn json_string(s: Seq<char>) -> Seq<u8> {
    seq![34u8] + escaped(encode_utf8(s)) + seq![34u8]
}

/// A JSON number for a non-negative integer.
pub open spec fn json_uint(n: nat) -> Seq<u8> {
    encode_utf8(decimal(n))
}

pub open spec fn json_bool(b: bool) -> Seq<u8> {
    if b { lit("true"@) } else { lit("false"@) }
}

pub open spec fn json_null() -> Seq<u8> {
    lit("null"@)
}

/// The text of an optional string.
pub open spec fn opt_text(o: Option<String>) -> Option<Seq<char>> {
    match o {
        Some(s) => Some(s@),
        None => None,
    }
}

/// A string literal, or `null` when absent.
pub open spec fn json_opt_string(s: Option<Seq<char>>) -> Seq<u8> {
    match s {
        Some(t) => json_string(t),
        None => json_null(),
    }
}

/// The comma-separated numbers of `s`.
pub open spec fn uint_items(s: Seq<u128>) -> Seq<u8>
    decreases s.len(),
{
    if s.len() == 0 {
        seq![]
    } else if s.len() == 1 {
        json_uint(s[0] as nat)
    } else {
        uint_items(s.drop_last()) + seq![44u8] + json_uint(s.last() as nat)
    }
}

/// A JSON array of the numbers of `s`.
pub open spec fn json_uint_array(s: Seq<u128>) -> Seq<u8> {
    seq![91u8] + uint_items(s) + seq![93u8]
}

/// The comma-separated string literals of `s`.
pub open spec fn string_items(s: Seq<Seq<char>>) -> Seq<u8>
    decreases s.len(),
{
    if s.len() == 0 {
        seq![]
    } else if s.len() == 1 {
        json_string(s[0])
    } else {
        string_items(s.drop_last()) + seq![44u8] + json_string(s.last())
    }
}

/// A JSON array of the string literals of `s`.
pub open spec fn json_string_array(s: Seq<Seq<char>>) -> Seq<u8> {
    seq![91u8] + string_items(s) + seq![93u8]
}

/// `(a + b) + c` regrouped as `a + (b + c)`.
pub proof fn lemma_regroup(a: Seq<u8>, b: Seq<u8>, c: Seq<u8>)
    ensures
        (a + b) + c == a + (b + c),
{
    vstd::seq_lib::lemma_concat_associative(a, b, c);
}

pub fn push_bytes(buf: &mut Vec<u8>, bytes: &[u8])
    ensures
        final(buf)@ == old(buf)@ + bytes@,
{
    let ghost start = buf@;
    let mut i: usize = 0;
    while i < bytes.len()
        invariant
            i <= bytes@.len(),
            buf@ == start + bytes@.take(i as int),
        decreases bytes@.len() - i,
    {
        buf.push(bytes[i]);
        i = i + 1;
        assert(buf@ =~= start + bytes@.take(i as int));
    }
    assert(bytes@.take(bytes@.len() as int) =~= bytes@);
}

/// Appends the UTF-8 text of `s`.
pub fn push_lit(buf: &mut Vec<u8>, s: &str)
    ensures
        final(buf)@ == old(buf)@ + lit(s@),
{
    push_bytes(buf, s.as_bytes());
}

fn hex_digit_exec(n: u8) -> (r: u8)
    requires
        n < 16,
    ensures
        r == hex_digit(n),
{
    if n < 10 { 48 + n } else { 87 + n }
}

fn push_escaped_byte(buf: &mut Vec<u8>, b: u8)
    ensures
        final(buf)@ == old(buf)@ + escape_byte(b),
{
    let ghost start = buf@;
    if b == 34 {
        buf.push(92);
        buf.push(34);
    } else if b == 92 {
        buf.push(92);
        buf.push(92);
    } else if b == 8 {
        buf.push(92);
        buf.push(98);
    } else if b == 9 {
        buf.push(92);
        buf.push(116);
    } else if b == 10 {
        buf.push(92);
        buf.push(110);
    } else if b == 12 {
        buf.push(92);
        buf.push(102);
    } else if b == 13 {
        buf.push(92);
        buf.push(114);
    } else if b < 32 {
        buf.push(92);
        buf.push(117);
        buf.push(48);
        buf.push(48);
        buf.push(hex_digit_exec(b / 16));
        buf.push(hex_digit_exec(b % 16));
    } else {
        buf.push(b);
    }
    assert(buf@ =~= start + escape_byte(b));
}

/// Appends `s` as a JSON string literal.
pub fn push_json_string(buf: &mut Vec<u8>, s: &str)
    ensures
        final(buf)@ == old(buf)@ + json_string(s@),
{
    let ghost start = buf@;
    buf.push(34);
    let bytes = s.as_bytes();
    let mut i: usize = 0;
    assert(bytes@.take(0) =~= Seq::<u8>::empty());
    assert(buf@ =~= start + seq![34u8] + escaped(bytes@.take(0)));
    while i < bytes.len()
        invariant
            i <= bytes@.len(),
            buf@ == start + seq![34u8] + escaped(bytes@.take(i as int)),
        decreases bytes@.len() - i,
    {
        push_escaped_byte(buf, bytes[i]);
        proof {
            assert(bytes@.take(i + 1).drop_last() =~= bytes@.take(i as int));
            assert(bytes@.take(i + 1).last() == bytes@[i as int]);
            lemma_regroup(start + seq![34u8], escaped(bytes@.take(i as int)), escape_byte(bytes@[i as int]));
        }
        i = i + 1;
    }
    assert(bytes@.take(bytes@.len() as int) =~= bytes@);
    buf.push(34);
    assert(buf@ =~= start + json_string(s@));
}

/// Appends a JSON number.
pub fn push_json_uint(buf: &mut Vec<u8>, n: u128)
    ensures
        final(buf)@ == old(buf)@ + json_uint(n as nat),
{
    let text = decimal_string(n);
    push_bytes(buf, text.as_str().as_bytes());
}

pub fn push_json_bool(buf: &mut Vec<u8>, b: bool)
    ensures
        final(buf)@ == old(buf)@ + json_bool(b),
{
    if b {
        push_lit(buf, "true");
    } else {
        push_lit(buf, "false");
    }
}

pub fn push_json_opt_string(buf: &mut Vec<u8>, s: &Option<String>)
    ensures
        final(buf)@ == old(buf)@ + json_opt_string(opt_text(*s)),
{
    match s {
        Some(t) => push_json_string(buf, t.as_str()),
        None => push_lit(buf, "null"),
    }
}

/// Appends a JSON array of numbers.
pub fn push_json_uint_array(buf: &mut Vec<u8>, values: &Vec<u128>)
    ensures
        final(buf)@ == old(buf)@ + json_uint_array(values@),
{
    let ghost start = buf@;
    buf.push(91);
    let mut i: usize = 0;
    assert(values@.take(0) =~= Seq::<u128>::empty());
    assert(buf@ =~= start + seq![91u8] + uint_items(values@.take(0)));
    while i < values.len()
        invariant
            i <= values@.len(),
            buf@ == start + seq![91u8] + uint_items(values@.take(i as int)),
        decreases values@.len() - i,
    {
        let ghost prefix = start + seq![91u8];
        let ghost before = uint_items(values@.take(i as int));
        let ghost t = values@.take(i + 1);
        assert(t.drop_last() =~= values@.take(i as int));
        assert(t.last() == values@[i as int]);
        if i > 0 {
            buf.push(44);
            push_json_uint(buf, values[i]);
            proof {
                lemma_regroup(prefix, before, seq![44u8]);
                lemma_regroup(prefix, before + seq![44u8], json_uint(values@[i as int] as nat));
            }
        } else {
            push_json_uint(buf, values[i]);
            assert(t =~= seq![values@[0]]);
        }
        i = i + 1;
    }
    assert(values@.take(values@.len() as int) =~= values@);
    buf.push(93);
    assert(buf@ =~= start + json_uint_array(values@));
}

/// The text of record ids, as the list of their strings.
pub open spec fn record_id_texts(ids: Seq<RecordId>) -> Seq<Seq<char>> {
    ids.map_values(|id: RecordId| id.0@)
}

/// Appends a JSON array of record ids.
pub fn push_record_id_array(buf: &mut Vec<u8>, ids: &Vec<RecordId>)
    ensures
        final(buf)@ == old(buf)@ + json_string_array(record_id_texts(ids@)),
{
    let ghost start = buf@;
    let ghost texts = record_id_texts(ids@);
    buf.push(91);
    let mut i: usize = 0;
    assert(texts.take(0) =~= Seq::<Seq<char>>::empty());
    assert(buf@ =~= start + seq![91u8] + string_items(texts.take(0)));
    while i < ids.len()
        invariant
            i <= ids@.len(),
            texts == record_id_texts(ids@),
            texts.len() == ids@.len(),
            buf@ == start + seq![91u8] + string_items(texts.take(i as int)),
        decreases ids@.len() - i,
    {
        let ghost prefix = start + seq![91u8];
        let ghost before = string_items(texts.take(i as int));
        let ghost t = texts.take(i + 1);
        assert(t.drop_last() =~= texts.take(i as int));
        assert(t.last() == ids@[i as int].0@);
        if i > 0 {
            buf.push(44);
            push_json_string(buf, ids[i].0.as_str());
            proof {
                lemma_regroup(prefix, before, seq![44u8]);
                lemma_regroup(prefix, before + seq![44u8], json_string(ids@[i as int].0@));
            }
        } else {
            push_json_string(buf, ids[i].0.as_str());
            assert(t =~= seq![texts[0]]);
        }
        i = i + 1;
    }
    assert(texts.take(ids@.len() as int) =~= texts);
    buf.push(93);
    assert(buf@ =~= start + json_string_array(texts));
}

/// `{"components":[...]}`
pub open spec fn vector_json(v: Seq<u128>) -> Seq<u8> {
    lit("{\"components\":"@) + json_uint_array(v) + lit("}"@)
}

pub fn push_vector(buf: &mut Vec<u8>, v: &Vector)
    ensures
        final(buf)@ == old(buf)@ + vector_json(v@),
{
    let ghost start = buf@;
    push_lit(buf, "{\"components\":");
    push_json_uint_array(buf, &v.components);
    push_lit(buf, "}");
    assert(buf@ =~= start + vector_json(v@));
}

pub open spec fn operation_kind_json(k: OperationKind) -> Seq<u8> {
    match k {
        OperationKind::Create => lit("\"Create\""@),
        OperationKind::Certify => lit("\"Certify\""@),
        OperationKind::Transfer => lit("\"Transfer\""@),
        OperationKind::Drain => lit("\"Drain\""@),
        OperationKind::Project => lit("\"Project\""@),
        OperationKind::Reconstruct => lit("\"Reconstruct\""@),
        OperationKind::Query => lit("\"Query\""@),
        OperationKind::Record => lit("\"Record\""@),
        OperationKind::Move => lit("\"Move\""@),
        OperationKind::Rotate => lit("\"Rotate\""@),
        OperationKind::Scale => lit("\"Scale\""@),
        OperationKind::Normalize => lit("\"Normalize\""@),
        OperationKind::Constrain => lit("\"Constrain\""@),
    }
}

pub fn push_operation_kind(buf: &mut Vec<u8>, k: OperationKind)
    ensures
        final(buf)@ == old(buf)@ + operation_kind_json(k),
{
    match k {
        OperationKind::Create => push_lit(buf, "\"Create\""),
        OperationKind::Certify => push_lit(buf, "\"Certify\""),
        OperationKind::Transfer => push_lit(buf, "\"Transfer\""),
        OperationKind::Drain => push_lit(buf, "\"Drain\""),
        OperationKind::Project => push_lit(buf, "\"Project\""),
        OperationKind::Reconstruct => push_lit(buf, "\"Reconstruct\""),
        OperationKind::Query => push_lit(buf, "\"Query\""),
        OperationKind::Record => push_lit(buf, "\"Record\""),
        OperationKind::Move => push_lit(buf, "\"Move\""),
        OperationKind::Rotate => push_lit(buf, "\"Rotate\""),
        OperationKind::Scale => push_lit(buf, "\"Scale\""),
        OperationKind::Normalize => push_lit(buf, "\"Normalize\""),
        OperationKind::Constrain => push_lit(buf, "\"Constrain\""),
    }
}

pub open spec fn certification_state_json(s: CertificationState) -> Seq<u8> {
    match s {
        CertificationState::Certified => lit("\"Certified\""@),
        CertificationState::Uncertified => lit("\"Uncertified\""@),
        CertificationState::Suspended => lit("\"Suspended\""@),
        CertificationState::Revoked => lit("\"Revoked\""@),
        CertificationState::Pending => lit("\"Pending\""@),
    }
}

pub fn push_certification_state(buf: &mut Vec<u8>, s: CertificationState)
    ensures
        final(buf)@ == old(buf)@ + certification_state_json(s),
{
    match s {
        CertificationState::Certified => push_lit(buf, "\"Certified\""),
        CertificationState::Uncertified => push_lit(buf, "\"Uncertified\""),
        CertificationState::Suspended => push_lit(buf, "\"Suspended\""),
        CertificationState::Revoked => push_lit(buf, "\"Revoked\""),
        CertificationState::Pending => push_lit(buf, "\"Pending\""),
    }
}

pub open spec fn vector_type_json(t: VectorTypeTag) -> Seq<u8> {
    match t {
        VectorTypeTag::Position => lit("\"Position\""@),
        VectorTypeTag::Free => lit("\"Free\""@),
        VectorTypeTag::Bound => lit("\"Bound\""@),
        VectorTypeTag::Unit => lit("\"Unit\""@),
        VectorTypeTag::Zero => lit("\"Zero\""@),
        VectorTypeTag::Spatial => lit("\"Spatial\""@),
    }
}

pub fn push_vector_type(buf: &mut Vec<u8>, t: VectorTypeTag)
    ensures
        final(buf)@ == old(buf)@ + vector_type_json(t),
{
    match t {
        VectorTypeTag::Position => push_lit(buf, "\"Position\""),
        VectorTypeTag::Free => push_lit(buf, "\"Free\""),
        VectorTypeTag::Bound => push_lit(buf, "\"Bound\""),
        VectorTypeTag::Unit => push_lit(buf, "\"Unit\""),
        VectorTypeTag::Zero => push_lit(buf, "\"Zero\""),
        VectorTypeTag::Spatial => push_lit(buf, "\"Spatial\""),
    }
}

pub open spec fn lock_kind_json(k: ProjectionLockKind) -> Seq<u8> {
    match k {
        ProjectionLockKind::Stake => lit("\"Stake\""@),
        ProjectionLockKind::DirectedAllocation => lit("\"DirectedAllocation\""@),
        ProjectionLockKind::RiskEscrow => lit("\"RiskEscrow\""@),
        ProjectionLockKind::TaskLock => lit("\"TaskLock\""@),
    }
}

pub fn push_lock_kind(buf: &mut Vec<u8>, k: ProjectionLockKind)
    ensures
        final(buf)@ == old(buf)@ + lock_kind_json(k),
{
    match k {
        ProjectionLockKind::Stake => push_lit(buf, "\"Stake\""),
        ProjectionLockKind::DirectedAllocation => push_lit(buf, "\"DirectedAllocation\""),
        ProjectionLockKind::RiskEscrow => push_lit(buf, "\"RiskEscrow\""),
        ProjectionLockKind::TaskLock => push_lit(buf, "\"TaskLock\""),
    }
}

pub open spec fn trigger_json(t: SettlementTrigger) -> Seq<u8> {
    match t {
        SettlementTrigger::Manual => lit("\"Manual\""@),
        SettlementTrigger::HeightReached(h) => lit("{\"HeightReached\":"@) + json_uint(h as nat) + lit(
            "}"@,
        ),
        SettlementTrigger::TimeReached(t) => lit("{\"TimeReached\":"@) + json_uint(t as nat) + lit(
            "}"@,
        ),
        SettlementTrigger::ContractSignal => lit("\"ContractSignal\""@),
        SettlementTrigger::OracleSignal => lit("\"OracleSignal\""@),
    }
}

pub fn push_trigger(buf: &mut Vec<u8>, t: SettlementTrigger)
    ensures
        final(buf)@ == old(buf)@ + trigger_json(t),
{
    let ghost start = buf@;
    match t {
        SettlementTrigger::Manual => push_lit(buf, "\"Manual\""),
        SettlementTrigger::HeightReached(h) => {
            push_lit(buf, "{\"HeightReached\":");
            push_json_uint(buf, h as u128);
            push_lit(buf, "}");
            assert(buf@ =~= start + trigger_json(t));
        },
        SettlementTrigger::TimeReached(h) => {
            push_lit(buf, "{\"TimeReached\":");
            push_json_uint(buf, h as u128);
            push_lit(buf, "}");
            assert(buf@ =~= start + trigger_json(t));
        },
        SettlementTrigger::ContractSignal => push_lit(buf, "\"ContractSignal\""),
        SettlementTrigger::OracleSignal => push_lit(buf, "\"OracleSignal\""),
    }
}

pub open spec fn drain_json(d: DrainPolicy) -> Seq<u8> {
    match d {
        DrainPolicy::NoDrain => lit("\"None\""@),
        DrainPolicy::FixedBps(b) => lit("{\"FixedBps\":"@) + json_uint(b as nat) + lit("}"@),
    }
}

pub fn push_drain(buf: &mut Vec<u8>, d: DrainPolicy)
    ensures
        final(buf)@ == old(buf)@ + drain_json(d),
{
    let ghost start = buf@;
    match d {
        DrainPolicy::NoDrain => push_lit(buf, "\"None\""),
        DrainPolicy::FixedBps(b) => {
            push_lit(buf, "{\"FixedBps\":");
            push_json_uint(buf, b as u128);
            push_lit(buf, "}");
            assert(buf@ =~= start + drain_json(d));
        },
    }
}

pub open spec fn status_json(s: ProjectionStatus) -> Seq<u8> {
    match s {
        ProjectionStatus::Active => lit("\"Active\""@),
        ProjectionStatus::Settling => lit("\"Settling\""@),
        ProjectionStatus::Settled => lit("\"Settled\""@),
        ProjectionStatus::Staged { remaining_phases } => lit("{\"Staged\":{\"remaining_phases\":"@)
            + json_uint(remaining_phases as nat) + lit("}}"@),
        ProjectionStatus::Revoked => lit("\"Revoked\""@),
    }
}

pub fn push_status(buf: &mut Vec<u8>, s: ProjectionStatus)
    ensures
        final(buf)@ == old(buf)@ + status_json(s),
{
    let ghost start = buf@;
    match s {
        ProjectionStatus::Active => push_lit(buf, "\"Active\""),
        ProjectionStatus::Settling => push_lit(buf, "\"Settling\""),
        ProjectionStatus::Settled => push_lit(buf, "\"Settled\""),
        ProjectionStatus::Staged { remaining_phases } => {
            push_lit(buf, "{\"Staged\":{\"remaining_phases\":");
            push_json_uint(buf, remaining_phases as u128);
            push_lit(buf, "}}");
            assert(buf@ =~= start + status_json(s));
        },
        ProjectionStatus::Revoked => push_lit(buf, "\"Revoked\""),
    }
}

pub open spec fn rule_json(r: SettlementRule) -> Seq<u8> {
    lit("{\"allow_gain\":"@) + json_bool(r.allow_gain) + lit(",\"allow_loss\":"@) + json_bool(
        r.allow_loss,
    ) + lit(",\"allow_partial_release\":"@) + json_bool(r.allow_partial_release) + lit(
        ",\"allow_staged_release\":"@,
    ) + json_bool(r.allow_staged_release) + lit(",\"max_phases\":"@) + json_uint(
        r.max_phases as nat,
    ) + lit("}"@)
}

pub fn push_rule(buf: &mut Vec<u8>, r: SettlementRule)
    ensures
        final(buf)@ == old(buf)@ + rule_json(r),
{
    let ghost start = buf@;
    push_lit(buf, "{\"allow_gain\":");
    let ghost mut acc = lit("{\"allow_gain\":"@);
    push_json_bool(buf, r.allow_gain);
    proof {
        lemma_regroup(start, acc, json_bool(r.allow_gain));
        acc = acc + json_bool(r.allow_gain);
    }
    push_lit(buf, ",\"allow_loss\":");
    proof {
        lemma_regroup(start, acc, lit(",\"allow_loss\":"@));
        acc = acc + lit(",\"allow_loss\":"@);
    }
    push_json_bool(buf, r.allow_loss);
    proof {
        lemma_regroup(start, acc, json_bool(r.allow_loss));
        acc = acc + json_bool(r.allow_loss);
    }
    push_lit(buf, ",\"allow_partial_release\":");
    proof {
        lemma_regroup(start, acc, lit(",\"allow_partial_release\":"@));
        acc = acc + lit(",\"allow_partial_release\":"@);
    }
    push_json_bool(buf, r.allow_partial_release);
    proof {
        lemma_regroup(start, acc, json_bool(r.allow_partial_release));
        acc = acc + json_bool(r.allow_partial_release);
    }
    push_lit(buf, ",\"allow_staged_release\":");
    proof {
        lemma_regroup(start, acc, lit(",\"allow_staged_release\":"@));
        acc = acc + lit(",\"allow_staged_release\":"@);
    }
    push_json_bool(buf, r.allow_staged_release);
    proof {
        lemma_regroup(start, acc, json_bool(r.allow_staged_release));
        acc = acc + json_bool(r.allow_staged_release);
    }
    push_lit(buf, ",\"max_phases\":");
    proof {
        lemma_regroup(start, acc, lit(",\"max_phases\":"@));
        acc = acc + lit(",\"max_phases\":"@);
    }
    push_json_uint(buf, r.max_phases as u128);
    proof {
        lemma_regroup(start, acc, json_uint((r.max_phases) as nat));
        acc = acc + json_uint((r.max_phases) as nat);
    }
    push_lit(buf, "}");
    proof {
        lemma_regroup(start, acc, lit("}"@));
        acc = acc + lit("}"@);
    }
    assert(acc == rule_json(r));

}

/// A certification report as a JSON object with its members in name order.
pub open spec fn report_json(r: CertificationReport) -> Seq<u8> {
    lit("{\"auth_ratio\":"@) + json_uint(r.auth_ratio.0 as nat) + lit(",\"policy_version\":"@)
        + json_string(r.policy_version@) + lit(",\"reason\":"@) + json_opt_string(opt_text(r.reason)) + lit(",\"state\":"@) + certification_state_json(r.state) + lit(",\"threshold\":"@)
        + json_uint(r.threshold.0 as nat) + lit("}"@)
}

pub fn push_report(buf: &mut Vec<u8>, r: &CertificationReport)
    ensures
        final(buf)@ == old(buf)@ + report_json(*r),
{
    let ghost start = buf@;
    push_lit(buf, "{\"auth_ratio\":");
    let ghost mut acc = lit("{\"auth_ratio\":"@);
    push_json_uint(buf, r.auth_ratio.0 as u128);
    proof {
        lemma_regroup(start, acc, json_uint((r.auth_ratio.0) as nat));
        acc = acc + json_uint((r.auth_ratio.0) as nat);
    }
    push_lit(buf, ",\"policy_version\":");
    proof {
        lemma_regroup(start, acc, lit(",\"policy_version\":"@));
        acc = acc + lit(",\"policy_version\":"@);
    }
    push_json_string(buf, r.policy_version.as_str());
    proof {
        lemma_regroup(start, acc, json_string(r.policy_version@));
        acc = acc + json_string(r.policy_version@);
    }
    push_lit(buf, ",\"reason\":");
    proof {
        lemma_regroup(start, acc, lit(",\"reason\":"@));
        acc = acc + lit(",\"reason\":"@);
    }
    push_json_opt_string(buf, &r.reason);
    proof {
        lemma_regroup(start, acc, json_opt_string(opt_text(r.reason)));
        acc = acc + json_opt_string(opt_text(r.reason));
    }
    push_lit(buf, ",\"state\":");
    proof {
        lemma_regroup(start, acc, lit(",\"state\":"@));
        acc = acc + lit(",\"state\":"@);
    }
    push_certification_state(buf, r.state);
    proof {
        lemma_regroup(start, acc, certification_state_json(r.state));
        acc = acc + certification_state_json(r.state);
    }
    push_lit(buf, ",\"threshold\":");
    proof {
        lemma_regroup(start, acc, lit(",\"threshold\":"@));
        acc = acc + lit(",\"threshold\":"@);
    }
    push_json_uint(buf, r.threshold.0 as u128);
    proof {
        lemma_regroup(start, acc, json_uint((r.threshold.0) as nat));
        acc = acc + json_uint((r.threshold.0) as nat);
    }
    push_lit(buf, "}");
    proof {
        lemma_regroup(start, acc, lit("}"@));
        acc = acc + lit("}"@);
    }
    assert(acc == report_json(*r));

}

/// A wallet as a JSON object with its members in name order.
pub open spec fn wallet_json(w: Wallet) -> Seq<u8> {
    lit("{\"pk\":"@) + json_string(w.pk@) + lit(",\"wallet_id\":"@) + json_string(w.wallet_id@)
        + lit(",\"wallet_meta\":"@) + w.wallet_meta.0@ + lit("}"@)
}

pub fn push_wallet(buf: &mut Vec<u8>, w: &Wallet)
    ensures
        final(buf)@ == old(buf)@ + wallet_json(*w),
{
    let ghost start = buf@;
    push_lit(buf, "{\"pk\":");
    let ghost mut acc = lit("{\"pk\":"@);
    push_json_string(buf, w.pk.as_str());
    proof {
        lemma_regroup(start, acc, json_string(w.pk@));
        acc = acc + json_string(w.pk@);
    }
    push_lit(buf, ",\"wallet_id\":");
    proof {
        lemma_regroup(start, acc, lit(",\"wallet_id\":"@));
        acc = acc + lit(",\"wallet_id\":"@);
    }
    push_json_string(buf, w.wallet_id.as_str());
    proof {
        lemma_regroup(start, acc, json_string(w.wallet_id@));
        acc = acc + json_string(w.wallet_id@);
    }
    push_lit(buf, ",\"wallet_meta\":");
    proof {
        lemma_regroup(start, acc, lit(",\"wallet_meta\":"@));
        acc = acc + lit(",\"wallet_meta\":"@);
    }
    push_bytes(buf, w.wallet_meta.0.as_slice());
    proof {
        lemma_regroup(start, acc, w.wallet_meta.0@);
        acc = acc + w.wallet_meta.0@;
    }
    push_lit(buf, "}");
    proof {
        lemma_regroup(start, acc, lit("}"@));
        acc = acc + lit("}"@);
    }
    assert(acc == wallet_json(*w));

}

/// A vector state as a JSON object with its members in name order.
pub open spec fn vector_state_json(s: VectorState) -> Seq<u8> {
    lit("{\"meta\":"@) + s.meta.0@ + lit(",\"owner_pk\":"@) + json_string(s.owner_pk@) + lit(
        ",\"tau\":"@,
    ) + vector_type_json(s.tau) + lit(",\"vector\":"@) + vector_json(s.vector@) + lit("}"@)
}

pub fn push_vector_state(buf: &mut Vec<u8>, s: &VectorState)
    ensures
        final(buf)@ == old(buf)@ + vector_state_json(*s),
{
    let ghost start = buf@;
    push_lit(buf, "{\"meta\":");
    let ghost mut acc = lit("{\"meta\":"@);
    push_bytes(buf, s.meta.0.as_slice());
    proof {
        lemma_regroup(start, acc, s.meta.0@);
        acc = acc + s.meta.0@;
    }
    push_lit(buf, ",\"owner_pk\":");
    proof {
        lemma_regroup(start, acc, lit(",\"owner_pk\":"@));
        acc = acc + lit(",\"owner_pk\":"@);
    }
    push_json_string(buf, s.owner_pk.as_str());
    proof {
        lemma_regroup(start, acc, json_string(s.owner_pk@));
        acc = acc + json_string(s.owner_pk@);
    }
    push_lit(buf, ",\"tau\":");
    proof {
        lemma_regroup(start, acc, lit(",\"tau\":"@));
        acc = acc + lit(",\"tau\":"@);
    }
    push_vector_type(buf, s.tau);
    proof {
        lemma_regroup(start, acc, vector_type_json(s.tau));
        acc = acc + vector_type_json(s.tau);
    }
    push_lit(buf, ",\"vector\":");
    proof {
        lemma_regroup(start, acc, lit(",\"vector\":"@));
        acc = acc + lit(",\"vector\":"@);
    }
    push_vector(buf, &s.vector);
    proof {
        lemma_regroup(start, acc, vector_json(s.vector@));
        acc = acc + vector_json(s.vector@);
    }
    push_lit(buf, "}");
    proof {
        lemma_regroup(start, acc, lit("}"@));
        acc = acc + lit("}"@);
    }
    assert(acc == vector_state_json(*s));

}

/// A reconstruction receipt as a JSON object with its members in name order.
pub open spec fn receipt_json(r: ReconstructionReceipt) -> Seq<u8> {
    lit("{\"drain_policy\":"@) + drain_json(r.drain_policy) + lit(",\"locked_remaining\":"@)
        + vector_json(r.locked_remaining@) + lit(",\"outcome_summary\":"@) + json_string(
        r.outcome_summary@,
    ) + lit(",\"prior_record_id\":"@) + json_string(r.prior_record_id.0@) + lit(
        ",\"projection_id\":"@,
    ) + json_string(r.projection_id.0@) + lit(",\"resulting_vector\":"@) + vector_json(
        r.resulting_vector@,
    ) + lit(",\"returned_to_live\":"@) + vector_json(r.returned_to_live@) + lit(
        ",\"settlement_record_id\":"@,
    ) + json_string(r.settlement_record_id.0@) + lit(",\"settlement_reference\":"@) + json_string(
        r.settlement_reference@,
    ) + lit(",\"status\":"@) + status_json(r.status) + lit("}"@)
}

pub fn push_receipt(buf: &mut Vec<u8>, r: &ReconstructionReceipt)
    ensures
        final(buf)@ == old(buf)@ + receipt_json(*r),
{
    let ghost start = buf@;
    push_lit(buf, "{\"drain_policy\":");
    let ghost mut acc = lit("{\"drain_policy\":"@);
    push_drain(buf, r.drain_policy);
    proof {
        lemma_regroup(start, acc, drain_json(r.drain_policy));
        acc = acc + drain_json(r.drain_policy);
    }
    push_lit(buf, ",\"locked_remaining\":");
    proof {
        lemma_regroup(start, acc, lit(",\"locked_remaining\":"@));
        acc = acc + lit(",\"locked_remaining\":"@);
    }
    push_vector(buf, &r.locked_remaining);
    proof {
        lemma_regroup(start, acc, vector_json(r.locked_remaining@));
        acc = acc + vector_json(r.locked_remaining@);
    }
    push_lit(buf, ",\"outcome_summary\":");
    proof {
        lemma_regroup(start, acc, lit(",\"outcome_summary\":"@));
        acc = acc + lit(",\"outcome_summary\":"@);
    }
    push_json_string(buf, r.outcome_summary.as_str());
    proof {
        lemma_regroup(start, acc, json_string(r.outcome_summary@));
        acc = acc + json_string(r.outcome_summary@);
    }
    push_lit(buf, ",\"prior_record_id\":");
    proof {
        lemma_regroup(start, acc, lit(",\"prior_record_id\":"@));
        acc = acc + lit(",\"prior_record_id\":"@);
    }
    push_json_string(buf, r.prior_record_id.0.as_str());
    proof {
        lemma_regroup(start, acc, json_string(r.prior_record_id.0@));
        acc = acc + json_string(r.prior_record_id.0@);
    }
    push_lit(buf, ",\"projection_id\":");
    proof {
        lemma_regroup(start, acc, lit(",\"projection_id\":"@));
        acc = acc + lit(",\"projection_id\":"@);
    }
    push_json_string(buf, r.projection_id.0.as_str());
    proof {
        lemma_regroup(start, acc, json_string(r.projection_id.0@));
        acc = acc + json_string(r.projection_id.0@);
    }
    push_lit(buf, ",\"resulting_vector\":");
    proof {
        lemma_regroup(start, acc, lit(",\"resulting_vector\":"@));
        acc = acc + lit(",\"resulting_vector\":"@);
    }
    push_vector(buf, &r.resulting_vector);
    proof {
        lemma_regroup(start, acc, vector_json(r.resulting_vector@));
        acc = acc + vector_json(r.resulting_vector@);
    }
    push_lit(buf, ",\"returned_to_live\":");
    proof {
        lemma_regroup(start, acc, lit(",\"returned_to_live\":"@));
        acc = acc + lit(",\"returned_to_live\":"@);
    }
    push_vector(buf, &r.returned_to_live);
    proof {
        lemma_regroup(start, acc, vector_json(r.returned_to_live@));
        acc = acc + vector_json(r.returned_to_live@);
    }
    push_lit(buf, ",\"settlement_record_id\":");
    proof {
        lemma_regroup(start, acc, lit(",\"settlement_record_id\":"@));
        acc = acc + lit(",\"settlement_record_id\":"@);
    }
    push_json_string(buf, r.settlement_record_id.0.as_str());
    proof {
        lemma_regroup(start, acc, json_string(r.settlement_record_id.0@));
        acc = acc + json_string(r.settlement_record_id.0@);
    }
    push_lit(buf, ",\"settlement_reference\":");
    proof {
        lemma_regroup(start, acc, lit(",\"settlement_reference\":"@));
        acc = acc + lit(",\"settlement_reference\":"@);
    }
    push_json_string(buf, r.settlement_reference.as_str());
    proof {
        lemma_regroup(start, acc, json_string(r.settlement_reference@));
        acc = acc + json_string(r.settlement_reference@);
    }
    push_lit(buf, ",\"status\":");
    proof {
        lemma_regroup(start, acc, lit(",\"status\":"@));
        acc = acc + lit(",\"status\":"@);
    }
    push_status(buf, r.status);
    proof {
        lemma_regroup(start, acc, status_json(r.status));
        acc = acc + status_json(r.status);
    }
    push_lit(buf, "}");
    proof {
        lemma_regroup(start, acc, lit("}"@));
        acc = acc + lit("}"@);
    }
    assert(acc == receipt_json(*r));

}

/// What a create record states: `{"certification":..,"vector_state":..,"wallet":..}`.
pub open spec fn create_parameters_json(w: Wallet, s: VectorState, r: CertificationReport) -> Seq<u8> {
    lit("{\"certification\":"@) + report_json(r) + lit(",\"vector_state\":"@) + vector_state_json(s)
        + lit(",\"wallet\":"@) + wallet_json(w) + lit("}"@)
}

pub fn create_parameters(w: &Wallet, s: &VectorState, r: &CertificationReport) -> (j: JsonEnvelope)
    ensures
        j.0@ == create_parameters_json(*w, *s, *r),
{
    let mut buf: Vec<u8> = Vec::new();
    let ghost start = buf@;
    push_lit(&mut buf, "{\"certification\":");
    let ghost mut acc = lit("{\"certification\":"@);
    push_report(&mut buf, r);
    proof {
        lemma_regroup(start, acc, report_json(*r));
        acc = acc + report_json(*r);
    }
    push_lit(&mut buf, ",\"vector_state\":");
    proof {
        lemma_regroup(start, acc, lit(",\"vector_state\":"@));
        acc = acc + lit(",\"vector_state\":"@);
    }
    push_vector_state(&mut buf, s);
    proof {
        lemma_regroup(start, acc, vector_state_json(*s));
        acc = acc + vector_state_json(*s);
    }
    push_lit(&mut buf, ",\"wallet\":");
    proof {
        lemma_regroup(start, acc, lit(",\"wallet\":"@));
        acc = acc + lit(",\"wallet\":"@);
    }
    push_wallet(&mut buf, w);
    proof {
        lemma_regroup(start, acc, wallet_json(*w));
        acc = acc + wallet_json(*w);
    }
    push_lit(&mut buf, "}");
    proof {
        lemma_regroup(start, acc, lit("}"@));
        acc = acc + lit("}"@);
    }
    assert(acc == create_parameters_json(*w, *s, *r));
    assert(buf@ =~= create_parameters_json(*w, *s, *r));
    JsonEnvelope(buf)
}

/// What a certify record states: `{"certification":..}`.
pub open spec fn certify_parameters_json(r: CertificationReport) -> Seq<u8> {
    lit("{\"certification\":"@) + report_json(r) + lit("}"@)
}

pub fn certify_parameters(r: &CertificationReport) -> (j: JsonEnvelope)
    ensures
        j.0@ == certify_parameters_json(*r),
{
    let mut buf: Vec<u8> = Vec::new();
    push_lit(&mut buf, "{\"certification\":");
    push_report(&mut buf, r);
    push_lit(&mut buf, "}");
    assert(buf@ =~= certify_parameters_json(*r));
    JsonEnvelope(buf)
}

/// What a project record states about the new projection, members in name order.
pub open spec fn project_parameters_json(e: ProjectionEnvelope) -> Seq<u8> {
    lit("{\"certification_threshold\":"@) + json_uint(e.certification_threshold.0 as nat) + lit(
        ",\"drain_policy\":"@,
    ) + drain_json(e.drain_policy) + lit(",\"lock_kind\":"@) + lock_kind_json(e.lock_kind) + lit(
        ",\"locked_vector\":"@,
    ) + vector_json(e.locked_vector@) + lit(",\"projection_id\":"@) + json_string(
        e.projection_id.0@,
    ) + lit(",\"remaining_vector\":"@) + vector_json(e.remaining_vector@) + lit(
        ",\"rule_environment\":"@,
    ) + json_string(e.rule_environment@) + lit(",\"settlement_rule\":"@) + rule_json(
        e.settlement_rule,
    ) + lit(",\"settlement_trigger\":"@) + trigger_json(e.settlement_trigger) + lit("}"@)
}

pub fn project_parameters(e: &ProjectionEnvelope) -> (j: JsonEnvelope)
    ensures
        j.0@ == project_parameters_json(*e),
{
    let mut buf: Vec<u8> = Vec::new();
    let ghost start = buf@;
    push_lit(&mut buf, "{\"certification_threshold\":");
    let ghost mut acc = lit("{\"certification_threshold\":"@);
    push_json_uint(&mut buf, e.certification_threshold.0 as u128);
    proof {
        lemma_regroup(start, acc, json_uint(e.certification_threshold.0 as nat));
        acc = acc + json_uint(e.certification_threshold.0 as nat);
    }
    push_lit(&mut buf, ",\"drain_policy\":");
    proof {
        lemma_regroup(start, acc, lit(",\"drain_policy\":"@));
        acc = acc + lit(",\"drain_policy\":"@);
    }
    push_drain(&mut buf, e.drain_policy);
    proof {
        lemma_regroup(start, acc, drain_json(e.drain_policy));
        acc = acc + drain_json(e.drain_policy);
    }
    push_lit(&mut buf, ",\"lock_kind\":");
    proof {
        lemma_regroup(start, acc, lit(",\"lock_kind\":"@));
        acc = acc + lit(",\"lock_kind\":"@);
    }
    push_lock_kind(&mut buf, e.lock_kind);
    proof {
        lemma_regroup(start, acc, lock_kind_json(e.lock_kind));
        acc = acc + lock_kind_json(e.lock_kind);
    }
    push_lit(&mut buf, ",\"locked_vector\":");
    proof {
        lemma_regroup(start, acc, lit(",\"locked_vector\":"@));
        acc = acc + lit(",\"locked_vector\":"@);
    }
    push_vector(&mut buf, &e.locked_vector);
    proof {
        lemma_regroup(start, acc, vector_json(e.locked_vector@));
        acc = acc + vector_json(e.locked_vector@);
    }
    push_lit(&mut buf, ",\"projection_id\":");
    proof {
        lemma_regroup(start, acc, lit(",\"projection_id\":"@));
        acc = acc + lit(",\"projection_id\":"@);
    }
    push_json_string(&mut buf, e.projection_id.0.as_str());
    proof {
        lemma_regroup(start, acc, json_string(e.projection_id.0@));
        acc = acc + json_string(e.projection_id.0@);
    }
    push_lit(&mut buf, ",\"remaining_vector\":");
    proof {
        lemma_regroup(start, acc, lit(",\"remaining_vector\":"@));
        acc = acc + lit(",\"remaining_vector\":"@);
    }
    push_vector(&mut buf, &e.remaining_vector);
    proof {
        lemma_regroup(start, acc, vector_json(e.remaining_vector@));
        acc = acc + vector_json(e.remaining_vector@);
    }
    push_lit(&mut buf, ",\"rule_environment\":");
    proof {
        lemma_regroup(start, acc, lit(",\"rule_environment\":"@));
        acc = acc + lit(",\"rule_environment\":"@);
    }
    push_json_string(&mut buf, e.rule_environment.as_str());
    proof {
        lemma_regroup(start, acc, json_string(e.rule_environment@));
        acc = acc + json_string(e.rule_environment@);
    }
    push_lit(&mut buf, ",\"settlement_rule\":");
    proof {
        lemma_regroup(start, acc, lit(",\"settlement_rule\":"@));
        acc = acc + lit(",\"settlement_rule\":"@);
    }
    push_rule(&mut buf, e.settlement_rule);
    proof {
        lemma_regroup(start, acc, rule_json(e.settlement_rule));
        acc = acc + rule_json(e.settlement_rule);
    }
    push_lit(&mut buf, ",\"settlement_trigger\":");
    proof {
        lemma_regroup(start, acc, lit(",\"settlement_trigger\":"@));
        acc = acc + lit(",\"settlement_trigger\":"@);
    }
    push_trigger(&mut buf, e.settlement_trigger);
    proof {
        lemma_regroup(start, acc, trigger_json(e.settlement_trigger));
        acc = acc + trigger_json(e.settlement_trigger);
    }
    push_lit(&mut buf, "}");
    proof {
        lemma_regroup(start, acc, lit("}"@));
        acc = acc + lit("}"@);
    }
    assert(acc == project_parameters_json(*e));
    assert(buf@ =~= project_parameters_json(*e));
    JsonEnvelope(buf)
}

/// What a reconstruct record states: `{"projection_status":..,"receipt":..}`.
pub open spec fn reconstruct_parameters_json(r: ReconstructionReceipt, status: ProjectionStatus) -> Seq<u8> {
    lit("{\"projection_status\":"@) + status_json(status) + lit(",\"receipt\":"@) + receipt_json(r)
        + lit("}"@)
}

pub fn reconstruct_parameters(r: &ReconstructionReceipt, status: ProjectionStatus) -> (j: JsonEnvelope)
    ensures
        j.0@ == reconstruct_parameters_json(*r, status),
{
    let mut buf: Vec<u8> = Vec::new();
    let ghost start = buf@;
    push_lit(&mut buf, "{\"projection_status\":");
    push_status(&mut buf, status);
    push_lit(&mut buf, ",\"receipt\":");
    push_receipt(&mut buf, r);
    push_lit(&mut buf, "}");
    assert(buf@ =~= reconstruct_parameters_json(*r, status));
    JsonEnvelope(buf)
}

} // verus!
