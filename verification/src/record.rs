use vstd::prelude::*;

use crate::canonical::{
    certification_state_json, json_bool, json_opt_string, json_string, json_string_array, json_uint, opt_text,
    lemma_regroup, lit, operation_kind_json, push_bytes, push_certification_state, push_json_bool,
    push_json_opt_string, push_json_string, push_json_uint, push_lit, push_operation_kind,
    push_record_id_array, push_vector, record_id_texts, vector_json,
};
use crate::certification::{AuthRatio, CertificationState};
use crate::errors::{KernelError, KernelErrorKind, Result};
use crate::projection::clone_record_ids;
use crate::types::{
    EntityId, JsonEnvelope, LogicalClock, OperationKind, ProjectionId, RecordId, RegionId,
    SignatureReference, SpaceId, Timestamp, Vector,
};
use crate::utils::{decimal, decimal_string};

verus! {

/// An immutable, hash-sealed account of one state transition.
#[derive(Debug, PartialEq, Eq)]
pub struct Record {
    pub record_id: RecordId,
    pub parent_record_ids: Vec<RecordId>,
    pub event_kind: OperationKind,
    pub space_id: SpaceId,
    pub region_id: RegionId,
    pub entity_id: EntityId,
    pub projection_id: Option<ProjectionId>,
    pub v_before: Vector,
    pub v_after: Vector,
    pub parameters: JsonEnvelope,
    pub certification_state: CertificationState,
    pub auth_ratio: AuthRatio,
    pub timestamp: Timestamp,
    pub logical_clock: LogicalClock,
    pub proof: Option<String>,
    pub initiator_pk: String,
    pub signature: Option<SignatureReference>,
    pub hash: String,
    pub version: String,
    pub settlement_ref: Option<String>,
    pub is_failure: bool,
    pub failure_reason: Option<String>,
}

/// The text of an optional projection id.
pub open spec fn projection_id_text(o: Option<ProjectionId>) -> Option<Seq<char>> {
    match o {
        Some(p) => Some(p.0@),
        None => None,
    }
}

/// The text of an optional signature reference.
pub open spec fn signature_text(o: Option<SignatureReference>) -> Option<Seq<char>> {
    match o {
        Some(s) => Some(s.0@),
        None => None,
    }
}

/// The BLAKE3 digest of `input`, as lowercase hexadecimal text.
pub uninterp spec fn blake3_hex_digest(input: Seq<u8>) -> Seq<char>;

/// Hashes `input` with `blake3::hash` and renders the digest with `Hash::to_hex`.
/// The contract claims only that the text is a function of the input bytes alone.
#[verifier::external_body]
fn blake3_hex(input: &[u8]) -> (r: String)
    ensures
        r@ == blake3_hex_digest(input@),
{
    blake3::hash(input).to_hex().to_string()
}

impl Record {
    /// Field-by-field equality, comparing vectors, lists and JSON by their contents.
    pub open spec fn same(self, other: Record) -> bool {
        &&& self.record_id == other.record_id
        &&& self.parent_record_ids@ == other.parent_record_ids@
        &&& self.event_kind == other.event_kind
        &&& self.space_id == other.space_id
        &&& self.region_id == other.region_id
        &&& self.entity_id == other.entity_id
        &&& self.projection_id == other.projection_id
        &&& self.v_before@ == other.v_before@
        &&& self.v_after@ == other.v_after@
        &&& self.parameters.0@ == other.parameters.0@
        &&& self.certification_state == other.certification_state
        &&& self.auth_ratio == other.auth_ratio
        &&& self.timestamp == other.timestamp
        &&& self.logical_clock == other.logical_clock
        &&& self.proof == other.proof
        &&& self.initiator_pk == other.initiator_pk
        &&& self.signature == other.signature
        &&& self.hash == other.hash
        &&& self.version == other.version
        &&& self.settlement_ref == other.settlement_ref
        &&& self.is_failure == other.is_failure
        &&& self.failure_reason == other.failure_reason
    }

    /// The canonical text of every field but the hash, in declaration order.
    pub open spec fn material(self) -> Seq<u8> {
        lit("{\"record_id\":"@) + json_string(self.record_id.0@) + lit(",\"parent_record_ids\":"@)
            + json_string_array(record_id_texts(self.parent_record_ids@)) + lit(",\"event_kind\":"@)
            + operation_kind_json(self.event_kind) + lit(",\"space_id\":"@) + json_string(
            self.space_id.0@,
        ) + lit(",\"region_id\":"@) + json_string(self.region_id.0@) + lit(",\"entity_id\":"@)
            + json_string(self.entity_id.0@) + lit(",\"projection_id\":"@) + json_opt_string(projection_id_text(self.projection_id)) + lit(",\"v_before\":"@) + vector_json(self.v_before@) + lit(",\"v_after\":"@)
            + vector_json(self.v_after@) + lit(",\"parameters\":"@) + self.parameters.0@ + lit(
            ",\"certification_state\":"@,
        ) + certification_state_json(self.certification_state) + lit(",\"auth_ratio\":"@)
            + json_uint(self.auth_ratio.0 as nat) + lit(",\"timestamp\":"@) + json_uint(
            self.timestamp as nat,
        ) + lit(",\"logical_clock\":"@) + json_uint(self.logical_clock as nat) + lit(",\"proof\":"@)
            + json_opt_string(opt_text(self.proof)) + lit(",\"initiator_pk\":"@) + json_string(
            self.initiator_pk@,
        ) + lit(",\"signature\":"@) + json_opt_string(signature_text(self.signature)) + lit(",\"version\":"@) + json_string(self.version@) + lit(",\"settlement_ref\":"@)
            + json_opt_string(opt_text(self.settlement_ref)) + lit(",\"is_failure\":"@) + json_bool(
            self.is_failure,
        ) + lit(",\"failure_reason\":"@) + json_opt_string(opt_text(self.failure_reason)) + lit(
            "}"@,
        )
    }

    /// The hash a record must carry: the BLAKE3 digest of its canonical material.
    pub open spec fn expected_hash(self) -> Seq<char> {
        blake3_hex_digest(self.material())
    }

    /// The record carries the hash of its own material.
    pub open spec fn sealed(self) -> bool {
        self.hash@ == self.expected_hash()
    }

    fn push_material(&self, buf: &mut Vec<u8>)
        ensures
            final(buf)@ == old(buf)@ + self.material(),
    {
        let ghost start = buf@;
        push_lit(buf, "{\"record_id\":");
        let ghost mut acc = lit("{\"record_id\":"@);
        push_json_string(buf, self.record_id.0.as_str());
        proof {
            lemma_regroup(start, acc, json_string(self.record_id.0@));
            acc = acc + json_string(self.record_id.0@);
        }
        push_lit(buf, ",\"parent_record_ids\":");
        proof {
            lemma_regroup(start, acc, lit(",\"parent_record_ids\":"@));
            acc = acc + lit(",\"parent_record_ids\":"@);
        }
        push_record_id_array(buf, &self.parent_record_ids);
        proof {
            lemma_regroup(start, acc, json_string_array(record_id_texts(self.parent_record_ids@)));
            acc = acc + json_string_array(record_id_texts(self.parent_record_ids@));
        }
        push_lit(buf, ",\"event_kind\":");
        proof {
            lemma_regroup(start, acc, lit(",\"event_kind\":"@));
            acc = acc + lit(",\"event_kind\":"@);
        }
        push_operation_kind(buf, self.event_kind);
        proof {
            lemma_regroup(start, acc, operation_kind_json(self.event_kind));
            acc = acc + operation_kind_json(self.event_kind);
        }
        push_lit(buf, ",\"space_id\":");
        proof {
            lemma_regroup(start, acc, lit(",\"space_id\":"@));
            acc = acc + lit(",\"space_id\":"@);
        }
        push_json_string(buf, self.space_id.0.as_str());
        proof {
            lemma_regroup(start, acc, json_string(self.space_id.0@));
            acc = acc + json_string(self.space_id.0@);
        }
        push_lit(buf, ",\"region_id\":");
        proof {
            lemma_regroup(start, acc, lit(",\"region_id\":"@));
            acc = acc + lit(",\"region_id\":"@);
        }
        push_json_string(buf, self.region_id.0.as_str());
        proof {
            lemma_regroup(start, acc, json_string(self.region_id.0@));
            acc = acc + json_string(self.region_id.0@);
        }
        push_lit(buf, ",\"entity_id\":");
        proof {
            lemma_regroup(start, acc, lit(",\"entity_id\":"@));
            acc = acc + lit(",\"entity_id\":"@);
        }
        push_json_string(buf, self.entity_id.0.as_str());
        proof {
            lemma_regroup(start, acc, json_string(self.entity_id.0@));
            acc = acc + json_string(self.entity_id.0@);
        }
        push_lit(buf, ",\"projection_id\":");
        proof {
            lemma_regroup(start, acc, lit(",\"projection_id\":"@));
            acc = acc + lit(",\"projection_id\":"@);
        }
        match &self.projection_id {
            Some(p) => push_json_string(buf, p.0.as_str()),
            None => push_lit(buf, "null"),
        }
        proof {
            lemma_regroup(start, acc, json_opt_string(projection_id_text(self.projection_id)));
            acc = acc + json_opt_string(projection_id_text(self.projection_id));
        }
        push_lit(buf, ",\"v_before\":");
        proof {
            lemma_regroup(start, acc, lit(",\"v_before\":"@));
            acc = acc + lit(",\"v_before\":"@);
        }
        push_vector(buf, &self.v_before);
        proof {
            lemma_regroup(start, acc, vector_json(self.v_before@));
            acc = acc + vector_json(self.v_before@);
        }
        push_lit(buf, ",\"v_after\":");
        proof {
            lemma_regroup(start, acc, lit(",\"v_after\":"@));
            acc = acc + lit(",\"v_after\":"@);
        }
        push_vector(buf, &self.v_after);
        proof {
            lemma_regroup(start, acc, vector_json(self.v_after@));
            acc = acc + vector_json(self.v_after@);
        }
        push_lit(buf, ",\"parameters\":");
        proof {
            lemma_regroup(start, acc, lit(",\"parameters\":"@));
            acc = acc + lit(",\"parameters\":"@);
        }
        push_bytes(buf, self.parameters.0.as_slice());
        proof {
            lemma_regroup(start, acc, self.parameters.0@);
            acc = acc + self.parameters.0@;
        }
        push_lit(buf, ",\"certification_state\":");
        proof {
            lemma_regroup(start, acc, lit(",\"certification_state\":"@));
            acc = acc + lit(",\"certification_state\":"@);
        }
        push_certification_state(buf, self.certification_state);
        proof {
            lemma_regroup(start, acc, certification_state_json(self.certification_state));
            acc = acc + certification_state_json(self.certification_state);
        }
        push_lit(buf, ",\"auth_ratio\":");
        proof {
            lemma_regroup(start, acc, lit(",\"auth_ratio\":"@));
            acc = acc + lit(",\"auth_ratio\":"@);
        }
        push_json_uint(buf, self.auth_ratio.0 as u128);
        proof {
            lemma_regroup(start, acc, json_uint(self.auth_ratio.0 as nat));
            acc = acc + json_uint(self.auth_ratio.0 as nat);
        }
        push_lit(buf, ",\"timestamp\":");
        proof {
            lemma_regroup(start, acc, lit(",\"timestamp\":"@));
            acc = acc + lit(",\"timestamp\":"@);
        }
        push_json_uint(buf, self.timestamp as u128);
        proof {
            lemma_regroup(start, acc, json_uint(self.timestamp as nat));
            acc = acc + json_uint(self.timestamp as nat);
        }
        push_lit(buf, ",\"logical_clock\":");
        proof {
            lemma_regroup(start, acc, lit(",\"logical_clock\":"@));
            acc = acc + lit(",\"logical_clock\":"@);
        }
        push_json_uint(buf, self.logical_clock as u128);
        proof {
            lemma_regroup(start, acc, json_uint(self.logical_clock as nat));
            acc = acc + json_uint(self.logical_clock as nat);
        }
        push_lit(buf, ",\"proof\":");
        proof {
            lemma_regroup(start, acc, lit(",\"proof\":"@));
            acc = acc + lit(",\"proof\":"@);
        }
        push_json_opt_string(buf, &self.proof);
        proof {
            lemma_regroup(start, acc, json_opt_string(opt_text(self.proof)));
            acc = acc + json_opt_string(opt_text(self.proof));
        }
        push_lit(buf, ",\"initiator_pk\":");
        proof {
            lemma_regroup(start, acc, lit(",\"initiator_pk\":"@));
            acc = acc + lit(",\"initiator_pk\":"@);
        }
        push_json_string(buf, self.initiator_pk.as_str());
        proof {
            lemma_regroup(start, acc, json_string(self.initiator_pk@));
            acc = acc + json_string(self.initiator_pk@);
        }
        push_lit(buf, ",\"signature\":");
        proof {
            lemma_regroup(start, acc, lit(",\"signature\":"@));
            acc = acc + lit(",\"signature\":"@);
        }
        match &self.signature {
            Some(sig) => push_json_string(buf, sig.0.as_str()),
            None => push_lit(buf, "null"),
        }
        proof {
            lemma_regroup(start, acc, json_opt_string(signature_text(self.signature)));
            acc = acc + json_opt_string(signature_text(self.signature));
        }
        push_lit(buf, ",\"version\":");
        proof {
            lemma_regroup(start, acc, lit(",\"version\":"@));
            acc = acc + lit(",\"version\":"@);
        }
        push_json_string(buf, self.version.as_str());
        proof {
            lemma_regroup(start, acc, json_string(self.version@));
            acc = acc + json_string(self.version@);
        }
        push_lit(buf, ",\"settlement_ref\":");
        proof {
            lemma_regroup(start, acc, lit(",\"settlement_ref\":"@));
            acc = acc + lit(",\"settlement_ref\":"@);
        }
        push_json_opt_string(buf, &self.settlement_ref);
        proof {
            lemma_regroup(start, acc, json_opt_string(opt_text(self.settlement_ref)));
            acc = acc + json_opt_string(opt_text(self.settlement_ref));
        }
        push_lit(buf, ",\"is_failure\":");
        proof {
            lemma_regroup(start, acc, lit(",\"is_failure\":"@));
            acc = acc + lit(",\"is_failure\":"@);
        }
        push_json_bool(buf, self.is_failure);
        proof {
            lemma_regroup(start, acc, json_bool(self.is_failure));
            acc = acc + json_bool(self.is_failure);
        }
        push_lit(buf, ",\"failure_reason\":");
        proof {
            lemma_regroup(start, acc, lit(",\"failure_reason\":"@));
            acc = acc + lit(",\"failure_reason\":"@);
        }
        push_json_opt_string(buf, &self.failure_reason);
        proof {
            lemma_regroup(start, acc, json_opt_string(opt_text(self.failure_reason)));
            acc = acc + json_opt_string(opt_text(self.failure_reason));
        }
        push_lit(buf, "}");
        proof {
            lemma_regroup(start, acc, lit("}"@));
            acc = acc + lit("}"@);
        }
        assert(acc == self.material());
    }

    /// The canonical bytes the record's hash is computed from.
    pub fn canonical_bytes(&self) -> (r: Result<Vec<u8>>)
        ensures
            r matches Ok(b) && b@ == self.material(),
    {
        let mut buf: Vec<u8> = Vec::new();
        self.push_material(&mut buf);
        assert(buf@ =~= self.material());
        Ok(buf)
    }

    pub fn recompute_hash(&self) -> (r: Result<String>)
        ensures
            r matches Ok(h) && h@ == self.expected_hash(),
    {
        let bytes = self.canonical_bytes()?;
        Ok(blake3_hex(bytes.as_slice()))
    }

    pub fn verify_hash(&self) -> (r: Result<()>)
        ensures
            r is Ok <==> self.sealed(),
            r matches Err(e) ==> e.is(
                KernelErrorKind::RecordIntegrityViolation,
                "hash mismatch: expected "@ + self.expected_hash() + ", found "@ + self.hash@,
            ),
    {
        let expected = self.recompute_hash()?;
        if expected != self.hash {
            return Err(KernelError::RecordIntegrityViolation(
                String::from_str("hash mismatch: expected ").concat(expected.as_str()).concat(
                    ", found ",
                ).concat(self.hash.as_str()),
            ));
        }
        Ok(())
    }
}

pub(crate) fn clone_opt_string(s: &Option<String>) -> (r: Option<String>)
    ensures
        r == *s,
{
    match s {
        Some(t) => Some(t.clone()),
        None => None,
    }
}

impl Clone for Record {
    fn clone(&self) -> (r: Self)
        ensures
            r.same(*self),
    {
        Record {
            record_id: self.record_id.clone(),
            parent_record_ids: clone_record_ids(&self.parent_record_ids),
            event_kind: self.event_kind,
            space_id: self.space_id.clone(),
            region_id: self.region_id.clone(),
            entity_id: self.entity_id.clone(),
            projection_id: match &self.projection_id {
                Some(p) => Some(p.clone()),
                None => None,
            },
            v_before: self.v_before.clone(),
            v_after: self.v_after.clone(),
            parameters: self.parameters.clone(),
            certification_state: self.certification_state,
            auth_ratio: self.auth_ratio,
            timestamp: self.timestamp,
            logical_clock: self.logical_clock,
            proof: clone_opt_string(&self.proof),
            initiator_pk: self.initiator_pk.clone(),
            signature: match &self.signature {
                Some(s) => Some(s.clone()),
                None => None,
            },
            hash: self.hash.clone(),
            version: self.version.clone(),
            settlement_ref: clone_opt_string(&self.settlement_ref),
            is_failure: self.is_failure,
            failure_reason: clone_opt_string(&self.failure_reason),
        }
    }
}

#[derive(Debug, PartialEq, Eq)]
pub struct RecordEnvelope {
    pub record: Record,
    pub committed: bool,
}

#[derive(Debug, PartialEq, Eq)]
pub struct FailureRecord {
    pub record_id: RecordId,
    pub event_kind: OperationKind,
    pub reason: String,
    pub space_id: SpaceId,
    pub region_id: RegionId,
    pub entity_id: EntityId,
    pub initiator_pk: String,
    pub timestamp: Timestamp,
    pub logical_clock: LogicalClock,
    pub hash: String,
}

/// The record id `<prefix>-<logical_clock>`.
pub open spec fn record_id_text(prefix: Seq<char>, logical_clock: LogicalClock) -> Seq<char> {
    prefix + "-"@ + decimal(logical_clock as nat)
}

pub fn make_record_id(prefix: &str, logical_clock: LogicalClock) -> (r: RecordId)
    ensures
        r.0@ == record_id_text(prefix@, logical_clock),
{
    RecordId(
        String::from_str(prefix).concat("-").concat(decimal_string(logical_clock as u128).as_str()),
    )
}

} // verus!
