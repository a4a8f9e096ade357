use vstd::prelude::*;

use crate::errors::{KernelError, Result};
use crate::utils::{decimal, decimal_string, sat_mul, saturating_mul_u128, AUTH_RATIO_SCALE};

verus! {

pub type ComponentAmount = u128;

pub type Timestamp = u64;

pub type LogicalClock = u64;

/// A vector of unsigned integer components.
#[derive(Debug, PartialEq, Eq)]
pub struct Vector {
    pub components: Vec<ComponentAmount>,
}

impl View for Vector {
    type V = Seq<u128>;

    open spec fn view(&self) -> Seq<u128> {
        self.components@
    }
}

impl Clone for Vector {
    fn clone(&self) -> (r: Self)
        ensures
            r@ == self@,
    {
        let components = self.components.clone();
        assert(components@ =~= self.components@);
        Vector { components }
    }
}

/// Every component of `s` fits in 64 bits.
pub open spec fn fits_u64(s: Seq<u128>) -> bool {
    forall|i: int| 0 <= i < s.len() ==> s[i] <= u64::MAX
}

/// Every component of `s` is zero.
pub open spec fn all_zero(s: Seq<u128>) -> bool {
    forall|i: int| 0 <= i < s.len() ==> s[i] == 0
}

/// The sum of all components, as a mathematical integer.
pub open spec fn seq_sum(s: Seq<u128>) -> int
    decreases s.len(),
{
    if s.len() == 0 { 0 } else { seq_sum(s.drop_last()) + s.last() }
}

/// `b` fits under `a` component by component (same dimension, `b[i] <= a[i]`).
pub open spec fn covers(a: Seq<u128>, b: Seq<u128>) -> bool {
    a.len() == b.len() && forall|i: int| 0 <= i < a.len() ==> b[i] <= a[i]
}

/// Componentwise difference `a - b` (meaningful where `covers(a, b)`).
pub open spec fn seq_sub(a: Seq<u128>, b: Seq<u128>) -> Seq<u128> {
    Seq::new(a.len(), |i: int| (a[i] - b[i]) as u128)
}

/// `a + b`, or `u128::MAX` when the sum does not fit.
pub open spec fn sat_add(a: u128, b: u128) -> u128 {
    if a + b > u128::MAX { u128::MAX } else { (a + b) as u128 }
}

/// Componentwise saturating sum.
pub open spec fn seq_sat_add(a: Seq<u128>, b: Seq<u128>) -> Seq<u128> {
    Seq::new(a.len(), |i: int| sat_add(a[i], b[i]))
}

/// Each component multiplied (saturating) by `numerator` and floor-divided by `denominator`.
pub open spec fn seq_scale(s: Seq<u128>, numerator: u128, denominator: u128) -> Seq<u128>
    recommends
        denominator != 0,
{
    Seq::new(s.len(), |i: int| sat_mul(s[i], numerator) / denominator)
}

/// Componentwise minimum.
pub open spec fn seq_min(a: Seq<u128>, b: Seq<u128>) -> Seq<u128> {
    Seq::new(a.len(), |i: int| if a[i] <= b[i] { a[i] } else { b[i] })
}

/// The zero vector of `n` dimensions.
pub open spec fn zeros(n: nat) -> Seq<u128> {
    Seq::new(n, |i: int| 0u128)
}

/// Detail text of a dimension mismatch between vectors of `a` and `b` dimensions.
pub open spec fn dimension_mismatch_detail(a: nat, b: nat) -> Seq<char> {
    "vector dimension mismatch: "@ + decimal(a) + " vs "@ + decimal(b)
}

/// The detail of the error `checked_sub_vector` reports when a component would go negative.
pub open spec fn negative_difference_detail() -> Seq<char> {
    "cannot subtract larger projected vector from source"@
}

/// A prefix of an unsigned sequence never sums to more than the whole sequence.
pub proof fn lemma_prefix_sum_bounded(s: Seq<u128>, k: int)
    requires
        0 <= k <= s.len(),
    ensures
        0 <= seq_sum(s.take(k)) <= seq_sum(s),
    decreases s.len(),
{
    if s.len() > 0 {
        if k == s.len() {
            assert(s.take(k) =~= s);
            lemma_prefix_sum_bounded(s.drop_last(), k - 1);
        } else {
            lemma_prefix_sum_bounded(s.drop_last(), k);
            assert(s.drop_last().take(k) =~= s.take(k));
        }
    }
}

impl Vector {
    pub fn new(components: Vec<ComponentAmount>) -> (r: Self)
        ensures
            r.components == components,
    {
        Self { components }
    }

    pub fn zero(dimensions: usize) -> (r: Self)
        ensures
            r@ == zeros(dimensions as nat),
    {
        let mut components: Vec<u128> = Vec::new();
        let mut i: usize = 0;
        while i < dimensions
            invariant
                i <= dimensions,
                components@ == zeros(i as nat),
            decreases dimensions - i,
        {
            components.push(0);
            i = i + 1;
            assert(components@ =~= zeros(i as nat));
        }
        Self { components }
    }

    pub fn len(&self) -> (r: usize)
        ensures
            r == self@.len(),
    {
        self.components.len()
    }

    pub fn is_zero(&self) -> (r: bool)
        ensures
            r == all_zero(self@),
    {
        let mut i: usize = 0;
        while i < self.components.len()
            invariant
                i <= self@.len(),
                forall|j: int| 0 <= j < i ==> self@[j] == 0,
            decreases self@.len() - i,
        {
            if self.components[i] != 0 {
                return false;
            }
            i = i + 1;
        }
        true
    }

    /// Sum of all components.
    pub fn magnitude(&self) -> (r: ComponentAmount)
        requires
            seq_sum(self@) <= u128::MAX,
        ensures
            r == seq_sum(self@),
    {
        proof {
            assert forall|k: int| 0 <= k <= self@.len() implies #[trigger] seq_sum(self@.take(k))
                <= u128::MAX by {
                lemma_prefix_sum_bounded(self@, k);
            }
        }
        let mut total: u128 = 0;
        let mut i: usize = 0;
        assert(self@.take(0) =~= Seq::<u128>::empty());
        while i < self.components.len()
            invariant
                i <= self@.len(),
                total == seq_sum(self@.take(i as int)),
                forall|k: int| 0 <= k <= self@.len() ==> #[trigger] seq_sum(self@.take(k)) <= u128::MAX,
            decreases self@.len() - i,
        {
            assert(self@.take(i + 1).drop_last() =~= self@.take(i as int));
            assert(seq_sum(self@.take(i + 1)) <= u128::MAX);
            total = total + self.components[i];
            i = i + 1;
        }
        assert(self@.take(self@.len() as int) =~= self@);
        total
    }

    pub fn ensure_same_dim(&self, rhs: &Vector) -> (r: Result<()>)
        ensures
            r is Ok <==> self@.len() == rhs@.len(),
            r matches Err(e) ==> (e matches KernelError::TypeMismatch(m)
                && m@ == dimension_mismatch_detail(self@.len(), rhs@.len())),
    {
        if self.len() != rhs.len() {
            let detail = String::from_str("vector dimension mismatch: ")
                .concat(decimal_string(self.len() as u128).as_str())
                .concat(" vs ")
                .concat(decimal_string(rhs.len() as u128).as_str());
            return Err(KernelError::TypeMismatch(detail));
        }
        Ok(())
    }

    pub fn checked_sub_vector(&self, rhs: &Vector) -> (r: Result<Vector>)
        ensures
            self@.len() != rhs@.len() ==> (r matches Err(KernelError::TypeMismatch(m))
                && m@ == dimension_mismatch_detail(self@.len(), rhs@.len())),
            self@.len() == rhs@.len() && !covers(self@, rhs@) ==> (r matches Err(
                KernelError::InvalidState(m),
            ) && m@ == negative_difference_detail()),
            covers(self@, rhs@) ==> (r matches Ok(v) && v@ == seq_sub(self@, rhs@)),
    {
        self.ensure_same_dim(rhs)?;
        let mut out: Vec<u128> = Vec::new();
        let mut i: usize = 0;
        while i < self.components.len()
            invariant
                i <= self@.len(),
                self@.len() == rhs@.len(),
                out@ == seq_sub(self@, rhs@).take(i as int),
                forall|j: int| 0 <= j < i ==> rhs@[j] <= self@[j],
            decreases self@.len() - i,
        {
            let a = self.components[i];
            let b = rhs.components[i];
            if b > a {
                return Err(KernelError::InvalidState(
                    String::from_str("cannot subtract larger projected vector from source"),
                ));
            }
            out.push(a - b);
            i = i + 1;
            assert(out@ =~= seq_sub(self@, rhs@).take(i as int));
        }
        assert(out@ =~= seq_sub(self@, rhs@));
        Ok(Vector::new(out))
    }

    pub fn checked_add_vector(&self, rhs: &Vector) -> (r: Result<Vector>)
        ensures
            self@.len() != rhs@.len() ==> (r matches Err(KernelError::TypeMismatch(m))
                && m@ == dimension_mismatch_detail(self@.len(), rhs@.len())),
            self@.len() == rhs@.len() ==> (r matches Ok(v) && v@ == seq_sat_add(self@, rhs@)),
    {
        self.ensure_same_dim(rhs)?;
        let mut out: Vec<u128> = Vec::new();
        let mut i: usize = 0;
        while i < self.components.len()
            invariant
                i <= self@.len(),
                self@.len() == rhs@.len(),
                out@ == seq_sat_add(self@, rhs@).take(i as int),
            decreases self@.len() - i,
        {
            out.push(self.components[i].saturating_add(rhs.components[i]));
            i = i + 1;
            assert(out@ =~= seq_sat_add(self@, rhs@).take(i as int));
        }
        assert(out@ =~= seq_sat_add(self@, rhs@));
        Ok(Vector::new(out))
    }

    /// Scales each component by `bps / 1_000_000` (saturating multiply, floor division).
    pub fn scale_bps(&self, bps: u32) -> (r: Vector)
        ensures
            r@ == seq_scale(self@, bps as u128, AUTH_RATIO_SCALE as u128),
    {
        let denom: u128 = AUTH_RATIO_SCALE as u128;
        let mut out: Vec<u128> = Vec::new();
        let mut i: usize = 0;
        while i < self.components.len()
            invariant
                i <= self@.len(),
                denom == AUTH_RATIO_SCALE,
                out@ == seq_scale(self@, bps as u128, denom).take(i as int),
            decreases self@.len() - i,
        {
            out.push(saturating_mul_u128(self.components[i], bps as u128) / denom);
            i = i + 1;
            assert(out@ =~= seq_scale(self@, bps as u128, denom).take(i as int));
        }
        assert(out@ =~= seq_scale(self@, bps as u128, denom));
        Vector::new(out)
    }

    pub fn scale_ratio_floor(&self, numerator: u128, denominator: u128) -> (r: Result<Vector>)
        ensures
            denominator == 0 ==> (r matches Err(KernelError::InvalidParameter(m))
                && m@ == "ratio denominator cannot be zero"@),
            denominator != 0 ==> (r matches Ok(v) && v@ == seq_scale(self@, numerator, denominator)),
    {
        if denominator == 0 {
            return Err(KernelError::InvalidParameter(
                String::from_str("ratio denominator cannot be zero"),
            ));
        }
        let mut out: Vec<u128> = Vec::new();
        let mut i: usize = 0;
        while i < self.components.len()
            invariant
                i <= self@.len(),
                denominator != 0,
                out@ == seq_scale(self@, numerator, denominator).take(i as int),
            decreases self@.len() - i,
        {
            out.push(saturating_mul_u128(self.components[i], numerator) / denominator);
            i = i + 1;
            assert(out@ =~= seq_scale(self@, numerator, denominator).take(i as int));
        }
        assert(out@ =~= seq_scale(self@, numerator, denominator));
        Ok(Vector::new(out))
    }

    pub fn componentwise_min(&self, rhs: &Vector) -> (r: Result<Vector>)
        ensures
            self@.len() != rhs@.len() ==> (r matches Err(KernelError::TypeMismatch(m))
                && m@ == dimension_mismatch_detail(self@.len(), rhs@.len())),
            self@.len() == rhs@.len() ==> (r matches Ok(v) && v@ == seq_min(self@, rhs@)),
    {
        self.ensure_same_dim(rhs)?;
        let mut out: Vec<u128> = Vec::new();
        let mut i: usize = 0;
        while i < self.components.len()
            invariant
                i <= self@.len(),
                self@.len() == rhs@.len(),
                out@ == seq_min(self@, rhs@).take(i as int),
            decreases self@.len() - i,
        {
            let a = self.components[i];
            let b = rhs.components[i];
            out.push(if a <= b { a } else { b });
            i = i + 1;
            assert(out@ =~= seq_min(self@, rhs@).take(i as int));
        }
        assert(out@ =~= seq_min(self@, rhs@));
        Ok(Vector::new(out))
    }

    /// Every component clamped to `[0, u128::MAX]`, which leaves the vector unchanged.
    pub fn clamp_non_negative_components(&self) -> (r: Self)
        ensures
            r@ == self@,
    {
        let mut out: Vec<u128> = Vec::new();
        let mut i: usize = 0;
        while i < self.components.len()
            invariant
                i <= self@.len(),
                out@ == self@.take(i as int),
            decreases self@.len() - i,
        {
            out.push(crate::utils::clamp_u128(self.components[i], 0, u128::MAX));
            i = i + 1;
            assert(out@ =~= self@.take(i as int));
        }
        assert(out@ =~= self@);
        Self::new(out)
    }
}

/// The shape a vector state is declared to have.
#[derive(Debug, Clone, Copy, PartialEq, Eq, Structural)]
pub enum VectorTypeTag {
    Position,
    Free,
    Bound,
    Unit,
    Zero,
    Spatial,
}

/// A JSON document carried as its compact UTF-8 text.
#[derive(Debug, PartialEq, Eq)]
pub struct JsonEnvelope(pub Vec<u8>);

impl Clone for JsonEnvelope {
    fn clone(&self) -> (r: Self)
        ensures
            r.0@ == self.0@,
    {
        let bytes = self.0.clone();
        assert(bytes@ =~= self.0@);
        JsonEnvelope(bytes)
    }
}

#[derive(Debug, PartialEq, Eq)]
pub struct Wallet {
    pub wallet_id: String,
    pub pk: String,
    pub wallet_meta: JsonEnvelope,
}

impl Wallet {
    /// Field-by-field equality, comparing carried JSON by its text.
    pub open spec fn same(self, other: Wallet) -> bool {
        &&& self.wallet_id == other.wallet_id
        &&& self.pk == other.pk
        &&& self.wallet_meta.0@ == other.wallet_meta.0@
    }
}

impl Clone for Wallet {
    fn clone(&self) -> (r: Self)
        ensures
            r.same(*self),
    {
        Wallet {
            wallet_id: self.wallet_id.clone(),
            pk: self.pk.clone(),
            wallet_meta: self.wallet_meta.clone(),
        }
    }
}

#[derive(Debug, PartialEq, Eq)]
pub struct VectorState {
    pub vector: Vector,
    pub owner_pk: String,
    pub tau: VectorTypeTag,
    pub meta: JsonEnvelope,
}

impl VectorState {
    /// Field-by-field equality, comparing vectors and JSON by their contents.
    pub open spec fn same(self, other: VectorState) -> bool {
        &&& self.vector@ == other.vector@
        &&& self.owner_pk == other.owner_pk
        &&& self.tau == other.tau
        &&& self.meta.0@ == other.meta.0@
    }
}

impl Clone for VectorState {
    fn clone(&self) -> (r: Self)
        ensures
            r.same(*self),
    {
        VectorState {
            vector: self.vector.clone(),
            owner_pk: self.owner_pk.clone(),
            tau: self.tau,
            meta: self.meta.clone(),
        }
    }
}

#[derive(Debug, PartialEq, Eq)]
pub struct SpaceId(pub String);

#[derive(Debug, PartialEq, Eq)]
pub struct EntityId(pub String);

#[derive(Debug, PartialEq, Eq)]
pub struct ProjectionId(pub String);

#[derive(Debug, PartialEq, Eq)]
pub struct ContractId(pub String);

#[derive(Debug, PartialEq, Eq)]
pub struct RecordId(pub String);

#[derive(Debug, PartialEq, Eq)]
pub struct RegionId(pub String);

#[derive(Debug, PartialEq, Eq)]
pub struct ContractEnvironmentId(pub String);

#[derive(Debug, PartialEq, Eq)]
pub struct ProofReference(pub String);

#[derive(Debug, PartialEq, Eq)]
pub struct SignatureReference(pub String);

impl Clone for SpaceId {
    fn clone(&self) -> (r: Self)
        ensures
            r == *self,
    {
        SpaceId(self.0.clone())
    }
}

impl Clone for EntityId {
    fn clone(&self) -> (r: Self)
        ensures
            r == *self,
    {
        EntityId(self.0.clone())
    }
}

impl Clone for ProjectionId {
    fn clone(&self) -> (r: Self)
        ensures
            r == *self,
    {
        ProjectionId(self.0.clone())
    }
}

impl Clone for ContractId {
    fn clone(&self) -> (r: Self)
        ensures
            r == *self,
    {
        ContractId(self.0.clone())
    }
}

impl Clone for RecordId {
    fn clone(&self) -> (r: Self)
        ensures
            r == *self,
    {
        RecordId(self.0.clone())
    }
}

impl Clone for RegionId {
    fn clone(&self) -> (r: Self)
        ensures
            r == *self,
    {
        RegionId(self.0.clone())
    }
}

impl Clone for ContractEnvironmentId {
    fn clone(&self) -> (r: Self)
        ensures
            r == *self,
    {
        ContractEnvironmentId(self.0.clone())
    }
}

impl Clone for ProofReference {
    fn clone(&self) -> (r: Self)
        ensures
            r == *self,
    {
        ProofReference(self.0.clone())
    }
}

impl Clone for SignatureReference {
    fn clone(&self) -> (r: Self)
        ensures
            r == *self,
    {
        SignatureReference(self.0.clone())
    }
}

/// The kind of state transition a record describes.
#[derive(Debug, Clone, Copy, PartialEq, Eq, Structural)]
pub enum OperationKind {
    Create,
    Certify,
    Transfer,
    Drain,
    Project,
    Reconstruct,
    Query,
    Record,
    Move,
    Rotate,
    Scale,
    Normalize,
    Constrain,
}

} // verus!
