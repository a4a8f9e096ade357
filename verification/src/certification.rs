use vstd::prelude::*;

use crate::errors::{KernelError, KernelErrorKind, Result};
use crate::utils::AUTH_RATIO_SCALE;

verus! {

/// A fixed-point score in micro units; `1_000_000` stands for one.
#[derive(Debug, Clone, Copy, PartialEq, Eq)]
pub struct MicroScore(pub u32);

impl MicroScore {
    pub fn new(value: u32) -> (r: Result<Self>)
        ensures
            value <= AUTH_RATIO_SCALE ==> r == Ok::<MicroScore, KernelError>(MicroScore(value)),
            value > AUTH_RATIO_SCALE ==> (r matches Err(KernelError::InvalidParameter(m))
                && m@ == "micro score must be within [0, 1_000_000]"@),
    {
        if value > AUTH_RATIO_SCALE as u32 {
            return Err(KernelError::InvalidParameter(
                String::from_str("micro score must be within [0, 1_000_000]"),
            ));
        }
        Ok(Self(value))
    }

    pub fn zero() -> (r: Self)
        ensures
            r == MicroScore(0),
    {
        Self(0)
    }

    pub fn one() -> (r: Self)
        ensures
            r == MicroScore(AUTH_RATIO_SCALE as u32),
    {
        Self(AUTH_RATIO_SCALE as u32)
    }
}

/// Weights of the four certification inputs; valid weights sum to `1_000_000`.
#[derive(Debug, Clone, Copy, PartialEq, Eq)]
pub struct AuthWeights {
    pub magnitude: u32,
    pub composition: u32,
    pub ownership: u32,
    pub policy: u32,
}

impl AuthWeights {
    pub open spec fn total(self) -> int {
        self.magnitude + self.composition + self.ownership + self.policy
    }

    pub fn normalized(magnitude: u32, composition: u32, ownership: u32, policy: u32) -> (r: Result<Self>)
        ensures
            magnitude + composition + ownership + policy == AUTH_RATIO_SCALE ==> r == Ok::<
                AuthWeights,
                KernelError,
            >(AuthWeights { magnitude, composition, ownership, policy }),
            magnitude + composition + ownership + policy != AUTH_RATIO_SCALE ==> (r matches Err(
                KernelError::InvalidParameter(m),
            ) && m@ == "auth weights must sum to 1000000"@),
    {
        let sum: u64 = magnitude as u64 + composition as u64 + ownership as u64 + policy as u64;
        if sum != AUTH_RATIO_SCALE {
            return Err(KernelError::InvalidParameter(
                String::from_str("auth weights must sum to 1000000"),
            ));
        }
        Ok(Self { magnitude, composition, ownership, policy })
    }
}

#[derive(Debug, Clone, Copy, PartialEq, Eq)]
pub struct AuthInputs {
    pub magnitude: MicroScore,
    pub composition: MicroScore,
    pub ownership: MicroScore,
    pub policy: MicroScore,
}

impl AuthInputs {
    /// Each input lies in `[0, 1_000_000]`.
    pub open spec fn in_range(self) -> bool {
        &&& self.magnitude.0 <= AUTH_RATIO_SCALE
        &&& self.composition.0 <= AUTH_RATIO_SCALE
        &&& self.ownership.0 <= AUTH_RATIO_SCALE
        &&& self.policy.0 <= AUTH_RATIO_SCALE
    }
}

/// The certification ratio in micro units, within `[0, 1_000_000]` when built by `new`.
#[derive(Debug, Clone, Copy, PartialEq, Eq)]
pub struct AuthRatio(pub u32);

impl AuthRatio {
    pub fn new(value: u32) -> (r: Result<Self>)
        ensures
            value <= AUTH_RATIO_SCALE ==> r == Ok::<AuthRatio, KernelError>(AuthRatio(value)),
            value > AUTH_RATIO_SCALE ==> (r matches Err(KernelError::InvalidParameter(m))
                && m@ == "auth ratio must be within [0, 1_000_000]"@),
    {
        if value > AUTH_RATIO_SCALE as u32 {
            return Err(KernelError::InvalidParameter(
                String::from_str("auth ratio must be within [0, 1_000_000]"),
            ));
        }
        Ok(Self(value))
    }
}

#[derive(Debug, Clone, Copy, PartialEq, Eq)]
pub struct CertificationThreshold(pub u32);

impl CertificationThreshold {
    pub fn new(value: u32) -> (r: Result<Self>)
        ensures
            value <= AUTH_RATIO_SCALE ==> r == Ok::<CertificationThreshold, KernelError>(
                CertificationThreshold(value),
            ),
            value > AUTH_RATIO_SCALE ==> (r matches Err(KernelError::InvalidParameter(m))
                && m@ == "threshold must be within [0, 1_000_000]"@),
    {
        if value > AUTH_RATIO_SCALE as u32 {
            return Err(KernelError::InvalidParameter(
                String::from_str("threshold must be within [0, 1_000_000]"),
            ));
        }
        Ok(Self(value))
    }
}

#[derive(Debug, Clone, Copy, PartialEq, Eq, Structural)]
pub enum CertificationState {
    Certified,
    Uncertified,
    Suspended,
    Revoked,
    Pending,
}

#[derive(Debug, PartialEq, Eq)]
pub struct CertificationContext {
    pub vector_type: String,
    pub operation_class: String,
    pub space_policy_version: String,
    pub risk_profile: String,
    pub protocol_version: String,
    pub threshold: CertificationThreshold,
    pub weights: AuthWeights,
}

impl Clone for CertificationContext {
    fn clone(&self) -> (r: Self)
        ensures
            r == *self,
    {
        CertificationContext {
            vector_type: self.vector_type.clone(),
            operation_class: self.operation_class.clone(),
            space_policy_version: self.space_policy_version.clone(),
            risk_profile: self.risk_profile.clone(),
            protocol_version: self.protocol_version.clone(),
            threshold: self.threshold,
            weights: self.weights,
        }
    }
}

#[derive(Debug, PartialEq, Eq)]
pub struct CertificationReport {
    pub auth_ratio: AuthRatio,
    pub threshold: CertificationThreshold,
    pub state: CertificationState,
    pub policy_version: String,
    pub reason: Option<String>,
}

impl Clone for CertificationReport {
    fn clone(&self) -> (r: Self)
        ensures
            r == *self,
    {
        let reason = match &self.reason {
            Some(s) => Some(s.clone()),
            None => None,
        };
        CertificationReport {
            auth_ratio: self.auth_ratio,
            threshold: self.threshold,
            state: self.state,
            policy_version: self.policy_version.clone(),
            reason,
        }
    }
}

/// `sum(weight * input)` over the four inputs.
pub open spec fn weighted_sum(inputs: AuthInputs, weights: AuthWeights) -> int {
    weights.magnitude * inputs.magnitude.0 + weights.composition * inputs.composition.0
        + weights.ownership * inputs.ownership.0 + weights.policy * inputs.policy.0
}

/// The weighted sum scaled back to micro units, truncated to 32 bits as the computation does.
pub open spec fn auth_ratio_value(inputs: AuthInputs, weights: AuthWeights) -> u32 {
    (weighted_sum(inputs, weights) / AUTH_RATIO_SCALE as int) as u32
}

/// The certification state for a ratio against a threshold.
pub open spec fn state_for(ratio: u32, threshold: u32) -> CertificationState {
    if ratio >= threshold {
        CertificationState::Certified
    } else {
        CertificationState::Uncertified
    }
}

proof fn lemma_products_fit(x: u32, y: u32)
    ensures
        0 <= x * y <= 0xffff_fffe_0000_0001,
{
    assert(0 <= x * y <= 0xffff_ffff * 0xffff_ffff) by (nonlinear_arith)
        requires
            x <= 0xffff_ffff,
            y <= 0xffff_ffff,
    ;
}

pub fn evaluate_auth_ratio(inputs: AuthInputs, weights: AuthWeights) -> (r: Result<AuthRatio>)
    requires
        weighted_sum(inputs, weights) <= u64::MAX,
    ensures
        auth_ratio_value(inputs, weights) <= AUTH_RATIO_SCALE ==> r == Ok::<AuthRatio, KernelError>(
            AuthRatio(auth_ratio_value(inputs, weights)),
        ),
        auth_ratio_value(inputs, weights) > AUTH_RATIO_SCALE ==> (r matches Err(
            KernelError::InvalidParameter(m),
        ) && m@ == "auth ratio must be within [0, 1_000_000]"@),
{
    proof {
        lemma_products_fit(weights.magnitude, inputs.magnitude.0);
        lemma_products_fit(weights.composition, inputs.composition.0);
        lemma_products_fit(weights.ownership, inputs.ownership.0);
        lemma_products_fit(weights.policy, inputs.policy.0);
    }
    let sum: u64 = (weights.magnitude as u64 * inputs.magnitude.0 as u64) + (weights.composition as u64
        * inputs.composition.0 as u64) + (weights.ownership as u64 * inputs.ownership.0 as u64) + (
    weights.policy as u64 * inputs.policy.0 as u64);
    let result = (sum / AUTH_RATIO_SCALE) as u32;
    AuthRatio::new(result)
}

/// The error `certify` reports for `inputs` under `ctx`, if any.
pub open spec fn certification_failure(inputs: AuthInputs, ctx: CertificationContext) -> Option<
    (KernelErrorKind, Seq<char>),
> {
    if auth_ratio_value(inputs, ctx.weights) > AUTH_RATIO_SCALE {
        Some((KernelErrorKind::InvalidParameter, "auth ratio must be within [0, 1_000_000]"@))
    } else {
        None
    }
}

impl CertificationReport {
    /// The report is the one `certify` produces for `inputs` under `ctx`.
    pub open spec fn certifies(self, inputs: AuthInputs, ctx: CertificationContext) -> bool {
        let ratio = auth_ratio_value(inputs, ctx.weights);
        &&& self.auth_ratio == AuthRatio(ratio)
        &&& self.threshold == ctx.threshold
        &&& self.state == state_for(ratio, ctx.threshold.0)
        &&& self.policy_version == ctx.protocol_version
        &&& (self.state == CertificationState::Certified ==> self.reason is None)
        &&& (self.state != CertificationState::Certified ==> (self.reason matches Some(m) && m@
            == "auth ratio below threshold"@))
    }
}

/// Scores `inputs` with the context's weights and compares the ratio with its threshold.
pub fn certify(inputs: AuthInputs, ctx: &CertificationContext) -> (r: Result<CertificationReport>)
    requires
        weighted_sum(inputs, ctx.weights) <= u64::MAX,
    ensures
        certification_failure(inputs, *ctx) matches Some(f) ==> (r matches Err(e) && e.is(f.0, f.1)),
        certification_failure(inputs, *ctx) is None ==> (r matches Ok(report) && report.certifies(
            inputs,
            *ctx,
        )),
{
    let auth_ratio = evaluate_auth_ratio(inputs, ctx.weights)?;
    let state = if auth_ratio.0 >= ctx.threshold.0 {
        CertificationState::Certified
    } else {
        CertificationState::Uncertified
    };
    let reason = match state {
        CertificationState::Certified => None,
        _ => Some(String::from_str("auth ratio below threshold")),
    };
    Ok(CertificationReport {
        auth_ratio,
        threshold: ctx.threshold,
        state,
        policy_version: ctx.protocol_version.clone(),
        reason,
    })
}

proof fn lemma_scaled_between(k: int, lo: int, x: int, hi: int)
    requires
        0 <= k,
        lo <= x <= hi,
    ensures
        k * lo <= k * x <= k * hi,
{
    assert(k * lo <= k * x) by (nonlinear_arith)
        requires
            0 <= k,
            lo <= x,
    ;
    assert(k * x <= k * hi) by (nonlinear_arith)
        requires
            0 <= k,
            x <= hi,
    ;
}

/// With inputs in range and weights summing to one, the certification ratio is a weighted
/// average of the inputs: it is computed without error and lies between the smallest and the
/// largest input, hence within `[0, 1_000_000]`.
pub proof fn lemma_auth_ratio_is_weighted_average(inputs: AuthInputs, weights: AuthWeights, lo: u32, hi: u32)
    requires
        inputs.in_range(),
        weights.total() == AUTH_RATIO_SCALE,
        lo <= inputs.magnitude.0 && lo <= inputs.composition.0 && lo <= inputs.ownership.0 && lo
            <= inputs.policy.0,
        inputs.magnitude.0 <= hi && inputs.composition.0 <= hi && inputs.ownership.0 <= hi
            && inputs.policy.0 <= hi,
    ensures
        weighted_sum(inputs, weights) <= u64::MAX,
        lo <= auth_ratio_value(inputs, weights) <= hi,
        auth_ratio_value(inputs, weights) <= AUTH_RATIO_SCALE,
{
    let (a, b, c, d) = (weights.magnitude as int, weights.composition as int, weights.ownership as int, weights.policy as int);
    let (x, y, z, w) = (inputs.magnitude.0 as int, inputs.composition.0 as int, inputs.ownership.0 as int, inputs.policy.0 as int);
    let s = weighted_sum(inputs, weights);
    assert(s == a * x + b * y + c * z + d * w);
    lemma_scaled_between(a, lo as int, x, hi as int);
    lemma_scaled_between(b, lo as int, y, hi as int);
    lemma_scaled_between(c, lo as int, z, hi as int);
    lemma_scaled_between(d, lo as int, w, hi as int);
    lemma_scaled_between(a, 0, x, 1_000_000);
    lemma_scaled_between(b, 0, y, 1_000_000);
    lemma_scaled_between(c, 0, z, 1_000_000);
    lemma_scaled_between(d, 0, w, 1_000_000);
    assert(a * lo + b * lo + c * lo + d * lo == (a + b + c + d) * lo) by (nonlinear_arith);
    assert(a * hi + b * hi + c * hi + d * hi == (a + b + c + d) * hi) by (nonlinear_arith);
    assert(a * 1_000_000 + b * 1_000_000 + c * 1_000_000 + d * 1_000_000 == (a + b + c + d)
        * 1_000_000) by (nonlinear_arith);
    let q = s / 1_000_000;
    assert(lo <= q <= hi) by (nonlinear_arith)
        requires
            lo * 1_000_000 <= s <= hi * 1_000_000,
            q == s / 1_000_000,
    ;
    assert(q <= 1_000_000) by (nonlinear_arith)
        requires
            0 <= s <= 1_000_000 * 1_000_000,
            q == s / 1_000_000,
    ;
}

} // verus!
