use v_contractx::access::{is_authorized, AccessContext, AccessPolicy, Role};
use v_contractx::certification::{
    certify, evaluate_auth_ratio, AuthInputs, AuthRatio, AuthWeights, CertificationContext,
    CertificationState, CertificationThreshold, MicroScore,
};
use v_contractx::errors::KernelError;

fn ctx(threshold: u32) -> CertificationContext {
    CertificationContext {
        vector_type: "free".to_string(),
        operation_class: "projection".to_string(),
        space_policy_version: "1".to_string(),
        risk_profile: "standard".to_string(),
        protocol_version: "1.1".to_string(),
        threshold: CertificationThreshold::new(threshold).unwrap(),
        weights: AuthWeights::normalized(400_000, 300_000, 200_000, 100_000).unwrap(),
    }
}

fn inputs(a: u32, b: u32, c: u32, d: u32) -> AuthInputs {
    AuthInputs {
        magnitude: MicroScore(a),
        composition: MicroScore(b),
        ownership: MicroScore(c),
        policy: MicroScore(d),
    }
}

#[test]
fn micro_scores_stay_within_one() {
    assert_eq!(MicroScore::new(1_000_000), Ok(MicroScore(1_000_000)));
    assert_eq!(
        MicroScore::new(1_000_001),
        Err(KernelError::InvalidParameter("micro score must be within [0, 1_000_000]".to_string()))
    );
    assert_eq!(MicroScore::zero(), MicroScore(0));
    assert_eq!(MicroScore::one(), MicroScore(1_000_000));
    assert_eq!(AuthRatio::new(7), Ok(AuthRatio(7)));
    assert_eq!(
        AuthRatio::new(2_000_000),
        Err(KernelError::InvalidParameter("auth ratio must be within [0, 1_000_000]".to_string()))
    );
    assert_eq!(
        CertificationThreshold::new(1_000_001),
        Err(KernelError::InvalidParameter("threshold must be within [0, 1_000_000]".to_string()))
    );
}

#[test]
fn weights_must_sum_to_one() {
    assert_eq!(
        AuthWeights::normalized(250_000, 250_000, 250_000, 250_000),
        Ok(AuthWeights { magnitude: 250_000, composition: 250_000, ownership: 250_000, policy: 250_000 })
    );
    assert_eq!(
        AuthWeights::normalized(250_000, 250_000, 250_000, 249_999),
        Err(KernelError::InvalidParameter("auth weights must sum to 1000000".to_string()))
    );
}

#[test]
fn auth_ratio_is_the_weighted_average() {
    let weights = AuthWeights::normalized(400_000, 300_000, 200_000, 100_000).unwrap();
    assert_eq!(evaluate_auth_ratio(inputs(900_000, 800_000, 700_000, 600_000), weights), Ok(AuthRatio(800_000)));
    assert_eq!(evaluate_auth_ratio(inputs(500_000, 500_000, 500_000, 500_000), weights), Ok(AuthRatio(500_000)));
    assert_eq!(evaluate_auth_ratio(inputs(1_000_000, 0, 0, 0), weights), Ok(AuthRatio(400_000)));
    assert_eq!(evaluate_auth_ratio(inputs(3, 3, 3, 3), weights), Ok(AuthRatio(3)));
}

#[test]
fn auth_ratio_out_of_range_is_refused() {
    let weights = AuthWeights::normalized(1_000_000, 0, 0, 0).unwrap();
    assert_eq!(
        evaluate_auth_ratio(inputs(5_000_000, 0, 0, 0), weights),
        Err(KernelError::InvalidParameter("auth ratio must be within [0, 1_000_000]".to_string()))
    );
}

#[test]
fn certify_compares_ratio_with_threshold() {
    let report = certify(inputs(900_000, 800_000, 700_000, 600_000), &ctx(600_000)).unwrap();
    assert_eq!(report.auth_ratio, AuthRatio(800_000));
    assert_eq!(report.state, CertificationState::Certified);
    assert_eq!(report.reason, None);
    assert_eq!(report.policy_version, "1.1");
    let at_threshold = certify(inputs(900_000, 800_000, 700_000, 600_000), &ctx(800_000)).unwrap();
    assert_eq!(at_threshold.state, CertificationState::Certified);
    let below = certify(inputs(900_000, 800_000, 700_000, 600_000), &ctx(800_001)).unwrap();
    assert_eq!(below.state, CertificationState::Uncertified);
    assert_eq!(below.reason, Some("auth ratio below threshold".to_string()));
    assert_eq!(below.threshold, CertificationThreshold(800_001));
}

fn access(caller: &str, roles: Vec<Role>) -> AccessContext {
    AccessContext {
        caller_pk: caller.to_string(),
        roles,
        owner_pk: "owner".to_string(),
        certification_required: true,
    }
}

#[test]
fn open_policy_admits_every_role() {
    let policy = AccessPolicy::open();
    assert_eq!(
        policy.allowed_roles,
        vec![Role::Owner, Role::Operator, Role::Contract, Role::Auditor, Role::Validator, Role::Admin]
    );
    assert!(policy.allow_owner_override);
    assert!(!policy.requires_certification);
    assert!(is_authorized(&access("someone", vec![Role::Auditor]), &policy));
    assert!(is_authorized(&access("owner", vec![]), &policy));
    assert!(!is_authorized(&access("someone", vec![]), &policy));
}

#[test]
fn restricted_policy_checks_roles_and_owner_override() {
    let policy = AccessPolicy {
        allowed_roles: vec![Role::Admin],
        allow_owner_override: false,
        requires_certification: true,
    };
    assert!(!is_authorized(&access("owner", vec![Role::Operator]), &policy));
    assert!(is_authorized(&access("someone", vec![Role::Operator, Role::Admin]), &policy));
    let with_override = AccessPolicy { allow_owner_override: true, ..policy };
    assert!(is_authorized(&access("owner", vec![]), &with_override));
}
