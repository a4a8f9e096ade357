//! Contract runtime and projection framework for Vector Network.
//!
//! The kernel stays deterministic by using integer accounting, append-only
//! records, and explicit projection / reconstruction receipts.
pub mod access;
pub mod canonical;
pub mod certification;
pub mod contract;
pub mod errors;
pub mod keyed;
pub mod laws;
pub mod projection;
pub mod reconstruction;
pub mod record;
pub mod runtime;
pub mod types;
pub mod utils;
pub mod wasm;

pub use access::{is_authorized, AccessContext, AccessPolicy, Role};
pub use certification::{
    certify, evaluate_auth_ratio, AuthInputs, AuthRatio, AuthWeights, CertificationContext,
    CertificationReport, CertificationState, CertificationThreshold, MicroScore,
};
pub use contract::{
    admit_projection, require_contract, Contract, ContractContext, ContractDecision,
    ContractMetadata, ContractRegistry, DefaultStakeContract, StakeDirective,
};
pub use errors::{KernelError, KernelErrorKind, Result};
pub use keyed::KeyedMap;
pub use projection::{
    build_projection_envelope, DrainPolicy, ProjectionEnvelope, ProjectionLockKind,
    ProjectionRequest, ProjectionResult, ProjectionStatus, SettlementRule, SettlementTrigger,
};
pub use reconstruction::{
    reconstruct_projection, ReconstructionReceipt, ReconstructionRequest, SettlementOutcome,
};
pub use record::{make_record_id, FailureRecord, Record, RecordEnvelope};
pub use runtime::{DerivedStateCache, EventStore, Kernel, KernelContext, LiveEntityState};
pub use types::{
    ComponentAmount, ContractEnvironmentId, ContractId, EntityId, JsonEnvelope, LogicalClock,
    OperationKind, ProjectionId, ProofReference, RecordId, RegionId, SignatureReference, SpaceId,
    Timestamp, Vector, VectorState, VectorTypeTag, Wallet,
};
