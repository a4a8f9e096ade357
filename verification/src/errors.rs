use vstd::prelude::*;

verus! {

/// Every failure the kernel reports, each with a human-readable detail.
#[derive(Debug, Clone, PartialEq, Eq)]
pub enum KernelError {
    NotFound(String),
    AlreadyExists(String),
    InvalidParameter(String),
    InvalidState(String),
    AuthorizationFailed(String),
    CertificationFailed(String),
    TypeMismatch(String),
    ZeroVectorViolation(String),
    RecordIntegrityViolation(String),
    DoubleReconstruction(String),
    ContractError(String),
}

/// The variant of a `KernelError`, without its detail.
#[derive(Debug, Clone, Copy, PartialEq, Eq, Structural)]
pub enum KernelErrorKind {
    NotFound,
    AlreadyExists,
    InvalidParameter,
    InvalidState,
    AuthorizationFailed,
    CertificationFailed,
    TypeMismatch,
    ZeroVectorViolation,
    RecordIntegrityViolation,
    DoubleReconstruction,
    ContractError,
}

pub type Result<T> = core::result::Result<T, KernelError>;

impl KernelError {
    pub open spec fn kind(&self) -> KernelErrorKind {
        match self {
            KernelError::NotFound(_) => KernelErrorKind::NotFound,
            KernelError::AlreadyExists(_) => KernelErrorKind::AlreadyExists,
            KernelError::InvalidParameter(_) => KernelErrorKind::InvalidParameter,
            KernelError::InvalidState(_) => KernelErrorKind::InvalidState,
            KernelError::AuthorizationFailed(_) => KernelErrorKind::AuthorizationFailed,
            KernelError::CertificationFailed(_) => KernelErrorKind::CertificationFailed,
            KernelError::TypeMismatch(_) => KernelErrorKind::TypeMismatch,
            KernelError::ZeroVectorViolation(_) => KernelErrorKind::ZeroVectorViolation,
            KernelError::RecordIntegrityViolation(_) => KernelErrorKind::RecordIntegrityViolation,
            KernelError::DoubleReconstruction(_) => KernelErrorKind::DoubleReconstruction,
            KernelError::ContractError(_) => KernelErrorKind::ContractError,
        }
    }

    /// The error is of `kind` and carries `detail`.
    pub open spec fn is(&self, kind: KernelErrorKind, detail: Seq<char>) -> bool {
        self.kind() == kind && self.detail() == detail
    }

    /// The detail text carried by the error.
    pub open spec fn detail(&self) -> Seq<char> {
        match self {
            KernelError::NotFound(s) => s@,
            KernelError::AlreadyExists(s) => s@,
            KernelError::InvalidParameter(s) => s@,
            KernelError::InvalidState(s) => s@,
            KernelError::AuthorizationFailed(s) => s@,
            KernelError::CertificationFailed(s) => s@,
            KernelError::TypeMismatch(s) => s@,
            KernelError::ZeroVectorViolation(s) => s@,
            KernelError::RecordIntegrityViolation(s) => s@,
            KernelError::DoubleReconstruction(s) => s@,
            KernelError::ContractError(s) => s@,
        }
    }

    /// The label that precedes the detail in the rendered message.
    pub open spec fn label(&self) -> Seq<char> {
        match self {
            KernelError::NotFound(_) => "not found: "@,
            KernelError::AlreadyExists(_) => "already exists: "@,
            KernelError::InvalidParameter(_) => "invalid parameter: "@,
            KernelError::InvalidState(_) => "invalid state: "@,
            KernelError::AuthorizationFailed(_) => "authorization failed: "@,
            KernelError::CertificationFailed(_) => "certification failed: "@,
            KernelError::TypeMismatch(_) => "type mismatch: "@,
            KernelError::ZeroVectorViolation(_) => "zero-vector violation: "@,
            KernelError::RecordIntegrityViolation(_) => "record integrity violation: "@,
            KernelError::DoubleReconstruction(_) => "double reconstruction attempt: "@,
            KernelError::ContractError(_) => "contract error: "@,
        }
    }

    /// Renders the error as `<label><detail>`, e.g. `not found: wallet-a`.
    pub fn message(&self) -> (r: String)
        ensures
            r@ == self.label() + self.detail(),
    {
        let (label, detail): (&str, &String) = match self {
            KernelError::NotFound(s) => ("not found: ", s),
            KernelError::AlreadyExists(s) => ("already exists: ", s),
            KernelError::InvalidParameter(s) => ("invalid parameter: ", s),
            KernelError::InvalidState(s) => ("invalid state: ", s),
            KernelError::AuthorizationFailed(s) => ("authorization failed: ", s),
            KernelError::CertificationFailed(s) => ("certification failed: ", s),
            KernelError::TypeMismatch(s) => ("type mismatch: ", s),
            KernelError::ZeroVectorViolation(s) => ("zero-vector violation: ", s),
            KernelError::RecordIntegrityViolation(s) => ("record integrity violation: ", s),
            KernelError::DoubleReconstruction(s) => ("double reconstruction attempt: ", s),
            KernelError::ContractError(s) => ("contract error: ", s),
        };
        String::from_str(label).concat(detail.as_str())
    }
}

} // verus!
