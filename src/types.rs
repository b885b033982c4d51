use vstd::prelude::*;

verus! {

/// `std::io::Error`, carried inside `ProverError` without being looked into.
#[verifier::external_type_specification]
#[verifier::external_body]
pub struct ExIoError(std::io::Error);

/// Hex digest of a program's bytes, used as the key of compiled artifacts.
pub type ProgramHash = String;

/// Errors shared by every backend behind the capability contract.
#[derive(Debug)]
pub enum ZkError {
    /// A configuration was rejected (a duplicate backend id, a missing credential).
    Config(String),
    /// An input was rejected (empty, oversized, missing a required digest).
    InvalidInput(String),
    /// Compiling a program into key material failed.
    Compile(String),
    /// Proof generation failed.
    ProofGeneration(String),
    /// The verification process itself failed.
    Verification(String),
    /// Running a program failed.
    Execution(String),
    /// An unknown program digest or backend id.
    NotFound(String),
    /// A payload could not be encoded or decoded.
    Serialization(String),
    /// The operation is not offered.
    Unsupported(String),
}

impl ZkError {
    /// The diagnostic text the error carries.
    pub fn message(&self) -> (r: String)
        ensures
            r@ == self.message_view(),
    {
        match self {
            ZkError::Config(m) => m.clone(),
            ZkError::InvalidInput(m) => m.clone(),
            ZkError::Compile(m) => m.clone(),
            ZkError::ProofGeneration(m) => m.clone(),
            ZkError::Verification(m) => m.clone(),
            ZkError::Execution(m) => m.clone(),
            ZkError::NotFound(m) => m.clone(),
            ZkError::Serialization(m) => m.clone(),
            ZkError::Unsupported(m) => m.clone(),
        }
    }

    pub open spec fn message_view(&self) -> Seq<char> {
        match self {
            ZkError::Config(m) => m@,
            ZkError::InvalidInput(m) => m@,
            ZkError::Compile(m) => m@,
            ZkError::ProofGeneration(m) => m@,
            ZkError::Verification(m) => m@,
            ZkError::Execution(m) => m@,
            ZkError::NotFound(m) => m@,
            ZkError::Serialization(m) => m@,
            ZkError::Unsupported(m) => m@,
        }
    }
}

/// Failures of a prover service.
#[derive(Debug)]
pub enum ProverError {
    ZKError(ZkError),
    ProgramNotFound,
    IOError(std::io::Error),
    Other(String),
}

impl From<ZkError> for ProverError {
    fn from(e: ZkError) -> (r: ProverError) {
        ProverError::ZKError(e)
    }
}

impl vstd::std_specs::convert::FromSpecImpl<ZkError> for ProverError {
    open spec fn obeys_from_spec() -> bool {
        true
    }

    open spec fn from_spec(e: ZkError) -> ProverError {
        ProverError::ZKError(e)
    }
}

impl From<std::io::Error> for ProverError {
    fn from(e: std::io::Error) -> (r: ProverError) {
        ProverError::IOError(e)
    }
}

impl vstd::std_specs::convert::FromSpecImpl<std::io::Error> for ProverError {
    open spec fn obeys_from_spec() -> bool {
        true
    }

    open spec fn from_spec(e: std::io::Error) -> ProverError {
        ProverError::IOError(e)
    }
}

/// What a proof envelope records besides the proof.
#[derive(Clone, Debug)]
pub struct ProofMetadata {
    /// Seconds since the Unix epoch at which the proof was assembled.
    pub timestamp: u64,
    /// Wall-clock time the backend spent proving, in milliseconds.
    pub generation_time_ms: u64,
    /// Size of the encoded proof payload, in bytes.
    pub proof_size: usize,
    /// The backend mode that produced the proof.
    pub backend_id: String,
    /// Digest of the program the proof is about, when known.
    pub circuit_hash: Option<ProgramHash>,
    /// Backend-specific key-value fields.
    pub custom_fields: Vec<(String, String)>,
}

/// A proof payload together with its metadata.
#[derive(Clone, Debug)]
pub struct ZkProof<P> {
    pub proof: P,
    pub metadata: ProofMetadata,
}

/// Figures gathered while running a program.
#[derive(Clone, Debug)]
pub struct ExecutionStats {
    pub steps: u64,
    pub memory_usage: u64,
    /// Wall-clock time of the run, in milliseconds.
    pub execution_time_ms: u64,
    pub gas_used: Option<u64>,
}

/// A program's output, a proof of the run and the run's figures.
#[derive(Clone, Debug)]
pub struct ExecutionResult<P> {
    pub output: Vec<u8>,
    pub proof: ZkProof<P>,
    pub stats: ExecutionStats,
}

/// A feature a backend declares.
#[derive(Clone, Debug)]
pub enum ZkCapability {
    VirtualMachine,
    BatchProving,
    SuccinctVerification,
    ZeroKnowledge,
    Custom(String),
}

/// Whether a backend can take work.
#[derive(Clone, Debug)]
pub enum HealthStatus {
    Healthy,
    Degraded(String),
    Unhealthy(String),
}

/// A snapshot of what a backend is using.
#[derive(Clone, Debug)]
pub struct ResourceUsage {
    /// Processor load, in percent.
    pub cpu_usage_percent: u32,
    pub memory_usage: u64,
    pub available_memory: u64,
    /// Proving calls holding a permit.
    pub active_tasks: usize,
    /// Proving calls waiting for a permit.
    pub queue_depth: usize,
}

/// A static-plus-live description of a backend.
#[derive(Clone, Debug)]
pub struct BackendInfo {
    pub id: String,
    pub name: String,
    pub version: String,
    pub capabilities: Vec<ZkCapability>,
    pub health: HealthStatus,
    pub resource_usage: ResourceUsage,
    pub custom_info: Vec<(String, String)>,
}

} // verus!
