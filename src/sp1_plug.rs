use vstd::prelude::*;
use vstd::string::StringExecFns;
use crate::cache::{cache_insert, ProgramCache, ProgramInfo};
use crate::digest::{program_hash, program_hash_of};
use crate::gate::{gate_step, ConcurrencyGate, GateEvent, GateView};
use crate::types::{
    BackendInfo, ExecutionResult, ExecutionStats, HealthStatus, ProofMetadata, ResourceUsage,
    ZkCapability, ZkError, ZkProof,
};

verus! {

/// Largest program accepted for proving, in bytes.
pub const MAX_PROGRAM_BYTES: usize = 104857600;

/// Endpoint of the remote proving service when none is configured.
pub const DEFAULT_NETWORK_ENDPOINT: &'static str = "https://api.sp1.giza.io";

/// Relies on `num_cpus::get`: the number of logical cores available to the
/// process, as seen by the machine at the time of the call; documented to be
/// at least 1.
#[verifier::external_body]
fn logical_cores() -> (r: usize)
    ensures
        r >= 1,
{
    num_cpus::get()
}

/// The representations a proof may take; each holds the backend's encoding of
/// the proof.
#[derive(Clone, Debug)]
pub enum Sp1ProofType {
    /// A proof straight from the virtual machine's prover.
    Core(Vec<u8>),
    /// A core proof wrapped into a PLONK proof over BN254.
    PlonkBn254(Vec<u8>),
    /// A core proof wrapped into a Groth16 proof over BN254.
    Groth16Bn254(Vec<u8>),
}

/// The tag of a proof payload, which selects the verification routine.
#[derive(PartialEq, Eq, Structural, Clone, Copy, Debug)]
pub enum ProofKind {
    Core,
    PlonkBn254,
    Groth16Bn254,
}

impl Sp1ProofType {
    pub open spec fn kind(&self) -> ProofKind {
        match self {
            Sp1ProofType::Core(_) => ProofKind::Core,
            Sp1ProofType::PlonkBn254(_) => ProofKind::PlonkBn254,
            Sp1ProofType::Groth16Bn254(_) => ProofKind::Groth16Bn254,
        }
    }

    pub open spec fn payload(&self) -> Seq<u8> {
        match self {
            Sp1ProofType::Core(b) => b@,
            Sp1ProofType::PlonkBn254(b) => b@,
            Sp1ProofType::Groth16Bn254(b) => b@,
        }
    }

    /// The encoded proof.
    pub fn bytes(&self) -> (r: &Vec<u8>)
        ensures
            r@ == self.payload(),
    {
        match self {
            Sp1ProofType::Core(b) => b,
            Sp1ProofType::PlonkBn254(b) => b,
            Sp1ProofType::Groth16Bn254(b) => b,
        }
    }

    /// The tag of the payload.
    pub fn proof_kind(&self) -> (r: ProofKind)
        ensures
            r == self.kind(),
    {
        match self {
            Sp1ProofType::Core(_) => ProofKind::Core,
            Sp1ProofType::PlonkBn254(_) => ProofKind::PlonkBn254,
            Sp1ProofType::Groth16Bn254(_) => ProofKind::Groth16Bn254,
        }
    }
}

/// How the adapter is set up.
#[derive(Clone, Debug)]
pub struct Sp1PlugConfig {
    /// Delegate proving to the remote service instead of proving in process.
    pub use_network: bool,
    /// Credential for the remote service; required when `use_network` is set.
    pub network_api_key: Option<String>,
    pub network_endpoint: Option<String>,
    /// Bound on concurrent proving calls; the logical core count when unset.
    pub max_concurrent: Option<usize>,
}

impl Default for Sp1PlugConfig {
    /// Local proving, no credential, one proving call per logical core.
    fn default() -> (r: Self)
        ensures
            !r.use_network,
            r.network_api_key is None,
            r.network_endpoint is None,
            r.max_concurrent matches Some(n) && n >= 1,
    {
        Sp1PlugConfig {
            use_network: false,
            network_api_key: None,
            network_endpoint: None,
            max_concurrent: Some(logical_cores()),
        }
    }
}

/// Where proving runs; fixed when the adapter is built.
pub enum Sp1Backend {
    /// In the current process.
    Local,
    /// On the remote proving service, with its credential and endpoint.
    Network { api_key: String, endpoint: String },
}

/// Failures of the adapter, each with its diagnostic text.
#[derive(Debug)]
pub enum Sp1PlugError {
    /// Compiling a program into key material failed.
    KeyGen(String),
    /// The backend failed to prove.
    Proof(String),
    /// The verification process itself failed (not: the proof is invalid).
    Verify(String),
    /// Running a program failed.
    Execution(String),
    /// No compiled program under the digest.
    NotFound(String),
    /// An input was rejected.
    Input(String),
    /// A payload could not be encoded or decoded.
    Serialization(String),
    /// The operation is not offered.
    Unsupported(String),
}

/// The variant of an adapter failure.
#[derive(PartialEq, Eq, Structural, Clone, Copy, Debug)]
pub enum ErrorKind {
    KeyGen,
    Proof,
    Verify,
    Execution,
    NotFound,
    Input,
    Serialization,
    Unsupported,
}

impl Sp1PlugError {
    pub open spec fn kind(&self) -> ErrorKind {
        match self {
            Sp1PlugError::KeyGen(_) => ErrorKind::KeyGen,
            Sp1PlugError::Proof(_) => ErrorKind::Proof,
            Sp1PlugError::Verify(_) => ErrorKind::Verify,
            Sp1PlugError::Execution(_) => ErrorKind::Execution,
            Sp1PlugError::NotFound(_) => ErrorKind::NotFound,
            Sp1PlugError::Input(_) => ErrorKind::Input,
            Sp1PlugError::Serialization(_) => ErrorKind::Serialization,
            Sp1PlugError::Unsupported(_) => ErrorKind::Unsupported,
        }
    }

    pub open spec fn message_view(&self) -> Seq<char> {
        match self {
            Sp1PlugError::KeyGen(m) => m@,
            Sp1PlugError::Proof(m) => m@,
            Sp1PlugError::Verify(m) => m@,
            Sp1PlugError::Execution(m) => m@,
            Sp1PlugError::NotFound(m) => m@,
            Sp1PlugError::Input(m) => m@,
            Sp1PlugError::Serialization(m) => m@,
            Sp1PlugError::Unsupported(m) => m@,
        }
    }

    /// The variant of the failure.
    pub fn error_kind(&self) -> (r: ErrorKind)
        ensures
            r == self.kind(),
    {
        match self {
            Sp1PlugError::KeyGen(_) => ErrorKind::KeyGen,
            Sp1PlugError::Proof(_) => ErrorKind::Proof,
            Sp1PlugError::Verify(_) => ErrorKind::Verify,
            Sp1PlugError::Execution(_) => ErrorKind::Execution,
            Sp1PlugError::NotFound(_) => ErrorKind::NotFound,
            Sp1PlugError::Input(_) => ErrorKind::Input,
            Sp1PlugError::Serialization(_) => ErrorKind::Serialization,
            Sp1PlugError::Unsupported(_) => ErrorKind::Unsupported,
        }
    }

    /// The diagnostic text.
    pub fn message(&self) -> (r: String)
        ensures
            r@ == self.message_view(),
    {
        match self {
            Sp1PlugError::KeyGen(m) => m.clone(),
            Sp1PlugError::Proof(m) => m.clone(),
            Sp1PlugError::Verify(m) => m.clone(),
            Sp1PlugError::Execution(m) => m.clone(),
            Sp1PlugError::NotFound(m) => m.clone(),
            Sp1PlugError::Input(m) => m.clone(),
            Sp1PlugError::Serialization(m) => m.clone(),
            Sp1PlugError::Unsupported(m) => m.clone(),
        }
    }
}

/// A backend failure met while proving, with its text.
impl From<ZkError> for Sp1PlugError {
    fn from(e: ZkError) -> (r: Sp1PlugError) {
        match e {
            ZkError::Config(m) => Sp1PlugError::Proof(m),
            ZkError::InvalidInput(m) => Sp1PlugError::Proof(m),
            ZkError::Compile(m) => Sp1PlugError::Proof(m),
            ZkError::ProofGeneration(m) => Sp1PlugError::Proof(m),
            ZkError::Verification(m) => Sp1PlugError::Proof(m),
            ZkError::Execution(m) => Sp1PlugError::Proof(m),
            ZkError::NotFound(m) => Sp1PlugError::Proof(m),
            ZkError::Serialization(m) => Sp1PlugError::Proof(m),
            ZkError::Unsupported(m) => Sp1PlugError::Proof(m),
        }
    }
}

impl vstd::std_specs::convert::FromSpecImpl<ZkError> for Sp1PlugError {
    open spec fn obeys_from_spec() -> bool {
        true
    }

    open spec fn from_spec(e: ZkError) -> Sp1PlugError {
        match e {
            ZkError::Config(m) => Sp1PlugError::Proof(m),
            ZkError::InvalidInput(m) => Sp1PlugError::Proof(m),
            ZkError::Compile(m) => Sp1PlugError::Proof(m),
            ZkError::ProofGeneration(m) => Sp1PlugError::Proof(m),
            ZkError::Verification(m) => Sp1PlugError::Proof(m),
            ZkError::Execution(m) => Sp1PlugError::Proof(m),
            ZkError::NotFound(m) => Sp1PlugError::Proof(m),
            ZkError::Serialization(m) => Sp1PlugError::Proof(m),
            ZkError::Unsupported(m) => Sp1PlugError::Proof(m),
        }
    }
}

/// The matching shared error: the kind and the text are kept.
impl From<Sp1PlugError> for ZkError {
    fn from(e: Sp1PlugError) -> (r: ZkError) {
        match e {
            Sp1PlugError::KeyGen(m) => ZkError::Compile(m),
            Sp1PlugError::Proof(m) => ZkError::ProofGeneration(m),
            Sp1PlugError::Verify(m) => ZkError::Verification(m),
            Sp1PlugError::Execution(m) => ZkError::Execution(m),
            Sp1PlugError::NotFound(m) => ZkError::NotFound(m),
            Sp1PlugError::Input(m) => ZkError::InvalidInput(m),
            Sp1PlugError::Serialization(m) => ZkError::Serialization(m),
            Sp1PlugError::Unsupported(m) => ZkError::Unsupported(m),
        }
    }
}

impl vstd::std_specs::convert::FromSpecImpl<Sp1PlugError> for ZkError {
    open spec fn obeys_from_spec() -> bool {
        true
    }

    open spec fn from_spec(e: Sp1PlugError) -> ZkError {
        match e {
            Sp1PlugError::KeyGen(m) => ZkError::Compile(m),
            Sp1PlugError::Proof(m) => ZkError::ProofGeneration(m),
            Sp1PlugError::Verify(m) => ZkError::Verification(m),
            Sp1PlugError::Execution(m) => ZkError::Execution(m),
            Sp1PlugError::NotFound(m) => ZkError::NotFound(m),
            Sp1PlugError::Input(m) => ZkError::InvalidInput(m),
            Sp1PlugError::Serialization(m) => ZkError::Serialization(m),
            Sp1PlugError::Unsupported(m) => ZkError::Unsupported(m),
        }
    }
}

/// What the backend is asked to prove: the program's proving key and the
/// input stream, each entry one slice written to the program's input.
#[derive(Clone, Debug)]
pub struct ProveRequest {
    pub program_hash: String,
    pub proving_key: Vec<u8>,
    pub stdin: Vec<Vec<u8>>,
}

/// What the backend is asked to verify: the routine to use, the encoded proof
/// and the verifying key of the proof's program.
#[derive(Clone, Debug)]
pub struct VerifyRequest {
    pub kind: ProofKind,
    pub proof: Vec<u8>,
    pub verifying_key: Vec<u8>,
}

/// What the backend is asked to run: the program and its input stream.
#[derive(Clone, Debug)]
pub struct ExecuteRequest {
    pub elf: Vec<u8>,
    pub stdin: Vec<Vec<u8>>,
}

/// The input stream for a call: `first` when given, then the public inputs
/// when given.
pub open spec fn stdin_of(first: Option<Seq<u8>>, public_inputs: Option<Seq<u8>>) -> Seq<Seq<u8>> {
    let head = match first {
        Some(b) => seq![b],
        None => Seq::empty(),
    };
    match public_inputs {
        Some(p) => head.push(p),
        None => head,
    }
}

pub open spec fn stdin_view(v: Seq<Vec<u8>>) -> Seq<Seq<u8>> {
    v.map_values(|b: Vec<u8>| b@)
}

/// `p` is the envelope of a core proof `bytes` of the program with digest
/// `hash`, made in mode `backend_id`.
pub open spec fn is_core_envelope(
    p: ZkProof<Sp1ProofType>,
    backend_id: Seq<char>,
    hash: Seq<char>,
    bytes: Seq<u8>,
    timestamp: u64,
    generation_time_ms: u64,
) -> bool {
    &&& p.proof.kind() == ProofKind::Core
    &&& p.proof.payload() == bytes
    &&& p.metadata.timestamp == timestamp
    &&& p.metadata.generation_time_ms == generation_time_ms
    &&& p.metadata.proof_size == bytes.len()
    &&& p.metadata.backend_id@ == backend_id
    &&& p.metadata.circuit_hash matches Some(h) && h@ == hash
    &&& p.metadata.custom_fields@.len() == 0
}

/// Where verifying `p` against the cached programs `cache` leads: an input
/// error without a digest, not-found for an unknown digest, and otherwise the
/// routine of the payload's tag, on the payload and the program's verifying key.
pub open spec fn verify_dispatch(
    cache: Map<Seq<char>, ProgramInfo>,
    p: ZkProof<Sp1ProofType>,
) -> Result<(ProofKind, Seq<u8>, Seq<u8>), ErrorKind> {
    match p.metadata.circuit_hash {
        None => Err(ErrorKind::Input),
        Some(h) => if cache.contains_key(h@) {
            Ok((p.proof.kind(), p.proof.payload(), cache[h@].verifying_key@))
        } else {
            Err(ErrorKind::NotFound)
        },
    }
}

pub open spec fn verify_request_view(r: Result<VerifyRequest, Sp1PlugError>) -> Result<(ProofKind, Seq<u8>, Seq<u8>), ErrorKind> {
    match r {
        Ok(q) => Ok((q.kind, q.proof@, q.verifying_key@)),
        Err(e) => Err(e.kind()),
    }
}

/// What a verification outcome becomes: a verdict of the backend is passed
/// on, `false` included; a failure of the process is a `Verify` error.
pub open spec fn verify_outcome(outcome: Result<bool, String>) -> Result<bool, Sp1PlugError> {
    match outcome {
        Ok(valid) => Ok(valid),
        Err(m) => Err(Sp1PlugError::Verify(m)),
    }
}

/// An envelope made by the adapter from a cached program is verified with the
/// core routine, on exactly the proof bytes it carries and that program's
/// verifying key; the backend's verdict on them, `true` for the untouched
/// proof and `false` for corrupted bytes, is what verification returns.
pub proof fn lemma_round_trip(
    cache: Map<Seq<char>, ProgramInfo>,
    p: ZkProof<Sp1ProofType>,
    backend_id: Seq<char>,
    hash: Seq<char>,
    bytes: Seq<u8>,
    timestamp: u64,
    generation_time_ms: u64,
    verdict: bool,
)
    requires
        is_core_envelope(p, backend_id, hash, bytes, timestamp, generation_time_ms),
        cache.contains_key(hash),
    ensures
        verify_dispatch(cache, p) == Ok::<(ProofKind, Seq<u8>, Seq<u8>), ErrorKind>(
            (ProofKind::Core, bytes, cache[hash].verifying_key@),
        ),
        verify_outcome(Ok(verdict)) == Ok::<bool, Sp1PlugError>(verdict),
{
}

/// An envelope without a program digest is refused as an input error, before
/// any verifying key is looked up or any routine chosen.
pub proof fn lemma_missing_digest_refused(cache: Map<Seq<char>, ProgramInfo>, p: ZkProof<Sp1ProofType>)
    requires
        p.metadata.circuit_hash is None,
    ensures
        verify_dispatch(cache, p) == Err::<(ProofKind, Seq<u8>, Seq<u8>), ErrorKind>(ErrorKind::Input),
{
}

/// A process whose cache lacks the envelope's program cannot verify it: the
/// answer is not-found, neither valid nor invalid.
pub proof fn lemma_cold_cache_not_found(cache: Map<Seq<char>, ProgramInfo>, p: ZkProof<Sp1ProofType>, hash: String)
    requires
        p.metadata.circuit_hash == Some(hash),
        !cache.contains_key(hash@),
    ensures
        verify_dispatch(cache, p) == Err::<(ProofKind, Seq<u8>, Seq<u8>), ErrorKind>(ErrorKind::NotFound),
{
}

/// Copies a slice into a fresh input-stream entry.
fn owned_bytes(b: &[u8]) -> (r: Vec<u8>)
    ensures
        r@ == b@,
{
    vstd::slice::slice_to_vec(b)
}

/// The input stream of `first` followed by the public inputs.
fn build_stdin(first: Option<&[u8]>, public_inputs: Option<&[u8]>) -> (r: Vec<Vec<u8>>)
    ensures
        stdin_view(r@) == stdin_of(
            match first { Some(b) => Some(b@), None => None },
            match public_inputs { Some(p) => Some(p@), None => None },
        ),
{
    let mut stdin: Vec<Vec<u8>> = Vec::new();
    if let Some(b) = first {
        stdin.push(owned_bytes(b));
    }
    if let Some(p) = public_inputs {
        stdin.push(owned_bytes(p));
    }
    assert(stdin_view(stdin@) =~= stdin_of(
        match first { Some(b) => Some(b@), None => None },
        match public_inputs { Some(p) => Some(p@), None => None },
    ));
    stdin
}

/// What storing compiled keys under `h` does to the cache `before`: an entry
/// under `h` is added when absent; an entry already there is kept as it is.
pub open spec fn setup_effect(
    before: Map<Seq<char>, ProgramInfo>,
    after: Map<Seq<char>, ProgramInfo>,
    h: Seq<char>,
) -> bool {
    &&& after.dom() == before.dom().insert(h)
    &&& before.contains_key(h) ==> after == before
    &&& !before.contains_key(h) ==> after == before.insert(h, after[h])
}

/// Setting up one program twice gives the same digest both times and leaves
/// the cache as after the first: one artifact under that digest, compiled once.
pub proof fn lemma_setup_twice(
    program: Seq<u8>,
    before: Map<Seq<char>, ProgramInfo>,
    once: Map<Seq<char>, ProgramInfo>,
    twice: Map<Seq<char>, ProgramInfo>,
    first: Seq<char>,
    second: Seq<char>,
)
    requires
        first == program_hash_of(program),
        second == program_hash_of(program),
        setup_effect(before, once, first),
        setup_effect(once, twice, second),
        before.dom().finite(),
    ensures
        first == second,
        twice == once,
        once.dom().finite(),
        once.len() == before.len() + (if before.contains_key(first) { 0int } else { 1int }),
        twice.len() == once.len(),
        once.contains_key(first),
        once.dom() == before.dom().insert(first),
        once.remove(first) == before.remove(first),
{
    assert(once.remove(first) =~= before.remove(first));
    if !before.contains_key(first) {
        assert(once.dom() =~= before.dom().insert(first));
    }
}

/// The features this backend declares, in order.
pub open spec fn sp1_capabilities(caps: Seq<ZkCapability>) -> bool {
    &&& caps.len() == 6
    &&& caps[0] is VirtualMachine
    &&& caps[1] is BatchProving
    &&& caps[2] is SuccinctVerification
    &&& caps[3] is ZeroKnowledge
    &&& caps[4] matches ZkCapability::Custom(n) && n@ == "plonk_bn254"@
    &&& caps[5] matches ZkCapability::Custom(n) && n@ == "groth16_bn254"@
}

/// The resource figures reported for a gate in state `g`: the permits held
/// and the callers queued; load and memory are not measured.
pub open spec fn usage_of(u: ResourceUsage, g: GateView) -> bool {
    &&& u.active_tasks == g.in_flight
    &&& u.queue_depth == g.waiting
    &&& u.cpu_usage_percent == 0
    &&& u.memory_usage == 0
    &&& u.available_memory == 8589934592
}

/// Which mode `b` is, as recorded in proof metadata.
pub open spec fn backend_id_of(b: Sp1Backend) -> Seq<char> {
    match b {
        Sp1Backend::Local => "local"@,
        Sp1Backend::Network { .. } => "remote"@,
    }
}

/// `b` is the mode that `c` selects.
pub open spec fn backend_for(c: Sp1PlugConfig, b: Sp1Backend) -> bool {
    match b {
        Sp1Backend::Local => !c.use_network,
        Sp1Backend::Network { api_key, endpoint } => {
            &&& c.use_network
            &&& c.network_api_key matches Some(k) && k@ == api_key@
            &&& match c.network_endpoint {
                Some(e) => endpoint@ == e@,
                None => endpoint@ == DEFAULT_NETWORK_ENDPOINT@,
            }
        },
    }
}

/// The first step of a setup: the program's digest, and whether its keys are
/// already cached or must be compiled.
#[derive(Clone, Debug)]
pub enum SetupStep {
    Cached(String),
    Compile(String),
}

/// The proving adapter around one backend: compiled programs cached by
/// digest, proving calls bounded by a gate, and the mode fixed at
/// construction. Backend calls are made by the embedding process between the
/// steps below, without holding any lock on the adapter.
pub struct Sp1Plug {
    backend: Sp1Backend,
    config: Sp1PlugConfig,
    programs: ProgramCache,
    gate: ConcurrencyGate,
}

impl Sp1Plug {
    pub closed spec fn wf(&self) -> bool {
        self.programs.wf() && self.gate.wf()
    }

    /// The compiled programs, by digest.
    pub closed spec fn programs_view(&self) -> Map<Seq<char>, ProgramInfo> {
        self.programs@
    }

    /// The proving gate.
    pub closed spec fn gate_view(&self) -> GateView {
        self.gate@
    }

    /// The mode chosen at construction.
    pub closed spec fn backend_view(&self) -> Sp1Backend {
        self.backend
    }

    /// The configuration the adapter was built from.
    pub closed spec fn config_view(&self) -> Sp1PlugConfig {
        self.config
    }

    /// The adapter holds finitely many compiled programs.
    pub proof fn lemma_programs_finite(&self)
        requires
            self.wf(),
        ensures
            self.programs_view().dom().finite(),
    {
        self.programs.lemma_finite();
    }

    /// Every compiled program is held under the digest of its own bytes.
    pub proof fn lemma_content_addressed(&self, h: Seq<char>)
        requires
            self.wf(),
            self.programs_view().contains_key(h),
        ensures
            self.programs_view()[h].program_hash@ == h,
            h == program_hash_of(self.programs_view()[h].elf@),
    {
        self.programs.lemma_content_addressed(h);
    }

    /// An adapter with an empty cache. With no configuration it proves
    /// locally, one call per logical core. Selecting the remote service takes
    /// a credential.
    pub fn new(config: Option<Sp1PlugConfig>) -> (r: Self)
        requires
            config matches Some(c) ==> (c.use_network ==> c.network_api_key is Some),
        ensures
            r.wf(),
            r.programs_view() == Map::<Seq<char>, ProgramInfo>::empty(),
            r.gate_view().in_flight == 0,
            r.gate_view().waiting == 0,
            config is None ==> r.backend_view() is Local,
            config is None ==> {
                &&& !r.config_view().use_network
                &&& r.config_view().network_api_key is None
                &&& r.config_view().network_endpoint is None
                &&& r.config_view().max_concurrent is Some
            },
            config matches Some(c) ==> backend_for(c, r.backend_view()) && r.config_view() == c,
            backend_for(r.config_view(), r.backend_view()),
            r.config_view().max_concurrent matches Some(n) ==> r.gate_view().max == n,
            r.config_view().max_concurrent is None ==> r.gate_view().max >= 1,
            config is None ==> r.gate_view().max >= 1,
    {
        let config = match config {
            Some(c) => c,
            None => Sp1PlugConfig::default(),
        };
        let backend = if config.use_network {
            let api_key = match &config.network_api_key {
                Some(k) => k.clone(),
                None => {
                    assert(false);
                    String::new()
                },
            };
            let endpoint = match &config.network_endpoint {
                Some(e) => e.clone(),
                None => DEFAULT_NETWORK_ENDPOINT.to_owned(),
            };
            Sp1Backend::Network { api_key, endpoint }
        } else {
            Sp1Backend::Local
        };
        let max_concurrent = match config.max_concurrent {
            Some(n) => n,
            None => logical_cores(),
        };
        Sp1Plug {
            backend,
            config,
            programs: ProgramCache::new(),
            gate: ConcurrencyGate::new(max_concurrent),
        }
    }

    /// The identifier of this kind of backend.
    pub fn id(&self) -> (r: &'static str)
        ensures
            r@ == "sp1"@,
    {
        "sp1"
    }

    /// The identifier of the mode, recorded in the metadata of every proof.
    pub fn backend_id(&self) -> (r: String)
        ensures
            r@ == backend_id_of(self.backend_view()),
    {
        match &self.backend {
            Sp1Backend::Local => "local".to_owned(),
            Sp1Backend::Network { .. } => "remote".to_owned(),
        }
    }

    /// The configuration the adapter was built from.
    pub fn config(&self) -> (r: &Sp1PlugConfig)
        ensures
            *r == self.config_view(),
    {
        &self.config
    }

    /// The number of compiled programs held.
    pub fn program_count(&self) -> (r: usize)
        requires
            self.wf(),
        ensures
            self.programs_view().dom().finite(),
            r == self.programs_view().len(),
    {
        proof {
            self.programs.lemma_finite();
        }
        self.programs.len()
    }

    /// Rejects an empty program, or one over `MAX_PROGRAM_BYTES`.
    pub fn check_program(program: &[u8]) -> (r: Result<(), Sp1PlugError>)
        ensures
            r is Ok <==> 0 < program@.len() <= MAX_PROGRAM_BYTES,
            r matches Err(e) ==> e.kind() == ErrorKind::Input,
    {
        if program.len() == 0 {
            Err(Sp1PlugError::Input("Program is empty".to_owned()))
        } else if program.len() > MAX_PROGRAM_BYTES {
            Err(Sp1PlugError::Input("Program exceeds the size limit".to_owned()))
        } else {
            Ok(())
        }
    }

    /// The digest of `program`, and whether its keys must still be compiled.
    pub fn setup_step(&self, program: &[u8]) -> (r: SetupStep)
        requires
            self.wf(),
        ensures
            match r {
                SetupStep::Cached(h) => h@ == program_hash_of(program@) && self.programs_view().contains_key(h@),
                SetupStep::Compile(h) => h@ == program_hash_of(program@) && !self.programs_view().contains_key(h@),
            },
    {
        let hash = program_hash(program);
        if self.programs.contains(hash.as_str()) {
            SetupStep::Cached(hash)
        } else {
            SetupStep::Compile(hash)
        }
    }

    /// Stores what compiling `program` gave: its proving and verifying keys,
    /// or the compiler's diagnostic. Keys already cached under the digest are
    /// kept, since the content under a digest is always the same.
    pub fn finish_setup(
        &mut self,
        program: &[u8],
        compiled: Result<(Vec<u8>, Vec<u8>), String>,
        compiled_at: u64,
    ) -> (r: Result<String, Sp1PlugError>)
        requires
            old(self).wf(),
        ensures
            final(self).wf(),
            final(self).gate_view() == old(self).gate_view(),
            final(self).backend_view() == old(self).backend_view(),
            final(self).config_view() == old(self).config_view(),
            match compiled {
                Err(m) => r == Err::<String, Sp1PlugError>(Sp1PlugError::KeyGen(m))
                    && final(self).programs_view() == old(self).programs_view(),
                Ok((pk, vk)) => r matches Ok(h) && h@ == program_hash_of(program@)
                    && setup_effect(old(self).programs_view(), final(self).programs_view(), h@)
                    && (!old(self).programs_view().contains_key(h@) ==> {
                        let info = final(self).programs_view()[h@];
                        &&& info.program_hash@ == h@
                        &&& info.elf@ == program@
                        &&& info.proving_key == pk
                        &&& info.verifying_key == vk
                        &&& info.compiled_at == compiled_at
                    }),
            },
    {
        match compiled {
            Err(m) => Err(Sp1PlugError::KeyGen(m)),
            Ok((proving_key, verifying_key)) => {
                let info = ProgramInfo::new(program, proving_key, verifying_key, compiled_at);
                let hash = info.program_hash.clone();
                let ghost item = info;
                self.programs.insert(info);
                assert(cache_insert(old(self).programs@, item).dom() =~= old(self).programs@.dom().insert(hash@));
                assert(!old(self).programs@.contains_key(hash@) ==> self.programs@ =~= old(self).programs@.insert(hash@, self.programs@[hash@]));
                Ok(hash)
            },
        }
    }

    /// The compiled program under `hash`.
    pub fn get_program_info(&self, hash: &str) -> (r: Result<&ProgramInfo, Sp1PlugError>)
        requires
            self.wf(),
        ensures
            r is Ok <==> self.programs_view().contains_key(hash@),
            r matches Ok(info) ==> *info == self.programs_view()[hash@] && info.program_hash@ == hash@
                && hash@ == program_hash_of(info.elf@),
            r matches Err(e) ==> e.kind() == ErrorKind::NotFound,
    {
        match self.programs.get(hash) {
            Some(info) => {
                proof {
                    self.programs.lemma_content_addressed(hash@);
                }
                Ok(info)
            },
            None => {
                let mut m = "Program not found: ".to_owned();
                m.append(hash);
                Err(Sp1PlugError::NotFound(m))
            },
        }
    }

    /// Asks for a proving permit: `true` when taken, `false` when the
    /// caller is queued.
    pub fn acquire_permit(&mut self) -> (r: bool)
        requires
            old(self).wf(),
            old(self).gate_view().waiting < usize::MAX,
        ensures
            final(self).wf(),
            r == (old(self).gate_view().in_flight < old(self).gate_view().max),
            final(self).gate_view() == gate_step(old(self).gate_view(), GateEvent::Acquire),
            final(self).programs_view() == old(self).programs_view(),
            final(self).backend_view() == old(self).backend_view(),
            final(self).config_view() == old(self).config_view(),
    {
        self.gate.acquire()
    }

    /// Wakes a queued caller: `true` when it took a permit.
    pub fn wake_waiter(&mut self) -> (r: bool)
        requires
            old(self).wf(),
        ensures
            final(self).wf(),
            r == (old(self).gate_view().waiting > 0 && old(self).gate_view().in_flight < old(self).gate_view().max),
            final(self).gate_view() == gate_step(old(self).gate_view(), GateEvent::Wake),
            final(self).programs_view() == old(self).programs_view(),
            final(self).backend_view() == old(self).backend_view(),
            final(self).config_view() == old(self).config_view(),
    {
        self.gate.wake()
    }

    /// Gives a permit back, on every exit path of a proving call; `true` when
    /// a queued caller should be woken.
    pub fn release_permit(&mut self) -> (r: bool)
        requires
            old(self).wf(),
        ensures
            final(self).wf(),
            r == (old(self).gate_view().in_flight > 0 && old(self).gate_view().waiting > 0),
            final(self).gate_view() == gate_step(old(self).gate_view(), GateEvent::Release),
            final(self).programs_view() == old(self).programs_view(),
            final(self).backend_view() == old(self).backend_view(),
            final(self).config_view() == old(self).config_view(),
    {
        self.gate.release()
    }

    /// A queued caller was cancelled before it got a permit.
    pub fn cancel_wait(&mut self)
        requires
            old(self).wf(),
        ensures
            final(self).wf(),
            final(self).gate_view() == gate_step(old(self).gate_view(), GateEvent::Cancel),
            final(self).programs_view() == old(self).programs_view(),
            final(self).backend_view() == old(self).backend_view(),
            final(self).config_view() == old(self).config_view(),
    {
        self.gate.cancel()
    }
    /// The request for proving the program cached under `hash` on the public
    /// inputs.
    pub fn prove_request(&self, hash: &str, public_inputs: Option<&[u8]>) -> (r: Result<ProveRequest, Sp1PlugError>)
        requires
            self.wf(),
        ensures
            r is Ok <==> self.programs_view().contains_key(hash@),
            r matches Err(e) ==> e.kind() == ErrorKind::NotFound,
            r matches Ok(q) ==> {
                &&& q.program_hash@ == hash@
                &&& q.proving_key@ == self.programs_view()[hash@].proving_key@
                &&& stdin_view(q.stdin@) == stdin_of(None, match public_inputs { Some(p) => Some(p@), None => None })
            },
    {
        let info = self.get_program_info(hash)?;
        Ok(ProveRequest {
            program_hash: hash.to_owned(),
            proving_key: owned_bytes(info.proving_key.as_slice()),
            stdin: build_stdin(None, public_inputs),
        })
    }

    /// Assembles what the backend's prove call gave into an envelope: a core
    /// proof with its digest, size, timing and the adapter's mode; a backend
    /// failure becomes a `Proof` error carrying its diagnostic.
    pub fn finish_prove(
        &self,
        program_hash: String,
        outcome: Result<Vec<u8>, String>,
        timestamp: u64,
        generation_time_ms: u64,
    ) -> (r: Result<ZkProof<Sp1ProofType>, Sp1PlugError>)
        ensures
            match outcome {
                Err(m) => r == Err::<ZkProof<Sp1ProofType>, Sp1PlugError>(Sp1PlugError::Proof(m)),
                Ok(bytes) => r matches Ok(p) && is_core_envelope(
                    p,
                    backend_id_of(self.backend_view()),
                    program_hash@,
                    bytes@,
                    timestamp,
                    generation_time_ms,
                ),
            },
    {
        match outcome {
            Err(m) => Err(Sp1PlugError::Proof(m)),
            Ok(bytes) => {
                let proof_size = bytes.len();
                let metadata = ProofMetadata {
                    timestamp,
                    generation_time_ms,
                    proof_size,
                    backend_id: self.backend_id(),
                    circuit_hash: Some(program_hash),
                    custom_fields: Vec::new(),
                };
                Ok(ZkProof { proof: Sp1ProofType::Core(bytes), metadata })
            },
        }
    }

    /// The request for verifying `proof`: it needs the proof's program digest
    /// and that program's verifying key in this process.
    pub fn verify_request(&self, proof: &ZkProof<Sp1ProofType>) -> (r: Result<VerifyRequest, Sp1PlugError>)
        requires
            self.wf(),
        ensures
            verify_request_view(r) == verify_dispatch(self.programs_view(), *proof),
    {
        let hash = match &proof.metadata.circuit_hash {
            Some(h) => h,
            None => {
                return Err(Sp1PlugError::Input("Missing program hash".to_owned()));
            },
        };
        let info = self.get_program_info(hash.as_str())?;
        Ok(VerifyRequest {
            kind: proof.proof.proof_kind(),
            proof: owned_bytes(proof.proof.bytes().as_slice()),
            verifying_key: owned_bytes(info.verifying_key.as_slice()),
        })
    }

    /// Passes on the backend's verdict; keeps "the proof is invalid" (`Ok(false)`)
    /// apart from "verification could not run" (a `Verify` error).
    pub fn finish_verify(outcome: Result<bool, String>) -> (r: Result<bool, Sp1PlugError>)
        ensures
            r == verify_outcome(outcome),
    {
        match outcome {
            Ok(valid) => Ok(valid),
            Err(m) => Err(Sp1PlugError::Verify(m)),
        }
    }

    /// The request for running the program cached under `hash` on `input`,
    /// then the public inputs.
    pub fn execute_request(&self, hash: &str, input: &[u8], public_inputs: Option<&[u8]>) -> (r: Result<ExecuteRequest, Sp1PlugError>)
        requires
            self.wf(),
        ensures
            r is Ok <==> self.programs_view().contains_key(hash@),
            r matches Err(e) ==> e.kind() == ErrorKind::NotFound,
            r matches Ok(q) ==> {
                &&& q.elf@ == self.programs_view()[hash@].elf@
                &&& stdin_view(q.stdin@) == stdin_of(Some(input@), match public_inputs { Some(p) => Some(p@), None => None })
            },
    {
        let info = self.get_program_info(hash)?;
        Ok(ExecuteRequest {
            elf: owned_bytes(info.elf.as_slice()),
            stdin: build_stdin(Some(input), public_inputs),
        })
    }

    /// Turns what the backend's run gave into the output and the run's
    /// figures; a failed run becomes an `Execution` error.
    pub fn finish_run(
        outcome: Result<(Vec<u8>, u64), String>,
        execution_time_ms: u64,
    ) -> (r: Result<(Vec<u8>, ExecutionStats), Sp1PlugError>)
        ensures
            match outcome {
                Err(m) => r == Err::<(Vec<u8>, ExecutionStats), Sp1PlugError>(Sp1PlugError::Execution(m)),
                Ok((output, count)) => r matches Ok((out, stats)) && {
                    &&& out == output
                    &&& stats.steps == count
                    &&& stats.gas_used == Some(count)
                    &&& stats.memory_usage == 0
                    &&& stats.execution_time_ms == execution_time_ms
                },
            },
    {
        match outcome {
            Err(m) => Err(Sp1PlugError::Execution(m)),
            Ok((output, count)) => Ok((output, ExecutionStats {
                steps: count,
                memory_usage: 0,
                execution_time_ms,
                gas_used: Some(count),
            })),
        }
    }

    /// Puts a run's output and figures together with the proof of the run.
    pub fn finish_execute(
        output: Vec<u8>,
        stats: ExecutionStats,
        proof: ZkProof<Sp1ProofType>,
    ) -> (r: ExecutionResult<Sp1ProofType>)
        ensures
            r.output == output,
            r.stats == stats,
            r.proof == proof,
    {
        ExecutionResult { output, proof, stats }
    }

    /// The features this backend offers.
    pub fn capabilities(&self) -> (r: Vec<ZkCapability>)
        ensures
            sp1_capabilities(r@),
    {
        let mut caps: Vec<ZkCapability> = Vec::new();
        caps.push(ZkCapability::VirtualMachine);
        caps.push(ZkCapability::BatchProving);
        caps.push(ZkCapability::SuccinctVerification);
        caps.push(ZkCapability::ZeroKnowledge);
        caps.push(ZkCapability::Custom("plonk_bn254".to_owned()));
        caps.push(ZkCapability::Custom("groth16_bn254".to_owned()));
        caps
    }

    /// The adapter holds no connection of its own, so it is always ready.
    pub fn health_check(&self) -> (r: HealthStatus)
        ensures
            r is Healthy,
    {
        HealthStatus::Healthy
    }

    /// The proving calls holding and awaiting a permit; load and memory are
    /// not measured here.
    pub fn get_resource_usage(&self) -> (r: ResourceUsage)
        ensures
            usage_of(r, self.gate_view()),
    {
        ResourceUsage {
            cpu_usage_percent: 0,
            memory_usage: 0,
            available_memory: 8589934592,
            active_tasks: self.gate.active(),
            queue_depth: self.gate.queued(),
        }
    }

    /// Identity, capabilities, health and resource usage of the backend.
    pub fn get_backend_info(&self, version: String) -> (r: BackendInfo)
        ensures
            r.id@ == "sp1"@,
            r.name@ == "SP1 zkVM"@,
            r.version == version,
            sp1_capabilities(r.capabilities@),
            r.health is Healthy,
            usage_of(r.resource_usage, self.gate_view()),
            r.custom_info@.len() == 0,
    {
        BackendInfo {
            id: self.id().to_owned(),
            name: "SP1 zkVM".to_owned(),
            version,
            capabilities: self.capabilities(),
            health: self.health_check(),
            resource_usage: self.get_resource_usage(),
            custom_info: Vec::new(),
        }
    }

    /// Nothing to prepare beyond construction.
    pub fn initialize(&mut self) -> (r: Result<(), Sp1PlugError>)
        requires
            old(self).wf(),
        ensures
            final(self).wf(),
            r is Ok,
            final(self).programs_view() == old(self).programs_view(),
            final(self).gate_view() == old(self).gate_view(),
            final(self).backend_view() == old(self).backend_view(),
            final(self).config_view() == old(self).config_view(),
    {
        Ok(())
    }

    /// Drops every compiled program.
    pub fn shutdown(&mut self) -> (r: Result<(), Sp1PlugError>)
        requires
            old(self).wf(),
        ensures
            final(self).wf(),
            r is Ok,
            final(self).programs_view() == Map::<Seq<char>, ProgramInfo>::empty(),
            final(self).gate_view() == old(self).gate_view(),
            final(self).backend_view() == old(self).backend_view(),
            final(self).config_view() == old(self).config_view(),
    {
        self.programs.clear();
        Ok(())
    }
}

} // verus!
