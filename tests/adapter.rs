use frostgate_prover::sp1_plug::{
    ErrorKind, ProofKind, SetupStep, Sp1Plug, Sp1PlugConfig, Sp1PlugError, Sp1ProofType,
    DEFAULT_NETWORK_ENDPOINT, MAX_PROGRAM_BYTES,
};
use frostgate_prover::types::{HealthStatus, ProverError, ZkCapability, ZkError, ZkProof};

fn local_config(max: usize) -> Sp1PlugConfig {
    Sp1PlugConfig {
        use_network: false,
        network_api_key: None,
        network_endpoint: None,
        max_concurrent: Some(max),
    }
}

/// A stand-in backend: keys are derived from the program, a proof is the
/// proving key followed by the input stream, and a proof is valid when it is
/// the one this rule gives.
fn compile(program: &[u8]) -> (Vec<u8>, Vec<u8>) {
    let mut pk = b"pk:".to_vec();
    pk.extend_from_slice(program);
    let mut vk = b"vk:".to_vec();
    vk.extend_from_slice(program);
    (pk, vk)
}

fn backend_prove(pk: &[u8], stdin: &[Vec<u8>]) -> Vec<u8> {
    let mut proof = pk[3..].to_vec();
    for entry in stdin {
        proof.extend_from_slice(entry);
    }
    proof
}

fn backend_verify(proof: &[u8], vk: &[u8]) -> bool {
    proof.starts_with(&vk[3..])
}

/// Runs the whole prove protocol against the stand-in backend.
fn prove(plug: &mut Sp1Plug, program: &[u8], public_inputs: Option<&[u8]>) -> Result<ZkProof<Sp1ProofType>, Sp1PlugError> {
    Sp1Plug::check_program(program)?;
    let hash = match plug.setup_step(program) {
        SetupStep::Cached(h) => h,
        SetupStep::Compile(_) => plug.finish_setup(program, Ok(compile(program)), 1_700_000_000)?,
    };
    let request = plug.prove_request(&hash, public_inputs)?;
    assert!(plug.acquire_permit());
    let bytes = backend_prove(&request.proving_key, &request.stdin);
    let result = plug.finish_prove(request.program_hash, Ok(bytes), 1_700_000_001, 5);
    plug.release_permit();
    result
}

fn verify(plug: &Sp1Plug, proof: &ZkProof<Sp1ProofType>) -> Result<bool, Sp1PlugError> {
    let request = plug.verify_request(proof)?;
    assert_eq!(request.kind, ProofKind::Core);
    Sp1Plug::finish_verify(Ok(backend_verify(&request.proof, &request.verifying_key)))
}

#[test]
fn add_two_numbers_scenario() {
    let mut plug = Sp1Plug::new(Some(local_config(2)));
    let envelope = prove(&mut plug, b"add_two_numbers", Some(&[3, 4])).unwrap();
    assert_eq!(envelope.metadata.backend_id, "local");
    assert!(envelope.metadata.proof_size > 0);
    assert_eq!(envelope.metadata.proof_size, envelope.proof.bytes().len());
    assert_eq!(envelope.metadata.generation_time_ms, 5);
    assert_eq!(envelope.metadata.timestamp, 1_700_000_001);
    assert!(envelope.metadata.custom_fields.is_empty());
    assert_eq!(envelope.metadata.circuit_hash.as_deref(), Some(frostgate_prover::digest::program_hash(b"add_two_numbers").as_str()));
    assert!(verify(&plug, &envelope).unwrap());

    let fresh = Sp1Plug::new(Some(local_config(2)));
    let err = verify(&fresh, &envelope).unwrap_err();
    assert_eq!(err.error_kind(), ErrorKind::NotFound);
}

#[test]
fn corrupted_proof_is_invalid_not_an_error() {
    let mut plug = Sp1Plug::new(Some(local_config(1)));
    let envelope = prove(&mut plug, b"prog", None).unwrap();
    assert!(verify(&plug, &envelope).unwrap());
    let mut bytes = envelope.proof.bytes().clone();
    bytes[0] ^= 0xff;
    let tampered = ZkProof { proof: Sp1ProofType::Core(bytes), metadata: envelope.metadata };
    assert_eq!(verify(&plug, &tampered).unwrap(), false);
}

#[test]
fn missing_digest_is_input_error() {
    let mut plug = Sp1Plug::new(Some(local_config(1)));
    let mut envelope = prove(&mut plug, b"prog", None).unwrap();
    envelope.metadata.circuit_hash = None;
    let err = plug.verify_request(&envelope).err().unwrap();
    assert_eq!(err.error_kind(), ErrorKind::Input);
    assert!(matches!(err, Sp1PlugError::Input(_)));
}

#[test]
fn verify_dispatches_on_the_tag() {
    let mut plug = Sp1Plug::new(Some(local_config(1)));
    let envelope = prove(&mut plug, b"prog", None).unwrap();
    let wrapped = ZkProof { proof: Sp1ProofType::Groth16Bn254(vec![9, 9]), metadata: envelope.metadata };
    let request = plug.verify_request(&wrapped).unwrap();
    assert_eq!(request.kind, ProofKind::Groth16Bn254);
    assert_eq!(request.proof, vec![9, 9]);
    assert_eq!(request.verifying_key, compile(b"prog").1);
    let plonk = ZkProof { proof: Sp1ProofType::PlonkBn254(vec![7]), metadata: wrapped.metadata };
    assert_eq!(plug.verify_request(&plonk).unwrap().kind, ProofKind::PlonkBn254);
}

#[test]
fn verification_failure_is_verify_error() {
    let r = Sp1Plug::finish_verify(Err("bad key material".to_string()));
    assert!(matches!(r, Err(Sp1PlugError::Verify(ref m)) if m == "bad key material"));
    assert_eq!(Sp1Plug::finish_verify(Ok(false)).unwrap(), false);
}

#[test]
fn setup_twice_compiles_once() {
    let mut plug = Sp1Plug::new(Some(local_config(1)));
    let first = match plug.setup_step(b"prog") {
        SetupStep::Compile(h) => h,
        SetupStep::Cached(_) => panic!("cold cache reported a hit"),
    };
    let stored = plug.finish_setup(b"prog", Ok(compile(b"prog")), 1).unwrap();
    assert_eq!(first, stored);
    match plug.setup_step(b"prog") {
        SetupStep::Cached(h) => assert_eq!(h, stored),
        SetupStep::Compile(_) => panic!("warm cache reported a miss"),
    }
    let again = plug.finish_setup(b"prog", Ok((vec![0], vec![0])), 2).unwrap();
    assert_eq!(again, stored);
    assert_eq!(plug.program_count(), 1);
    assert_eq!(plug.get_program_info(&stored).unwrap().compiled_at, 1);
}

#[test]
fn compile_failure_is_keygen_error() {
    let mut plug = Sp1Plug::new(Some(local_config(1)));
    let r = plug.finish_setup(b"prog", Err("no such instruction".to_string()), 1);
    assert!(matches!(r, Err(Sp1PlugError::KeyGen(ref m)) if m == "no such instruction"));
    assert_eq!(plug.program_count(), 0);
}

#[test]
fn prove_failure_is_proof_error() {
    let plug = Sp1Plug::new(Some(local_config(1)));
    let r = plug.finish_prove("h".to_string(), Err("out of memory".to_string()), 0, 0);
    assert!(matches!(r, Err(Sp1PlugError::Proof(ref m)) if m == "out of memory"));
}

#[test]
fn program_size_limits() {
    assert_eq!(Sp1Plug::check_program(b"").unwrap_err().error_kind(), ErrorKind::Input);
    assert!(Sp1Plug::check_program(b"x").is_ok());
    let big = vec![0u8; MAX_PROGRAM_BYTES + 1];
    assert_eq!(Sp1Plug::check_program(&big).unwrap_err().error_kind(), ErrorKind::Input);
    let edge = vec![0u8; MAX_PROGRAM_BYTES];
    assert!(Sp1Plug::check_program(&edge).is_ok());
}

#[test]
fn unknown_program_is_not_found() {
    let plug = Sp1Plug::new(Some(local_config(1)));
    assert_eq!(plug.prove_request("00", None).err().unwrap().error_kind(), ErrorKind::NotFound);
    assert_eq!(plug.execute_request("00", b"in", None).err().unwrap().error_kind(), ErrorKind::NotFound);
    assert!(matches!(plug.get_program_info("00"), Err(Sp1PlugError::NotFound(ref m)) if m == "Program not found: 00"));
}

#[test]
fn requests_carry_the_input_stream() {
    let mut plug = Sp1Plug::new(Some(local_config(1)));
    let hash = plug.finish_setup(b"prog", Ok(compile(b"prog")), 1).unwrap();
    let prove = plug.prove_request(&hash, Some(&[3, 4])).unwrap();
    assert_eq!(prove.stdin, vec![vec![3, 4]]);
    assert_eq!(prove.proving_key, compile(b"prog").0);
    assert!(plug.prove_request(&hash, None).unwrap().stdin.is_empty());
    let run = plug.execute_request(&hash, &[1], Some(&[2])).unwrap();
    assert_eq!(run.elf, b"prog".to_vec());
    assert_eq!(run.stdin, vec![vec![1], vec![2]]);
}

#[test]
fn execute_result_assembly() {
    let mut plug = Sp1Plug::new(Some(local_config(1)));
    let (output, stats) = Sp1Plug::finish_run(Ok((vec![7], 42)), 3).unwrap();
    assert_eq!(output, vec![7]);
    assert_eq!(stats.steps, 42);
    assert_eq!(stats.gas_used, Some(42));
    assert_eq!(stats.memory_usage, 0);
    assert_eq!(stats.execution_time_ms, 3);
    let envelope = prove(&mut plug, b"prog", None).unwrap();
    let result = Sp1Plug::finish_execute(output, stats, envelope);
    assert_eq!(result.output, vec![7]);
    assert_eq!(result.stats.steps, 42);
    assert_eq!(result.proof.metadata.backend_id, "local");
    let failed = Sp1Plug::finish_run(Err("trap".to_string()), 3);
    assert!(matches!(failed, Err(Sp1PlugError::Execution(ref m)) if m == "trap"));
}

#[test]
fn network_mode_uses_default_endpoint() {
    let config = Sp1PlugConfig {
        use_network: true,
        network_api_key: Some("SECRET-REDACTED".to_string()),
        network_endpoint: None,
        max_concurrent: Some(4),
    };
    let mut plug = Sp1Plug::new(Some(config));
    assert_eq!(plug.backend_id(), "remote");
    assert_eq!(DEFAULT_NETWORK_ENDPOINT, "https://api.sp1.giza.io");
    let envelope = prove(&mut plug, b"prog", None).unwrap();
    assert_eq!(envelope.metadata.backend_id, "remote");
}

#[test]
fn default_config_is_local() {
    let config = Sp1PlugConfig::default();
    assert!(!config.use_network);
    assert!(config.max_concurrent.unwrap() >= 1);
    let plug = Sp1Plug::new(None);
    assert_eq!(plug.backend_id(), "local");
    assert!(plug.config().max_concurrent.unwrap() >= 1);
    assert_eq!(plug.id(), "sp1");
}

#[test]
fn gate_bounds_proving_calls() {
    let mut plug = Sp1Plug::new(Some(local_config(2)));
    assert!(plug.acquire_permit());
    assert!(plug.acquire_permit());
    assert!(!plug.acquire_permit());
    let usage = plug.get_resource_usage();
    assert_eq!(usage.active_tasks, 2);
    assert_eq!(usage.queue_depth, 1);
    assert!(plug.release_permit());
    assert!(plug.wake_waiter());
    assert_eq!(plug.get_resource_usage().queue_depth, 0);
    assert!(!plug.acquire_permit());
    plug.cancel_wait();
    assert_eq!(plug.get_resource_usage().queue_depth, 0);
    assert_eq!(plug.get_resource_usage().active_tasks, 2);
}

#[test]
fn backend_info_and_shutdown() {
    let mut plug = Sp1Plug::new(Some(local_config(1)));
    let info = plug.get_backend_info("0.1.0".to_string());
    assert_eq!(info.id, "sp1");
    assert_eq!(info.name, "SP1 zkVM");
    assert_eq!(info.version, "0.1.0");
    assert!(matches!(info.health, HealthStatus::Healthy));
    assert_eq!(info.capabilities.len(), 6);
    assert_eq!(info.resource_usage.available_memory, 8 * 1024 * 1024 * 1024);
    assert_eq!(info.resource_usage.cpu_usage_percent, 0);
    assert!(info.custom_info.is_empty());
    assert!(matches!(info.capabilities[0], ZkCapability::VirtualMachine));
    assert!(matches!(&info.capabilities[4], ZkCapability::Custom(n) if n == "plonk_bn254"));
    assert!(matches!(&info.capabilities[5], ZkCapability::Custom(n) if n == "groth16_bn254"));
    assert!(matches!(plug.health_check(), HealthStatus::Healthy));
    prove(&mut plug, b"prog", None).unwrap();
    assert!(plug.initialize().is_ok());
    assert_eq!(plug.program_count(), 1);
    assert!(plug.shutdown().is_ok());
    assert_eq!(plug.program_count(), 0);
}

#[test]
fn error_conversions_keep_the_text() {
    let e: Sp1PlugError = ZkError::Config("dup".to_string()).into();
    assert!(matches!(e, Sp1PlugError::Proof(ref m) if m == "dup"));
    let z: ZkError = Sp1PlugError::NotFound("gone".to_string()).into();
    assert!(matches!(z, ZkError::NotFound(ref m) if m == "gone"));
    assert_eq!(z.message(), "gone");
    let z: ZkError = Sp1PlugError::Verify("bad".to_string()).into();
    assert!(matches!(z, ZkError::Verification(ref m) if m == "bad"));
    let z: ZkError = Sp1PlugError::KeyGen("k".to_string()).into();
    assert!(matches!(z, ZkError::Compile(ref m) if m == "k"));
    let z: ZkError = Sp1PlugError::Input("i".to_string()).into();
    assert!(matches!(z, ZkError::InvalidInput(ref m) if m == "i"));
    let e: Sp1PlugError = ZkError::Verification("v".to_string()).into();
    assert!(matches!(e, Sp1PlugError::Proof(ref m) if m == "v"));
}

#[test]
fn prover_error_wraps_its_sources() {
    let e: ProverError = ZkError::NotFound("x".to_string()).into();
    assert!(matches!(e, ProverError::ZKError(ZkError::NotFound(ref m)) if m == "x"));
    let io = std::io::Error::new(std::io::ErrorKind::Other, "disk");
    let e: ProverError = io.into();
    assert!(matches!(e, ProverError::IOError(ref i) if i.kind() == std::io::ErrorKind::Other));
}

#[test]
fn config_is_kept() {
    let plug = Sp1Plug::new(Some(local_config(3)));
    assert_eq!(plug.config().max_concurrent, Some(3));
    assert!(!plug.config().use_network);
}
