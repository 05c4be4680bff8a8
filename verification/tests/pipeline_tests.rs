use zkmove_cli::circuit::{
    build, CircuitConfig, CircuitInstance, CompiledProgram, FunctionDecl, PublicInputSelector,
};
use zkmove_cli::commands::{BuildVerifyProofTxn, KZGVariant, UtilCommand, UtilCommands};
use zkmove_cli::engine::{proof_to_bytes, prove, verify, Proof, VerifyOutcome};
use zkmove_cli::error::PipelineError;
use zkmove_cli::hexenc::HexEncodedBytes;
use zkmove_cli::instances::{extract, InstanceVector, NUM_INSTANCE_COLUMNS};
use zkmove_cli::module_id::ModuleIdWrapper;
use zkmove_cli::keys::{setup, ProofSession};
use zkmove_cli::params::{minimal_k, UniversalParameters};
use zkmove_cli::persist::{build_output_path, persist_plan, resolve_output_dir};
use zkmove_cli::pipeline::{run_pipeline, ProveCommand, ProvingMode};
use zkmove_cli::witness::{Invocation, WitnessTrace};

fn sample_program() -> CompiledProgram {
    CompiledProgram { functions: vec![FunctionDecl { id: 7, arg_count: 3 }] }
}

fn sample_trace() -> WitnessTrace {
    WitnessTrace { invocations: vec![Invocation { function: 7, args: vec![3, 4, 5] }] }
}

// Chosen so the sample trace needs exactly k = 10: 600 + 8 * (1 + 3) = 632
// rows, and 512 < 632 <= 1024.
fn sample_config() -> CircuitConfig {
    CircuitConfig { base_rows: 600, rows_per_step: 8 }
}

fn sample_params() -> UniversalParameters {
    UniversalParameters { k: 12, setup_id: 42 }
}

fn selector(indices: Vec<usize>) -> PublicInputSelector {
    PublicInputSelector { indices }
}

fn circuit_with_rows(rows: u64) -> CircuitInstance {
    CircuitInstance { rows, publics: vec![] }
}

#[test]
fn end_to_end_scenario() {
    let out = run_pipeline(
        &sample_program(),
        &sample_trace(),
        &selector(vec![0]),
        &sample_config(),
        &sample_params(),
        ProvingMode::Production,
        "trace1",
        "proofs",
    )
    .expect("pipeline should succeed");
    let proof = out.proof.expect("production mode yields a proof");
    assert_eq!(proof.k, 10);
    assert_eq!(proof.rows, 632);
    assert_eq!(proof.setup_id, 42);
    assert_eq!(proof.values, vec![3]);
    let artifact = out.artifact.expect("production mode plans an artifact");
    assert_eq!(artifact.path, "proofs/trace1.proof.hex");
    assert!(!artifact.contents.is_empty());
    assert!(artifact.contents.chars().all(|c| c.is_ascii_hexdigit()));
}

#[test]
fn mock_mode_never_persists() {
    let out = run_pipeline(
        &sample_program(),
        &sample_trace(),
        &selector(vec![0]),
        &sample_config(),
        &sample_params(),
        ProvingMode::Mock,
        "trace1",
        "proofs",
    )
    .expect("mock run should succeed");
    assert!(out.proof.is_none());
    assert!(out.artifact.is_none());
}

#[test]
fn selector_out_of_range() {
    let r = run_pipeline(
        &sample_program(),
        &sample_trace(),
        &selector(vec![7]),
        &sample_config(),
        &sample_params(),
        ProvingMode::Production,
        "trace1",
        "proofs",
    );
    assert_eq!(r.unwrap_err(), PipelineError::IndexOutOfRange);
}

#[test]
fn selector_wider_than_columns() {
    assert_eq!(NUM_INSTANCE_COLUMNS, 2);
    let r = run_pipeline(
        &sample_program(),
        &sample_trace(),
        &selector(vec![0, 1, 2]),
        &sample_config(),
        &sample_params(),
        ProvingMode::Production,
        "trace1",
        "proofs",
    );
    assert_eq!(r.unwrap_err(), PipelineError::IndexOutOfRange);
}

#[test]
fn override_below_minimal_k_reported_before_setup() {
    let narrowed = sample_params().apply_k_override(Some(8)).expect("8 <= 12");
    assert_eq!(narrowed.k, 8);
    let r = run_pipeline(
        &sample_program(),
        &sample_trace(),
        &selector(vec![0]),
        &sample_config(),
        &narrowed,
        ProvingMode::Production,
        "trace1",
        "proofs",
    );
    assert_eq!(r.unwrap_err(), PipelineError::ParameterTooSmall);
}

#[test]
fn missing_entry() {
    let empty = WitnessTrace { invocations: vec![] };
    assert_eq!(empty.entry().unwrap_err(), PipelineError::MissingEntry);
    let r = run_pipeline(
        &sample_program(),
        &empty,
        &selector(vec![0]),
        &sample_config(),
        &sample_params(),
        ProvingMode::Production,
        "trace1",
        "proofs",
    );
    assert_eq!(r.unwrap_err(), PipelineError::MissingEntry);
}

#[test]
fn unknown_function_fails_build() {
    let trace = WitnessTrace { invocations: vec![Invocation { function: 9, args: vec![1] }] };
    let r = build(&sample_program(), &trace, &selector(vec![]), &sample_config());
    assert_eq!(r.unwrap_err(), PipelineError::CircuitBuildError);
}

#[test]
fn argument_mismatch_fails_build() {
    let trace = WitnessTrace { invocations: vec![Invocation { function: 7, args: vec![1, 2] }] };
    let r = build(&sample_program(), &trace, &selector(vec![]), &sample_config());
    assert_eq!(r.unwrap_err(), PipelineError::CircuitBuildError);
}

#[test]
fn empty_shape_fails_setup() {
    let config = CircuitConfig { base_rows: 0, rows_per_step: 0 };
    let r = run_pipeline(
        &sample_program(),
        &sample_trace(),
        &selector(vec![0]),
        &config,
        &sample_params(),
        ProvingMode::Production,
        "trace1",
        "proofs",
    );
    assert_eq!(r.unwrap_err(), PipelineError::SetupError);
    let r2 = setup(&circuit_with_rows(0), &sample_params());
    assert_eq!(r2.unwrap_err(), PipelineError::SetupError);
}

#[test]
fn build_is_deterministic() {
    let c1 = build(&sample_program(), &sample_trace(), &selector(vec![0]), &sample_config())
        .expect("build succeeds");
    let c2 = build(&sample_program(), &sample_trace(), &selector(vec![0]), &sample_config())
        .expect("build succeeds");
    assert_eq!(c1.rows, c2.rows);
    assert_eq!(c1.publics, c2.publics);
    assert_eq!(minimal_k(&c1), minimal_k(&c2));
    let s1 = ProofSession::new(c1, &sample_params()).expect("setup succeeds");
    let s2 = ProofSession::new(c2, &sample_params()).expect("setup succeeds");
    assert_eq!(s1.pk, s2.pk);
    assert_eq!(s1.vk, s2.vk);
    assert_eq!(s1.params, s2.params);
}

#[test]
fn minimal_k_exact_values() {
    assert_eq!(minimal_k(&circuit_with_rows(0)), 0);
    assert_eq!(minimal_k(&circuit_with_rows(1)), 0);
    assert_eq!(minimal_k(&circuit_with_rows(2)), 1);
    assert_eq!(minimal_k(&circuit_with_rows(3)), 2);
    assert_eq!(minimal_k(&circuit_with_rows(512)), 9);
    assert_eq!(minimal_k(&circuit_with_rows(513)), 10);
    assert_eq!(minimal_k(&circuit_with_rows(1024)), 10);
    assert_eq!(minimal_k(&circuit_with_rows(1025)), 11);
    assert_eq!(minimal_k(&circuit_with_rows(u64::MAX)), 64);
}

#[test]
fn minimal_k_monotonic_samples() {
    let mut last = 0;
    for rows in [1u64, 2, 3, 100, 512, 513, 1024, 4096, 1 << 40] {
        let k = minimal_k(&circuit_with_rows(rows));
        assert!(k >= last);
        last = k;
    }
}

#[test]
fn narrow_rejects_larger_target() {
    let p = UniversalParameters { k: 10, setup_id: 1 };
    assert_eq!(p.narrow(12).unwrap_err(), PipelineError::ParameterTooSmall);
}

#[test]
fn narrow_is_idempotent() {
    let p = UniversalParameters { k: 12, setup_id: 5 };
    let once = p.narrow(10).expect("10 <= 12");
    assert_eq!(once.k, 10);
    assert_eq!(once.setup_id, 5);
    let twice = once.narrow(10).expect("10 <= 10");
    assert_eq!(twice, once);
}

#[test]
fn prove_verify_roundtrip() {
    let circuit = build(&sample_program(), &sample_trace(), &selector(vec![0, 2]), &sample_config())
        .expect("build succeeds");
    let session = ProofSession::new(circuit, &sample_params()).expect("setup succeeds");
    let entry = Invocation { function: 7, args: vec![3, 4, 5] };
    let instances = extract(&entry, &selector(vec![0, 2])).expect("extract succeeds");
    assert_eq!(instances.values, vec![3, 5]);
    let proof = prove(&session.circuit, &instances, &session.params, &session.pk)
        .expect("prove succeeds");
    let outcome = verify(&instances, &session.params, &session.vk, &proof);
    assert_eq!(outcome, VerifyOutcome::Verified);
}

#[test]
fn mutated_instance_fails_verification() {
    let circuit = build(&sample_program(), &sample_trace(), &selector(vec![0, 2]), &sample_config())
        .expect("build succeeds");
    let session = ProofSession::new(circuit, &sample_params()).expect("setup succeeds");
    let entry = Invocation { function: 7, args: vec![3, 4, 5] };
    let instances = extract(&entry, &selector(vec![0, 2])).expect("extract succeeds");
    let proof = prove(&session.circuit, &instances, &session.params, &session.pk)
        .expect("prove succeeds");
    for i in 0..instances.values.len() {
        let mut mutated = InstanceVector { values: instances.values.clone() };
        mutated.values[i] = mutated.values[i].wrapping_add(1);
        let outcome = verify(&mutated, &session.params, &session.vk, &proof);
        assert_eq!(outcome, VerifyOutcome::VerificationFailed);
    }
}

#[test]
fn mismatched_key_fails_prove() {
    let circuit = build(&sample_program(), &sample_trace(), &selector(vec![0]), &sample_config())
        .expect("build succeeds");
    let session = ProofSession::new(circuit, &sample_params()).expect("setup succeeds");
    let entry = Invocation { function: 7, args: vec![3, 4, 5] };
    let instances = extract(&entry, &selector(vec![0])).expect("extract succeeds");
    let other = UniversalParameters { k: session.params.k, setup_id: 99 };
    let r = prove(&session.circuit, &instances, &other, &session.pk);
    assert_eq!(r.unwrap_err(), PipelineError::ProofGenerationFailed);
}

#[test]
fn persist_plan_is_deterministic() {
    let proof = Proof { k: 10, rows: 632, setup_id: 42, values: vec![3] };
    let a1 = persist_plan(&proof, "trace1", "proofs");
    let a2 = persist_plan(&proof, "trace1", "proofs");
    assert_eq!(a1.path, a2.path);
    assert_eq!(a1.contents, a2.contents);
}

#[test]
fn proof_bytes_layout() {
    let proof = Proof { k: 1, rows: 2, setup_id: 3, values: vec![4] };
    let bytes = proof_to_bytes(&proof);
    let mut expected = vec![];
    expected.extend_from_slice(&1u64.to_le_bytes());
    expected.extend_from_slice(&2u64.to_le_bytes());
    expected.extend_from_slice(&3u64.to_le_bytes());
    expected.extend_from_slice(&1u64.to_le_bytes());
    expected.extend_from_slice(&4u64.to_le_bytes());
    assert_eq!(bytes, expected);
    let artifact = persist_plan(&proof, "w", "out");
    assert_eq!(artifact.path, "out/w.proof.hex");
    assert_eq!(
        artifact.contents,
        "0100000000000000020000000000000003000000000000000100000000000000\
         0400000000000000"
    );
}

#[test]
fn hex_encoded_bytes_rendering() {
    assert_eq!(HexEncodedBytes(vec![0xde, 0xad, 0xbe, 0xef]).to_string(), "0xdeadbeef");
    assert_eq!(HexEncodedBytes(vec![]).to_string(), "0x");
    assert_eq!(HexEncodedBytes(vec![0x00, 0x0f, 0xa0]).to_string(), "0x000fa0");
}

#[test]
fn view_param_info_renders_hex() {
    let cmd = UtilCommand { command: UtilCommands::ViewParamInfo };
    let info = cmd.run(12, &vec![0x01, 0x02], &vec![0xff], &vec![0x10, 0x00]);
    assert_eq!(info.k, 12);
    assert_eq!(info.g_hex, "0102");
    assert_eq!(info.g2_hex, "ff");
    assert_eq!(info.s_g2_hex, "1000");
}

#[test]
fn output_dir_resolution() {
    assert_eq!(resolve_output_dir(&None, "/pkg"), "/pkg/proofs");
    assert_eq!(resolve_output_dir(&Some("elsewhere".to_string()), "/pkg"), "elsewhere");
    assert_eq!(build_output_path("/pkg", "demo"), "/pkg/build/demo");
}

#[test]
fn selector_validation() {
    let sel = PublicInputSelector { indices: vec![0, 2] };
    assert!(sel.validate(3));
    assert!(!sel.validate(2));
    let dup = PublicInputSelector { indices: vec![1, 1] };
    assert!(!dup.validate(3));
}

#[test]
fn fatal_errors_are_flagged() {
    assert!(PipelineError::SetupError.is_fatal());
    assert!(PipelineError::ProofGenerationFailed.is_fatal());
    assert!(PipelineError::ProofVerificationFailed.is_fatal());
    assert!(!PipelineError::MissingEntry.is_fatal());
    assert!(!PipelineError::ParameterTooSmall.is_fatal());
    assert!(!PipelineError::IOError.is_fatal());
}

#[test]
fn verify_proof_txn_succeeds_without_effect() {
    let cmd = BuildVerifyProofTxn {
        proof_path: "p.hex".to_string(),
        output_dir: None,
        param_address: "0x1".to_string(),
        circuit_address: "0x2".to_string(),
        variant: KZGVariant::GWC,
    };
    assert!(cmd.run("0x3", "verifier_api", "verify_proof").is_ok());
}

#[test]
fn module_id_parsing() {
    let m = ModuleIdWrapper::from_str("0x1::counter").expect("well-formed module id");
    assert_eq!(m.address, vec![0x01]);
    assert_eq!(m.name, b"counter".to_vec());
    let m = ModuleIdWrapper::from_str("0x123::m").expect("odd-length address");
    assert_eq!(m.address, vec![0x01, 0x23]);
    assert_eq!(m.name, b"m".to_vec());
    let m = ModuleIdWrapper::from_str("0000a1::_tab1").expect("bare hex address");
    assert_eq!(m.address, vec![0x00, 0x00, 0xa1]);
    assert_eq!(m.name, b"_tab1".to_vec());
}

#[test]
fn module_id_rejects_malformed() {
    for bad in [
        "abc",            // no separator
        "a::b::c",        // more than one separator
        "::name",         // empty address
        "0x1::",          // empty name
        "xyz::m",         // address is not hexadecimal
        "0x1::9bad",      // name starts with a digit
        "0x1::b-d",       // name holds a stray character
    ] {
        assert_eq!(ModuleIdWrapper::from_str(bad).unwrap_err(), PipelineError::ParseError);
    }
}

#[test]
fn prove_command_end_to_end() {
    let request = ProveCommand {
        witness_stem: "trace1".to_string(),
        pubs_indices: vec![0],
        proof_output_dir: None,
        debug: false,
    };
    let out = request
        .run(&sample_program(), &sample_trace(), &sample_config(), &sample_params(), "/pkg")
        .expect("request should succeed");
    let artifact = out.artifact.expect("production request plans an artifact");
    assert_eq!(artifact.path, "/pkg/proofs/trace1.proof.hex");
    let debug_request = ProveCommand { debug: true, ..request };
    let out = debug_request
        .run(&sample_program(), &sample_trace(), &sample_config(), &sample_params(), "/pkg")
        .expect("mock request should succeed");
    assert!(out.artifact.is_none());
}
