use vstd::prelude::*;
use crate::circuit::{
    build, build_ok, circuit_rows, selected_publics, CircuitConfig, CircuitInstance,
    CompiledProgram, FunctionDecl, PublicInputSelector,
};
use crate::engine::{
    proof_bytes_spec, proof_view, prove, satisfies, verify, Proof, VerifyOutcome,
};
use crate::error::PipelineError;
use crate::hexenc::hex_of;
use crate::instances::{extract, extract_ok, InstanceVector};
use crate::keys::{pk_spec, vk_spec, ProofSession};
use crate::params::{min_k_spec, UniversalParameters};
use crate::persist::{persist_plan, ProofArtifact};
use crate::witness::{Invocation, WitnessTrace};

verus! {

/// Which prover one proof request runs: the production prover, whose
/// self-checked proof is persisted, or the diagnostic mock prover, which
/// only checks constraint satisfaction, produces no proof and never
/// writes an artifact. The two paths are mutually exclusive and chosen by
/// explicit configuration.
#[derive(Clone, Copy, Debug, PartialEq, Eq, Structural)]
pub enum ProvingMode {
    Production,
    Mock,
}

/// What one successful proof request yields: in production mode the
/// self-verified proof and the planned artifact write; in mock mode
/// neither.
#[derive(Clone, Debug)]
pub struct PipelineOutput {
    pub proof: Option<Proof>,
    pub artifact: Option<ProofArtifact>,
}

/// The constraint-system size of the circuit the pipeline builds.
pub open spec fn pipeline_rows(trace: WitnessTrace, config: CircuitConfig) -> int {
    circuit_rows(trace.invocations@, config)
}

/// The inputs on which the pipeline succeeds: the trace has an entry, the
/// circuit builds, the loaded parameters are at least the minimal size,
/// the circuit shape is well formed, and the selector fits the entry.
pub open spec fn pipeline_ok(
    program: CompiledProgram,
    trace: WitnessTrace,
    selector: PublicInputSelector,
    config: CircuitConfig,
    params: UniversalParameters,
) -> bool {
    &&& trace.has_entry()
    &&& build_ok(program.functions@, trace.invocations@, config)
    &&& min_k_spec(pipeline_rows(trace, config) as nat) <= params.k
    &&& pipeline_rows(trace, config) > 0
    &&& extract_ok(trace.entry_spec().args@, selector.indices@)
}

/// The content of the proof a successful production run yields: produced
/// at the minimal parameter size over the loaded setup, for the built
/// circuit's shape, bound to the selected public values.
pub open spec fn pipeline_proof_view(
    trace: WitnessTrace,
    selector: PublicInputSelector,
    config: CircuitConfig,
    params: UniversalParameters,
) -> (u32, u64, u64, Seq<u64>) {
    (
        min_k_spec(pipeline_rows(trace, config) as nat) as u32,
        pipeline_rows(trace, config) as u64,
        params.setup_id,
        selected_publics(trace.entry_spec(), selector.indices@),
    )
}

/// Runs one proof request end to end: entry lookup, circuit construction,
/// parameter-size negotiation, key setup, instance extraction, proof
/// production, the pipeline's own verification of the fresh proof, and
/// artifact planning. Stages run strictly in this order and the first
/// failure aborts the rest, so no artifact is ever planned for a request
/// that did not pass every earlier stage — in particular, a proof reaches
/// persistence only after the same run has confirmed it verifies.
pub fn run_pipeline(
    program: &CompiledProgram,
    trace: &WitnessTrace,
    selector: &PublicInputSelector,
    config: &CircuitConfig,
    params: &UniversalParameters,
    mode: ProvingMode,
    witness_stem: &str,
    output_dir: &str,
) -> (r: Result<PipelineOutput, PipelineError>)
    ensures
        r is Ok <==> pipeline_ok(*program, *trace, *selector, *config, *params),
        !trace.has_entry() ==> r === Err(PipelineError::MissingEntry),
        trace.has_entry() && !build_ok(program.functions@, trace.invocations@, *config) ==> r
            === Err(PipelineError::CircuitBuildError),
        trace.has_entry() && build_ok(program.functions@, trace.invocations@, *config)
            && min_k_spec(pipeline_rows(*trace, *config) as nat) > params.k ==> r === Err(
            PipelineError::ParameterTooSmall,
        ),
        trace.has_entry() && build_ok(program.functions@, trace.invocations@, *config)
            && min_k_spec(pipeline_rows(*trace, *config) as nat) <= params.k && pipeline_rows(
            *trace,
            *config,
        ) == 0 ==> r === Err(PipelineError::SetupError),
        trace.has_entry() && build_ok(program.functions@, trace.invocations@, *config)
            && min_k_spec(pipeline_rows(*trace, *config) as nat) <= params.k && pipeline_rows(
            *trace,
            *config,
        ) > 0 && !extract_ok(trace.entry_spec().args@, selector.indices@) ==> r === Err(
            PipelineError::IndexOutOfRange,
        ),
        mode == ProvingMode::Production ==> (r matches Ok(out) ==> (out.proof matches Some(p)
            && proof_view(p) == pipeline_proof_view(*trace, *selector, *config, *params)
            && (out.artifact matches Some(a) && a.path@ == output_dir@ + "/"@ + witness_stem@
            + ".proof.hex"@ && a.contents@ == hex_of(
            proof_bytes_spec(pipeline_proof_view(*trace, *selector, *config, *params)),
        )))),
        mode == ProvingMode::Mock ==> (r matches Ok(out) ==> out.proof is None && out.artifact
            is None),
{
    let entry = match trace.entry() {
        Ok(e) => e,
        Err(e) => {
            return Err(e);
        },
    };
    let circuit = match build(program, trace, selector, config) {
        Ok(c) => c,
        Err(e) => {
            return Err(e);
        },
    };
    let session = match ProofSession::new(circuit, params) {
        Ok(s) => s,
        Err(e) => {
            return Err(e);
        },
    };
    let instances = match extract(entry, selector) {
        Ok(v) => v,
        Err(e) => {
            return Err(e);
        },
    };
    proof {
        assert(satisfies(session.circuit, instances));
    }
    match mode {
        ProvingMode::Mock => {
            // The mock prover checks constraint satisfaction directly and
            // produces no proof; nothing may reach persistence from here.
            Ok(PipelineOutput { proof: None, artifact: None })
        },
        ProvingMode::Production => {
            let proof_val = match prove(&session.circuit, &instances, &session.params, &session.pk) {
                Ok(p) => p,
                Err(e) => {
                    proof {
                        assert(false);
                    }
                    return Err(e);
                },
            };
            let outcome = verify(&instances, &session.params, &session.vk, &proof_val);
            match outcome {
                VerifyOutcome::Verified => {},
                VerifyOutcome::VerificationFailed => {
                    proof {
                        assert(false);
                    }
                    return Err(PipelineError::ProofVerificationFailed);
                },
            }
            let artifact = persist_plan(&proof_val, witness_stem, output_dir);
            Ok(PipelineOutput { proof: Some(proof_val), artifact: Some(artifact) })
        },
    }
}

/// One prove request as the command surface hands it over: the witness
/// identity (its file stem), the argument positions designated public, an
/// optional artifact-directory override, and whether the diagnostic mock
/// prover runs instead of the production prover.
#[derive(Clone, Debug)]
pub struct ProveCommand {
    pub witness_stem: String,
    pub pubs_indices: Vec<usize>,
    pub proof_output_dir: Option<String>,
    pub debug: bool,
}

impl ProveCommand {
    /// The selector this request designates.
    pub open spec fn selector_spec(self) -> PublicInputSelector {
        PublicInputSelector { indices: self.pubs_indices }
    }

    /// The directory this request persists into: its explicit override,
    /// else the fixed `proofs` subdirectory under the package root.
    pub open spec fn output_dir_spec(self, package_root: Seq<char>) -> Seq<char> {
        match self.proof_output_dir {
            Some(d) => d@,
            None => package_root + "/proofs"@,
        }
    }

    /// The proving mode this request selects.
    pub open spec fn mode_spec(self) -> ProvingMode {
        if self.debug {
            ProvingMode::Mock
        } else {
            ProvingMode::Production
        }
    }

    /// Runs the full sequence of setup, proving and verification for this
    /// request, against a loaded program, trace and parameter set rooted
    /// at `package_root`.
    pub fn run(
        &self,
        program: &CompiledProgram,
        trace: &WitnessTrace,
        config: &CircuitConfig,
        params: &UniversalParameters,
        package_root: &str,
    ) -> (r: Result<PipelineOutput, PipelineError>)
        ensures
            r is Ok <==> pipeline_ok(*program, *trace, self.selector_spec(), *config, *params),
            !self.debug ==> (r matches Ok(out) ==> (out.proof matches Some(p) && proof_view(p)
                == pipeline_proof_view(*trace, self.selector_spec(), *config, *params)
                && (out.artifact matches Some(a) && a.path@ == self.output_dir_spec(package_root@)
                + "/"@ + self.witness_stem@ + ".proof.hex"@ && a.contents@ == hex_of(
                proof_bytes_spec(
                    pipeline_proof_view(*trace, self.selector_spec(), *config, *params),
                ),
            )))),
            self.debug ==> (r matches Ok(out) ==> out.proof is None && out.artifact is None),
            !trace.has_entry() ==> r === Err(PipelineError::MissingEntry),
    {
        let selector = PublicInputSelector { indices: self.pubs_indices.clone() };
        proof {
            assert(selector.indices@ =~= self.pubs_indices@);
        }
        let output_dir = crate::persist::resolve_output_dir(&self.proof_output_dir, package_root);
        let mode = if self.debug {
            ProvingMode::Mock
        } else {
            ProvingMode::Production
        };
        run_pipeline(
            program,
            trace,
            &selector,
            config,
            params,
            mode,
            self.witness_stem.as_str(),
            output_dir.as_str(),
        )
    }
}

/// Determinism of circuit construction: two builds from identical inputs
/// yield circuits with the same constraint-system size and the same
/// public values, and therefore the same minimal parameter size and the
/// same key-setup outputs under any fixed parameter set.
pub proof fn lemma_build_deterministic(
    prog: Seq<FunctionDecl>,
    trace: Seq<Invocation>,
    entry: Invocation,
    sel: Seq<usize>,
    config: CircuitConfig,
    c1: CircuitInstance,
    c2: CircuitInstance,
    p: UniversalParameters,
)
    requires
        c1.rows == circuit_rows(trace, config),
        c1.publics@ == selected_publics(entry, sel),
        c2.rows == circuit_rows(trace, config),
        c2.publics@ == selected_publics(entry, sel),
    ensures
        c1.rows == c2.rows,
        c1.publics@ == c2.publics@,
        min_k_spec(c1.rows as nat) == min_k_spec(c2.rows as nat),
        vk_spec(c1, p) == vk_spec(c2, p),
        pk_spec(c1, p) == pk_spec(c2, p),
{
}

} // verus!
