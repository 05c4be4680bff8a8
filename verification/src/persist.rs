use vstd::prelude::*;
use vstd::string::StringExecFns;
use crate::engine::{proof_bytes_spec, proof_view, proof_to_bytes, Proof};
use crate::hexenc::{encode_hex, hex_of};

verus! {

/// The persisted record of a successful proof request: the destination
/// path derived from the witness identity, and the hex-encoded proof
/// bytes written there. An existing file at the path is overwritten, never
/// versioned.
#[derive(Clone, Debug)]
pub struct ProofArtifact {
    pub path: String,
    pub contents: String,
}

/// The destination directory for proof artifacts: the caller's explicit
/// override when given, else the fixed `proofs` subdirectory under the
/// resolved package root.
pub fn resolve_output_dir(explicit: &Option<String>, package_root: &str) -> (r: String)
    ensures
        match explicit {
            Some(d) => r@ == d@,
            None => r@ == package_root@ + "/proofs"@,
        },
{
    match explicit {
        Some(d) => d.clone(),
        None => {
            let mut s = package_root.to_owned();
            s.append("/proofs");
            s
        },
    }
}

/// The build-output directory of a compiled package: the `build`
/// subdirectory of the package root, keyed by package name.
pub fn build_output_path(package_root: &str, package_name: &str) -> (r: String)
    ensures
        r@ == package_root@ + "/build/"@ + package_name@,
{
    let mut s = package_root.to_owned();
    s.append("/build/");
    s.append(package_name);
    s
}

/// Computes where and as what a proof is persisted: the destination path
/// `<output-dir>/<witness-stem>.proof.hex` and the hex-encoded proof
/// bytes. A pure function of the proof and the witness identity, so a
/// rerun plans the identical write.
pub fn persist_plan(proof: &Proof, witness_stem: &str, output_dir: &str) -> (r: ProofArtifact)
    ensures
        r.path@ == output_dir@ + "/"@ + witness_stem@ + ".proof.hex"@,
        r.contents@ == hex_of(proof_bytes_spec(proof_view(*proof))),
{
    let bytes = proof_to_bytes(proof);
    let contents = encode_hex(&bytes);
    let mut path = output_dir.to_owned();
    path.append("/");
    path.append(witness_stem);
    path.append(".proof.hex");
    ProofArtifact { path, contents }
}

/// Persistence idempotence: two persistence plans for the same proof and
/// the same witness identity name the same path and carry identical
/// contents — a rerun overwrites, it never duplicates.
pub proof fn lemma_persist_idempotent(
    a1: ProofArtifact,
    a2: ProofArtifact,
    pf: (u32, u64, u64, Seq<u64>),
    witness_stem: Seq<char>,
    output_dir: Seq<char>,
)
    requires
        a1.path@ == output_dir + "/"@ + witness_stem + ".proof.hex"@,
        a1.contents@ == hex_of(proof_bytes_spec(pf)),
        a2.path@ == output_dir + "/"@ + witness_stem + ".proof.hex"@,
        a2.contents@ == hex_of(proof_bytes_spec(pf)),
    ensures
        a1.path@ == a2.path@,
        a1.contents@ == a2.contents@,
{
}

} // verus!
