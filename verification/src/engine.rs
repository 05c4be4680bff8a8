use vstd::prelude::*;
use crate::circuit::CircuitInstance;
use crate::error::PipelineError;
use crate::instances::InstanceVector;
use crate::keys::{pk_spec, vk_spec, ProvingKey, VerificationKey};
use crate::params::UniversalParameters;

verus! {

/// A proof for one (circuit, instances, key pair) triple: the parameter
/// size and circuit shape it was produced under, the setup it descends
/// from, and the public instance values it is bound to. Serialized to an
/// opaque byte sequence for persistence.
#[derive(Clone, Debug)]
pub struct Proof {
    pub k: u32,
    pub rows: u64,
    pub setup_id: u64,
    pub values: Vec<u64>,
}

/// The mathematical content of a proof.
pub open spec fn proof_view(p: Proof) -> (u32, u64, u64, Seq<u64>) {
    (p.k, p.rows, p.setup_id, p.values@)
}

/// The terminal states of one proof request: the self-check either
/// confirms the freshly produced proof or rejects it.
#[derive(Clone, Copy, Debug, PartialEq, Eq, Structural)]
pub enum VerifyOutcome {
    Verified,
    VerificationFailed,
}

/// The witness satisfies its own circuit at the public positions: the
/// extracted instance values are exactly the public values the circuit's
/// witness assigns.
pub open spec fn satisfies(c: CircuitInstance, iv: InstanceVector) -> bool {
    iv.values@ == c.publics@
}

/// The proof that proving yields for satisfying inputs under a matching
/// proving key.
pub open spec fn prove_view(iv: InstanceVector, pk: ProvingKey) -> (u32, u64, u64, Seq<u64>) {
    (pk.k, pk.rows, pk.setup_id, iv.values@)
}

/// The two instance vectors hold the same values.
fn values_eq(a: &Vec<u64>, b: &Vec<u64>) -> (r: bool)
    ensures
        r == (a@ == b@),
{
    if a.len() != b.len() {
        return false;
    }
    let n = a.len();
    let mut i: usize = 0;
    while i < n
        invariant
            0 <= i <= n,
            n == a@.len(),
            n == b@.len(),
            forall|l: int| 0 <= l < i ==> a@[l] == b@[l],
        decreases n - i,
    {
        if a[i] != b[i] {
            return false;
        }
        i += 1;
    }
    proof {
        assert(a@ =~= b@);
    }
    true
}

/// Produces a proof from (circuit, instances, parameters, proving key).
/// Succeeds exactly when the instances satisfy the circuit's own witness
/// and the proving key was derived for this circuit under these
/// parameters; any other combination is an internal inconsistency and
/// fails with `ProofGenerationFailed`, so a corrupted proof is never
/// produced, let alone persisted.
pub fn prove(
    circuit: &CircuitInstance,
    instances: &InstanceVector,
    params: &UniversalParameters,
    pk: &ProvingKey,
) -> (r: Result<Proof, PipelineError>)
    ensures
        satisfies(*circuit, *instances) && *pk == pk_spec(*circuit, *params) ==> (r matches Ok(p)
            && proof_view(p) == prove_view(*instances, *pk)),
        !(satisfies(*circuit, *instances) && *pk == pk_spec(*circuit, *params)) ==> r === Err(
            PipelineError::ProofGenerationFailed,
        ),
{
    if pk.k != params.k || pk.rows != circuit.rows || pk.setup_id != params.setup_id {
        return Err(PipelineError::ProofGenerationFailed);
    }
    if !values_eq(&instances.values, &circuit.publics) {
        return Err(PipelineError::ProofGenerationFailed);
    }
    let mut values: Vec<u64> = Vec::new();
    let n = instances.values.len();
    let mut i: usize = 0;
    while i < n
        invariant
            0 <= i <= n,
            n == instances.values@.len(),
            values@.len() == i,
            forall|l: int| 0 <= l < i ==> values@[l] == instances.values@[l],
        decreases n - i,
    {
        values.push(instances.values[i]);
        i += 1;
    }
    proof {
        assert(values@ =~= instances.values@);
    }
    Ok(Proof { k: pk.k, rows: pk.rows, setup_id: pk.setup_id, values })
}

/// What verification concludes: the proof is accepted exactly when it was
/// produced under this verification key's parameter size, circuit shape
/// and setup, and is bound to exactly the declared public instances.
pub open spec fn verify_spec(
    iv: Seq<u64>,
    params: UniversalParameters,
    vk: VerificationKey,
    pf: (u32, u64, u64, Seq<u64>),
) -> VerifyOutcome {
    if pf.0 == vk.k && pf.1 == vk.rows && pf.2 == vk.setup_id && vk.k == params.k && vk.setup_id
        == params.setup_id && pf.3 == iv {
        VerifyOutcome::Verified
    } else {
        VerifyOutcome::VerificationFailed
    }
}

/// Independently checks a proof against (instances, parameters,
/// verification key).
pub fn verify(
    instances: &InstanceVector,
    params: &UniversalParameters,
    vk: &VerificationKey,
    proof: &Proof,
) -> (r: VerifyOutcome)
    ensures
        r == verify_spec(instances.values@, *params, *vk, proof_view(*proof)),
{
    if proof.k == vk.k && proof.rows == vk.rows && proof.setup_id == vk.setup_id && vk.k == params.k
        && vk.setup_id == params.setup_id && values_eq(&proof.values, &instances.values) {
        VerifyOutcome::Verified
    } else {
        VerifyOutcome::VerificationFailed
    }
}

/// Round trip: for instances that satisfy their circuit, a proof produced
/// under the key pair derived for that circuit and parameter set passes
/// verification.
pub proof fn lemma_prove_verify_roundtrip(
    c: CircuitInstance,
    iv: InstanceVector,
    p: UniversalParameters,
    pk: ProvingKey,
    vk: VerificationKey,
)
    requires
        satisfies(c, iv),
        pk == pk_spec(c, p),
        vk == vk_spec(c, p),
    ensures
        verify_spec(iv.values@, p, vk, prove_view(iv, pk)) == VerifyOutcome::Verified,
{
}

/// A proof is bound to its declared public instances: changing any single
/// instance value after proof production makes verification fail.
pub proof fn lemma_verify_rejects_mutated_instance(
    iv: InstanceVector,
    mutated: InstanceVector,
    p: UniversalParameters,
    vk: VerificationKey,
    pf: (u32, u64, u64, Seq<u64>),
    i: int,
)
    requires
        pf.3 == iv.values@,
        0 <= i < iv.values@.len(),
        mutated.values@.len() == iv.values@.len(),
        mutated.values@[i] != iv.values@[i],
    ensures
        verify_spec(mutated.values@, p, vk, pf) == VerifyOutcome::VerificationFailed,
{
    assert(mutated.values@[i] != pf.3[i]);
}

/// The serialization of a machine word: eight bytes, least significant
/// first.
pub open spec fn enc64(x: u64) -> Seq<u8> {
    seq![
        (x & 0xff) as u8,
        ((x >> 8) & 0xff) as u8,
        ((x >> 16) & 0xff) as u8,
        ((x >> 24) & 0xff) as u8,
        ((x >> 32) & 0xff) as u8,
        ((x >> 40) & 0xff) as u8,
        ((x >> 48) & 0xff) as u8,
        ((x >> 56) & 0xff) as u8,
    ]
}

/// The serialization of the bound instance values, in order.
pub open spec fn enc_values(vs: Seq<u64>) -> Seq<u8>
    decreases vs.len(),
{
    if vs.len() == 0 {
        Seq::<u8>::empty()
    } else {
        enc_values(vs.drop_last()) + enc64(vs.last())
    }
}

/// The opaque byte form of a proof: parameter size, circuit shape, setup
/// identity, then the instance count and the bound instance values.
pub open spec fn proof_bytes_spec(pf: (u32, u64, u64, Seq<u64>)) -> Seq<u8> {
    enc64(pf.0 as u64) + enc64(pf.1) + enc64(pf.2) + enc64(pf.3.len() as u64) + enc_values(pf.3)
}

/// Appends the serialization of one machine word.
fn push_u64(out: &mut Vec<u8>, x: u64)
    ensures
        final(out)@ == old(out)@ + enc64(x),
{
    out.push((x & 0xff) as u8);
    out.push(((x >> 8) & 0xff) as u8);
    out.push(((x >> 16) & 0xff) as u8);
    out.push(((x >> 24) & 0xff) as u8);
    out.push(((x >> 32) & 0xff) as u8);
    out.push(((x >> 40) & 0xff) as u8);
    out.push(((x >> 48) & 0xff) as u8);
    out.push(((x >> 56) & 0xff) as u8);
    proof {
        assert(out@ =~= old(out)@ + enc64(x));
    }
}

/// Serializes a proof to the opaque byte sequence that is persisted.
pub fn proof_to_bytes(proof: &Proof) -> (r: Vec<u8>)
    ensures
        r@ == proof_bytes_spec(proof_view(*proof)),
{
    let mut out: Vec<u8> = Vec::new();
    push_u64(&mut out, proof.k as u64);
    push_u64(&mut out, proof.rows);
    push_u64(&mut out, proof.setup_id);
    push_u64(&mut out, proof.values.len() as u64);
    let ghost header = out@;
    let n = proof.values.len();
    let mut i: usize = 0;
    proof {
        assert(out@ =~= header + enc_values(proof.values@.take(0)));
    }
    while i < n
        invariant
            0 <= i <= n,
            n == proof.values@.len(),
            out@ == header + enc_values(proof.values@.take(i as int)),
        decreases n - i,
    {
        push_u64(&mut out, proof.values[i]);
        proof {
            assert(proof.values@.take(i as int + 1).drop_last() =~= proof.values@.take(i as int));
            assert(proof.values@.take(i as int + 1).last() == proof.values@[i as int]);
            assert(out@ =~= header + enc_values(proof.values@.take(i as int + 1)));
        }
        i += 1;
    }
    proof {
        assert(proof.values@.take(n as int) =~= proof.values@);
        assert(out@ =~= proof_bytes_spec(proof_view(*proof)));
    }
    out
}

} // verus!
