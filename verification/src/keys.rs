use vstd::prelude::*;
use vstd::arithmetic::power2::pow2;
use crate::circuit::CircuitInstance;
use crate::error::PipelineError;
use crate::params::{min_k_spec, lemma_min_k_minimal, UniversalParameters};

verus! {

/// The proving half of a key pair, bound to the exact parameter size and
/// circuit shape it was derived from.
#[derive(Clone, Copy, Debug, PartialEq, Eq, Structural)]
pub struct ProvingKey {
    pub k: u32,
    pub rows: u64,
    pub setup_id: u64,
}

/// The verifying half of a key pair, bound to the exact parameter size and
/// circuit shape it was derived from.
#[derive(Clone, Copy, Debug, PartialEq, Eq, Structural)]
pub struct VerificationKey {
    pub k: u32,
    pub rows: u64,
    pub setup_id: u64,
}

/// The proving key that key setup derives for a circuit shape under a
/// fixed parameter set.
pub open spec fn pk_spec(c: CircuitInstance, p: UniversalParameters) -> ProvingKey {
    ProvingKey { k: p.k, rows: c.rows, setup_id: p.setup_id }
}

/// The verification key that key setup derives for a circuit shape under a
/// fixed parameter set.
pub open spec fn vk_spec(c: CircuitInstance, p: UniversalParameters) -> VerificationKey {
    VerificationKey { k: p.k, rows: c.rows, setup_id: p.setup_id }
}

/// Derives the verification and proving keys for a circuit shape under a
/// fixed parameter set. Deterministic: the keys are a pure function of the
/// circuit shape and the parameters. Fails with `SetupError` only on a
/// malformed circuit shape (an empty constraint system); the caller must
/// have negotiated a parameter size that accommodates the circuit.
pub fn setup(circuit: &CircuitInstance, params: &UniversalParameters) -> (r: Result<
    (VerificationKey, ProvingKey),
    PipelineError,
>)
    requires
        pow2(params.k as nat) >= circuit.rows as nat,
    ensures
        circuit.rows > 0 ==> (r matches Ok(keys) && keys.0 == vk_spec(*circuit, *params)
            && keys.1 == pk_spec(*circuit, *params)),
        circuit.rows == 0 ==> r === Err(PipelineError::SetupError),
{
    if circuit.rows == 0 {
        return Err(PipelineError::SetupError);
    }
    Ok(
        (
            VerificationKey { k: params.k, rows: circuit.rows, setup_id: params.setup_id },
            ProvingKey { k: params.k, rows: circuit.rows, setup_id: params.setup_id },
        ),
    )
}

/// One proof request's cryptographic state: the narrowed parameters, the
/// circuit, and the key pair derived from exactly that pair. Combining
/// them in one value keeps a key pair from ever travelling beside a
/// mismatched circuit or parameter set.
#[derive(Clone, Debug)]
pub struct ProofSession {
    pub params: UniversalParameters,
    pub circuit: CircuitInstance,
    pub vk: VerificationKey,
    pub pk: ProvingKey,
}

impl ProofSession {
    /// The session's keys were derived from its own circuit and
    /// parameters, and the parameters accommodate the circuit.
    pub open spec fn wf(self) -> bool {
        self.pk == pk_spec(self.circuit, self.params) && self.vk == vk_spec(
            self.circuit,
            self.params,
        ) && pow2(self.params.k as nat) >= self.circuit.rows as nat
    }

    /// Negotiates the parameter size for a circuit and derives its key
    /// pair. The minimal size is computed first: when it exceeds the
    /// loaded parameters' size this fails with `ParameterTooSmall` before
    /// setup is ever attempted; otherwise the parameters are narrowed
    /// (never widened) to the minimal size and the keys derived.
    pub fn new(circuit: CircuitInstance, params: &UniversalParameters) -> (r: Result<
        ProofSession,
        PipelineError,
    >)
        ensures
            min_k_spec(circuit.rows as nat) > params.k ==> r === Err(
                PipelineError::ParameterTooSmall,
            ),
            min_k_spec(circuit.rows as nat) <= params.k && circuit.rows == 0 ==> r === Err(
                PipelineError::SetupError,
            ),
            min_k_spec(circuit.rows as nat) <= params.k && circuit.rows > 0 ==> (r matches Ok(s)
                && s.wf() && s.circuit.rows == circuit.rows && s.circuit.publics@
                == circuit.publics@ && s.params == (UniversalParameters {
                k: min_k_spec(circuit.rows as nat) as u32,
                setup_id: params.setup_id,
            })),
    {
        let k = crate::params::minimal_k(&circuit);
        if k > params.k {
            return Err(PipelineError::ParameterTooSmall);
        }
        let narrowed = match params.narrow(k) {
            Ok(p) => p,
            Err(e) => {
                proof {
                    assert(false);
                }
                return Err(e);
            },
        };
        proof {
            lemma_min_k_minimal(circuit.rows as nat);
        }
        match setup(&circuit, &narrowed) {
            Ok((vk, pk)) => Ok(ProofSession { params: narrowed, circuit, vk, pk }),
            Err(e) => Err(e),
        }
    }
}

} // verus!
