use vstd::prelude::*;
use vstd::arithmetic::power2::{
    pow2, lemma2_to64, lemma_pow2_pos, lemma_pow2_strictly_increases, lemma_pow2_unfold,
};
use crate::circuit::CircuitInstance;
use crate::error::PipelineError;

verus! {

/// A size-parameterized universal commitment-scheme setup, reduced to what
/// the pipeline reads of it: the exponent `k` bounding circuits of up to
/// `2^k` rows, and the identity of the trusted setup it was derived from.
/// Narrowing produces a new value over the same setup; it never widens.
#[derive(Clone, Copy, Debug, PartialEq, Eq, Structural)]
pub struct UniversalParameters {
    pub k: u32,
    pub setup_id: u64,
}

/// `k` is the smallest exponent whose parameter size `2^k` accommodates
/// `rows` constraint rows.
pub open spec fn is_minimal_k(rows: nat, k: nat) -> bool {
    pow2(k) >= rows && (k > 0 ==> pow2((k - 1) as nat) < rows)
}

/// The minimal exponent accommodating `rows` constraint rows.
pub open spec fn min_k_spec(rows: nat) -> nat
    decreases rows,
{
    if rows <= 1 {
        0
    } else {
        min_k_spec(((rows + 1) / 2) as nat) + 1
    }
}

pub proof fn lemma_pow2_le(e1: nat, e2: nat)
    requires
        e1 <= e2,
    ensures
        pow2(e1) <= pow2(e2),
{
    if e1 < e2 {
        lemma_pow2_strictly_increases(e1, e2);
    }
}

/// `min_k_spec` indeed returns the minimal accommodating exponent.
pub proof fn lemma_min_k_minimal(rows: nat)
    ensures
        is_minimal_k(rows, min_k_spec(rows)),
    decreases rows,
{
    lemma2_to64();
    if rows > 1 {
        let m = ((rows + 1) / 2) as nat;
        lemma_min_k_minimal(m);
        let kp = min_k_spec(m);
        lemma_pow2_unfold(kp + 1);
        assert(2 * m >= rows);
        if kp > 0 {
            lemma_pow2_unfold(kp);
            assert(2 * m <= rows + 1);
        }
    }
}

/// The minimal accommodating exponent is unique.
pub proof fn lemma_minimal_k_unique(rows: nat, k1: nat, k2: nat)
    requires
        is_minimal_k(rows, k1),
        is_minimal_k(rows, k2),
    ensures
        k1 == k2,
{
    if k1 < k2 {
        lemma_pow2_le(k1, (k2 - 1) as nat);
    }
    if k2 < k1 {
        lemma_pow2_le(k2, (k1 - 1) as nat);
    }
}

/// The minimal parameter size is monotonic in circuit size: enlarging the
/// constraint system never decreases the required exponent.
pub proof fn lemma_min_k_monotonic(rows1: nat, rows2: nat)
    requires
        rows1 <= rows2,
    ensures
        min_k_spec(rows1) <= min_k_spec(rows2),
{
    lemma_min_k_minimal(rows1);
    lemma_min_k_minimal(rows2);
    let k1 = min_k_spec(rows1);
    let k2 = min_k_spec(rows2);
    if k1 > k2 {
        lemma_pow2_le(k2, (k1 - 1) as nat);
        assert(false);
    }
}

/// Computes the minimal universal-setup exponent `k` that accommodates the
/// circuit's constraint system: the smallest `k` with `2^k >= rows`. A pure
/// function of the constraint-system size.
pub fn minimal_k(circuit: &CircuitInstance) -> (k: u32)
    ensures
        k as nat == min_k_spec(circuit.rows as nat),
        is_minimal_k(circuit.rows as nat, k as nat),
        k <= 64,
{
    let rows = circuit.rows;
    let mut k: u32 = 0;
    let mut size: u128 = 1;
    proof {
        lemma2_to64();
    }
    while size < rows as u128
        invariant
            k <= 64,
            size == pow2(k as nat),
            k > 0 ==> pow2((k - 1) as nat) < rows as nat,
        decreases 64 - k,
    {
        proof {
            lemma2_to64();
            lemma_pow2_pos(k as nat);
            assert(k < 64) by {
                if k == 64 {
                    assert(pow2(64) == 0x10000000000000000);
                }
            }
            lemma_pow2_unfold(k as nat + 1);
        }
        size = size * 2;
        k = k + 1;
    }
    proof {
        lemma_min_k_minimal(rows as nat);
        lemma_minimal_k_unique(rows as nat, k as nat, min_k_spec(rows as nat));
    }
    k
}

/// What narrowing a parameter set to target exponent `k` yields: a new
/// parameter set of size `k` over the same setup when `k` fits, and
/// `ParameterTooSmall` when `k` exceeds the embedded size.
pub open spec fn narrow_spec(p: UniversalParameters, k: u32) -> Result<
    UniversalParameters,
    PipelineError,
> {
    if k <= p.k {
        Ok(UniversalParameters { k, setup_id: p.setup_id })
    } else {
        Err(PipelineError::ParameterTooSmall)
    }
}

impl UniversalParameters {
    /// Narrows this parameter set to exponent `k`. Narrowing can only
    /// shrink: it fails with `ParameterTooSmall` when `k` exceeds the size
    /// already embedded, and otherwise produces a new owned copy over the
    /// same setup, leaving this value usable.
    pub fn narrow(&self, k: u32) -> (r: Result<UniversalParameters, PipelineError>)
        ensures
            r == narrow_spec(*self, k),
    {
        if k <= self.k {
            Ok(UniversalParameters { k, setup_id: self.setup_id })
        } else {
            Err(PipelineError::ParameterTooSmall)
        }
    }

    /// Applies the caller's explicit size override, when one is given,
    /// before the parameters are handed to the pipeline.
    pub fn apply_k_override(&self, k_override: Option<u32>) -> (r: Result<
        UniversalParameters,
        PipelineError,
    >)
        ensures
            match k_override {
                None => r == Ok::<UniversalParameters, PipelineError>(*self),
                Some(k) => r == narrow_spec(*self, k),
            },
    {
        match k_override {
            None => Ok(*self),
            Some(k) => self.narrow(k),
        }
    }
}

/// Narrowing fails exactly when the target exceeds the parameters' native
/// size, and succeeds idempotently: narrowing an already-narrowed result
/// to the same target is a no-op producing an equal result.
pub proof fn lemma_narrow_idempotent(p: UniversalParameters, k: u32)
    ensures
        (narrow_spec(p, k) is Err) <==> k > p.k,
        narrow_spec(p, k) matches Ok(q) ==> narrow_spec(q, k) == Ok::<
            UniversalParameters,
            PipelineError,
        >(q),
{
}

} // verus!
