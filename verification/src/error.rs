use vstd::prelude::*;

verus! {

/// The error taxonomy of the proving pipeline.
///
/// `NotFound`, `ParseError` and `IOError` arise at the I/O edge around the
/// library; the remaining variants are produced by the verified stages.
#[derive(Clone, Copy, Debug, PartialEq, Eq, Structural)]
pub enum PipelineError {
    /// The witness file path was unreadable.
    NotFound,
    /// The witness file was malformed.
    ParseError,
    /// No invocation of the trace is designated as the entry point.
    MissingEntry,
    /// A public-input selector index does not fit the entry invocation.
    IndexOutOfRange,
    /// The trace references a function the program does not declare, an
    /// argument list does not match its declaration, or the constraint
    /// system would not fit the machine word.
    CircuitBuildError,
    /// A requested parameter size exceeds the size embedded in the loaded
    /// universal parameters: narrowing can only shrink.
    ParameterTooSmall,
    /// Key derivation was attempted on a malformed circuit shape.
    SetupError,
    /// Proof production failed: the witness does not satisfy its own
    /// circuit, or the proving key does not belong to the circuit.
    ProofGenerationFailed,
    /// A freshly produced proof failed the pipeline's own verification.
    ProofVerificationFailed,
    /// Writing the proof artifact failed.
    IOError,
}

impl PipelineError {
    /// Which failures signal an internal-consistency violation rather than
    /// a caller-input problem: the pipeline aborts on these and never
    /// retries or persists a partial artifact.
    pub open spec fn fatal_spec(self) -> bool {
        self == PipelineError::SetupError || self == PipelineError::ProofGenerationFailed
            || self == PipelineError::ProofVerificationFailed
    }

    /// True exactly for the unrecoverable internal-consistency errors.
    pub fn is_fatal(&self) -> (r: bool)
        ensures
            r == self.fatal_spec(),
    {
        match self {
            PipelineError::SetupError => true,
            PipelineError::ProofGenerationFailed => true,
            PipelineError::ProofVerificationFailed => true,
            _ => false,
        }
    }
}

} // verus!
