use vstd::prelude::*;
use crate::error::PipelineError;

verus! {

/// One recorded function invocation of an execution trace: the function's
/// resolved handle and its concrete argument values, already lifted to
/// field-element representatives.
#[derive(Clone, Debug)]
pub struct Invocation {
    pub function: u64,
    pub args: Vec<u64>,
}

/// A recorded execution trace for one program run. The first invocation,
/// when present, is the designated entry invocation; the pipeline cannot
/// proceed without one. Immutable once loaded.
#[derive(Clone, Debug)]
pub struct WitnessTrace {
    pub invocations: Vec<Invocation>,
}

impl WitnessTrace {
    /// The trace carries a designated entry invocation.
    pub open spec fn has_entry(self) -> bool {
        self.invocations@.len() > 0
    }

    /// The entry invocation of the trace.
    pub open spec fn entry_spec(self) -> Invocation
        recommends
            self.has_entry(),
    {
        self.invocations@[0]
    }

    /// The entry invocation used to build the circuit and its public
    /// instances; `MissingEntry` when no invocation is designated.
    pub fn entry(&self) -> (r: Result<&Invocation, PipelineError>)
        ensures
            self.has_entry() ==> (r matches Ok(e) && *e == self.entry_spec()),
            !self.has_entry() ==> r === Err(PipelineError::MissingEntry),
    {
        if self.invocations.len() > 0 {
            Ok(&self.invocations[0])
        } else {
            Err(PipelineError::MissingEntry)
        }
    }
}

} // verus!
