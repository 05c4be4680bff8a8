use vstd::prelude::*;
use crate::circuit::{selected_publics, PublicInputSelector};
use crate::error::PipelineError;
use crate::witness::Invocation;

verus! {

/// The number of instance columns the proof system declares.
pub const NUM_INSTANCE_COLUMNS: usize = 2;

/// The public field-element values extracted for the instance columns:
/// one value per selected public position, in selection order. Columns
/// beyond the number of selected positions stay empty, per the proof
/// system's fixed column count.
#[derive(Clone, Debug)]
pub struct InstanceVector {
    pub values: Vec<u64>,
}

impl InstanceVector {
    /// The vector fits the proof system's declared column count.
    pub open spec fn wf(self) -> bool {
        self.values@.len() <= NUM_INSTANCE_COLUMNS
    }

    /// The content of instance column `i`: a single value for each
    /// selected position, empty beyond them.
    pub open spec fn column_view(self, i: int) -> Seq<u64>
        recommends
            0 <= i < NUM_INSTANCE_COLUMNS,
    {
        if 0 <= i < self.values@.len() {
            seq![self.values@[i]]
        } else {
            Seq::empty()
        }
    }
}

impl PublicInputSelector {
    /// The data-model invariant of a selector for an entry invocation of
    /// `arg_count` arguments: indices are unique and within bounds.
    pub open spec fn wf(self, arg_count: nat) -> bool {
        (forall|i: int| 0 <= i < self.indices@.len() ==> self.indices@[i] < arg_count)
            && (forall|i: int, j: int|
            0 <= i < j < self.indices@.len() ==> self.indices@[i] != self.indices@[j])
    }

    /// Checks the selector invariant against an argument count.
    pub fn validate(&self, arg_count: usize) -> (r: bool)
        ensures
            r == self.wf(arg_count as nat),
    {
        let n = self.indices.len();
        let mut i: usize = 0;
        while i < n
            invariant
                0 <= i <= n,
                n == self.indices@.len(),
                forall|l: int| 0 <= l < i ==> self.indices@[l] < arg_count,
                forall|l: int, m: int|
                    0 <= l < m < n && l < i ==> self.indices@[l] != self.indices@[m],
            decreases n - i,
        {
            if self.indices[i] >= arg_count {
                return false;
            }
            let mut j: usize = i + 1;
            while j < n
                invariant
                    i < j <= n,
                    n == self.indices@.len(),
                    forall|m: int| i < m < j ==> self.indices@[i as int] != self.indices@[m],
                decreases n - j,
            {
                if self.indices[j] == self.indices[i] {
                    return false;
                }
                j += 1;
            }
            i += 1;
        }
        true
    }
}

/// Extraction succeeds exactly when every selected position lies within
/// the entry invocation's argument list and the selection fits the
/// declared column count.
pub open spec fn extract_ok(args: Seq<u64>, sel: Seq<usize>) -> bool {
    sel.len() <= NUM_INSTANCE_COLUMNS && (forall|i: int|
        0 <= i < sel.len() ==> sel[i] < args.len())
}

/// Projects the entry invocation's argument values at the selected public
/// positions into the instance vector consumed by the proof system, in
/// selection order. Fails with `IndexOutOfRange` when a selected position
/// exceeds the argument count or the selection exceeds the declared
/// column count.
pub fn extract(entry: &Invocation, selector: &PublicInputSelector) -> (r: Result<
    InstanceVector,
    PipelineError,
>)
    ensures
        extract_ok(entry.args@, selector.indices@) ==> (r matches Ok(v) && v.wf() && v.values@
            == selected_publics(*entry, selector.indices@) && (forall|i: int|
            selector.indices@.len() <= i < NUM_INSTANCE_COLUMNS ==> v.column_view(i)
                == Seq::<u64>::empty())),
        !extract_ok(entry.args@, selector.indices@) ==> r === Err(PipelineError::IndexOutOfRange),
{
    let n = selector.indices.len();
    if n > NUM_INSTANCE_COLUMNS {
        return Err(PipelineError::IndexOutOfRange);
    }
    let mut values: Vec<u64> = Vec::new();
    let mut i: usize = 0;
    while i < n
        invariant
            0 <= i <= n,
            n == selector.indices@.len(),
            values@.len() == i,
            forall|l: int| 0 <= l < i ==> selector.indices@[l] < entry.args@.len(),
            forall|l: int|
                0 <= l < i ==> values@[l] == selected_publics(*entry, selector.indices@)[l],
        decreases n - i,
    {
        let idx = selector.indices[i];
        if idx >= entry.args.len() {
            return Err(PipelineError::IndexOutOfRange);
        }
        values.push(entry.args[idx]);
        i += 1;
    }
    proof {
        assert(values@ =~= selected_publics(*entry, selector.indices@));
    }
    Ok(InstanceVector { values })
}

} // verus!
