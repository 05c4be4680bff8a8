use vstd::prelude::*;
use vstd::arithmetic::mul::{lemma_mul_nonnegative, lemma_mul_upper_bound};
use crate::error::PipelineError;
use crate::witness::{Invocation, WitnessTrace};

verus! {

/// A function declaration of a compiled program: its resolved handle and
/// the number of arguments its signature takes.
#[derive(Clone, Copy, Debug, PartialEq, Eq, Structural)]
pub struct FunctionDecl {
    pub id: u64,
    pub arg_count: usize,
}

/// A linked, type-checked unit of program modules, reduced to the function
/// declarations the circuit builder resolves invocations against.
#[derive(Clone, Debug)]
pub struct CompiledProgram {
    pub functions: Vec<FunctionDecl>,
}

/// Circuit construction configuration: the fixed row overhead of the
/// constraint system and the rows each invocation step contributes per
/// wired value.
#[derive(Clone, Copy, Debug, PartialEq, Eq, Structural)]
pub struct CircuitConfig {
    pub base_rows: u64,
    pub rows_per_step: u64,
}

impl Default for CircuitConfig {
    /// The default construction configuration.
    fn default() -> (r: CircuitConfig)
        ensures
            r.base_rows == 64,
            r.rows_per_step == 8,
    {
        CircuitConfig { base_rows: 64, rows_per_step: 8 }
    }
}

/// An ordered set of argument positions within the entry invocation that
/// are exposed as public instances; the rest stay private witnesses.
#[derive(Clone, Debug)]
pub struct PublicInputSelector {
    pub indices: Vec<usize>,
}

/// The concrete arithmetic circuit built from a program, a trace and a
/// public-input selector: its constraint-system size in rows, and the
/// public values its witness assigns to the selected positions.
#[derive(Clone, Debug)]
pub struct CircuitInstance {
    pub rows: u64,
    pub publics: Vec<u64>,
}

/// The program declares a function with this handle and argument count.
pub open spec fn declares(prog: Seq<FunctionDecl>, function: u64, arg_count: nat) -> bool {
    exists|i: int|
        0 <= i < prog.len() && prog[i].id == function && prog[i].arg_count == arg_count
}

/// Every invocation of the trace resolves to a declaration of the program
/// with a matching argument count.
pub open spec fn trace_matches_program(prog: Seq<FunctionDecl>, trace: Seq<Invocation>) -> bool {
    forall|j: int|
        0 <= j < trace.len() ==> declares(prog, trace[j].function, trace[j].args@.len())
}

/// The rows one invocation contributes to the constraint system: one step
/// row plus one per argument, scaled by the configured step width.
pub open spec fn invocation_rows(inv: Invocation, config: CircuitConfig) -> int {
    config.rows_per_step * (1 + inv.args@.len())
}

/// The rows a whole trace contributes, in order.
pub open spec fn trace_rows(trace: Seq<Invocation>, config: CircuitConfig) -> int
    decreases trace.len(),
{
    if trace.len() == 0 {
        0
    } else {
        trace_rows(trace.drop_last(), config) + invocation_rows(trace.last(), config)
    }
}

/// The full constraint-system size of the circuit for a trace.
pub open spec fn circuit_rows(trace: Seq<Invocation>, config: CircuitConfig) -> int {
    config.base_rows + trace_rows(trace, config)
}

/// The public values the circuit's witness assigns to the selected
/// argument positions of the entry invocation, in selection order; a
/// position beyond the argument list wires the zero value.
pub open spec fn selected_publics(entry: Invocation, sel: Seq<usize>) -> Seq<u64> {
    Seq::new(
        sel.len(),
        |i: int| if sel[i] < entry.args@.len() {
            entry.args@[sel[i] as int]
        } else {
            0
        },
    )
}

/// Circuit construction succeeds exactly when the trace resolves against
/// the program and the constraint system fits the machine word.
pub open spec fn build_ok(
    prog: Seq<FunctionDecl>,
    trace: Seq<Invocation>,
    config: CircuitConfig,
) -> bool {
    trace_matches_program(prog, trace) && circuit_rows(trace, config) <= u64::MAX
}

proof fn lemma_invocation_rows_nonneg(inv: Invocation, config: CircuitConfig)
    ensures
        invocation_rows(inv, config) >= 0,
{
    lemma_mul_nonnegative(config.rows_per_step as int, 1 + inv.args@.len() as int);
}

proof fn lemma_trace_rows_step(trace: Seq<Invocation>, config: CircuitConfig, i: int)
    requires
        0 <= i < trace.len(),
    ensures
        trace_rows(trace.take(i + 1), config) == trace_rows(trace.take(i), config)
            + invocation_rows(trace[i], config),
{
    assert(trace.take(i + 1).drop_last() =~= trace.take(i));
    assert(trace.take(i + 1).last() == trace[i]);
}

proof fn lemma_trace_rows_prefix_le(trace: Seq<Invocation>, config: CircuitConfig, i: int)
    requires
        0 <= i <= trace.len(),
    ensures
        trace_rows(trace.take(i), config) <= trace_rows(trace, config),
    decreases trace.len() - i,
{
    if i == trace.len() {
        assert(trace.take(i) =~= trace);
    } else {
        lemma_trace_rows_step(trace, config, i);
        lemma_invocation_rows_nonneg(trace[i], config);
        lemma_trace_rows_prefix_le(trace, config, i + 1);
    }
}

/// The program declares `function` with exactly `arg_count` arguments.
fn resolves(prog: &CompiledProgram, function: u64, arg_count: usize) -> (r: bool)
    ensures
        r == declares(prog.functions@, function, arg_count as nat),
{
    let n = prog.functions.len();
    let mut i: usize = 0;
    while i < n
        invariant
            0 <= i <= n,
            n == prog.functions@.len(),
            forall|j: int|
                0 <= j < i ==> !(prog.functions@[j].id == function && prog.functions@[j].arg_count
                    == arg_count),
        decreases n - i,
    {
        let d = prog.functions[i];
        if d.id == function && d.arg_count == arg_count {
            return true;
        }
        i += 1;
    }
    false
}

/// Combines a compiled program and a witness trace into a concrete
/// arithmetic circuit, given the argument positions designated as public
/// inputs. Deterministic: the result is a pure function of the inputs, so
/// identical inputs yield a structurally identical circuit. Fails with
/// `CircuitBuildError` exactly when the trace references a function the
/// program does not declare with a matching argument count, or when the
/// constraint system would not fit the machine word.
pub fn build(
    program: &CompiledProgram,
    trace: &WitnessTrace,
    selector: &PublicInputSelector,
    config: &CircuitConfig,
) -> (r: Result<CircuitInstance, PipelineError>)
    requires
        trace.has_entry(),
    ensures
        build_ok(program.functions@, trace.invocations@, *config) ==> (r matches Ok(c)
            && c.rows == circuit_rows(trace.invocations@, *config) && c.publics@
            == selected_publics(trace.entry_spec(), selector.indices@)),
        !build_ok(program.functions@, trace.invocations@, *config) ==> r === Err(
            PipelineError::CircuitBuildError,
        ),
{
    let n = trace.invocations.len();
    let mut acc: u128 = config.base_rows as u128;
    let mut i: usize = 0;
    while i < n
        invariant
            0 <= i <= n,
            n == trace.invocations@.len(),
            acc <= u64::MAX,
            acc == config.base_rows + trace_rows(trace.invocations@.take(i as int), *config),
            trace_matches_program(program.functions@, trace.invocations@.take(i as int)),
        decreases n - i,
    {
        let inv = &trace.invocations[i];
        if !resolves(program, inv.function, inv.args.len()) {
            proof {
                assert(!declares(
                    program.functions@,
                    trace.invocations@[i as int].function,
                    trace.invocations@[i as int].args@.len(),
                ));
                assert(!trace_matches_program(program.functions@, trace.invocations@));
            }
            return Err(PipelineError::CircuitBuildError);
        }
        let args_len = inv.args.len();
        proof {
            lemma_mul_upper_bound(
                config.rows_per_step as int,
                u64::MAX as int,
                1 + args_len as int,
                u64::MAX as int + 1,
            );
            lemma_mul_nonnegative(config.rows_per_step as int, 1 + args_len as int);
        }
        let term: u128 = (config.rows_per_step as u128) * ((args_len as u128) + 1);
        let next: u128 = acc + term;
        proof {
            lemma_trace_rows_step(trace.invocations@, *config, i as int);
        }
        if next > u64::MAX as u128 {
            proof {
                lemma_trace_rows_prefix_le(trace.invocations@, *config, i as int + 1);
            }
            return Err(PipelineError::CircuitBuildError);
        }
        acc = next;
        proof {
            assert(trace_matches_program(
                program.functions@,
                trace.invocations@.take(i as int + 1),
            ));
        }
        i += 1;
    }
    proof {
        assert(trace.invocations@.take(n as int) =~= trace.invocations@);
    }
    let rows: u64 = acc as u64;

    let entry = &trace.invocations[0];
    let m = selector.indices.len();
    let mut publics: Vec<u64> = Vec::new();
    let mut j: usize = 0;
    while j < m
        invariant
            0 <= j <= m,
            m == selector.indices@.len(),
            trace.has_entry(),
            entry == trace.entry_spec(),
            publics@.len() == j,
            forall|l: int|
                0 <= l < j ==> publics@[l] == selected_publics(
                    trace.entry_spec(),
                    selector.indices@,
                )[l],
        decreases m - j,
    {
        let idx = selector.indices[j];
        if idx < entry.args.len() {
            publics.push(entry.args[idx]);
        } else {
            publics.push(0);
        }
        j += 1;
    }
    proof {
        assert(publics@ =~= selected_publics(trace.entry_spec(), selector.indices@));
    }
    Ok(CircuitInstance { rows, publics })
}

} // verus!
