//! Trace generation: the inputs of one execution, the generation state the
//! interpreter drives, the driver loop that runs the kernel program from
//! bootstrap to its halt routine, and the assembly of the per-execution
//! trace tables and public values.
//!
//! The kernel's instruction semantics are deliberately minimal here: the
//! kernel program is a fixed, trusted configuration, and the driver requires
//! only that one `transition` step is a deterministic function of the state
//! that appends exactly one row to the per-step trace. The driver halts only
//! when the program counter sits in the kernel's halt routine *and* the
//! logical clock is a power of two, so the per-step table needs no padding.

use vstd::prelude::*;

use crate::memory::{MemValue, Memory, MemoryAddress, Segment};
use crate::shaping::{
    is_power_of_two, padded_row_count, shape_columns, shaped_spec, PolynomialValues,
    MAX_TRACE_ROWS, MIN_TRACE_ROWS,
};

verus! {

/// Columns of the per-step (CPU) trace table: the clock and the program
/// counter of each step.
pub const NUM_CPU_COLUMNS: usize = 2;

/// A 256-bit hash keying contract code.
#[derive(Clone, Copy, PartialEq, Eq, Debug)]
pub struct Hash256 {
    pub bytes: [u8; 32],
}

/// A 160-bit account address keying storage tries.
#[derive(Clone, Copy, PartialEq, Eq, Debug)]
pub struct Address {
    pub bytes: [u8; 20],
}

/// A partial view of a trie: only the encoded nodes the execution is
/// expected to touch. Their encoding is outside this core; the core carries
/// them through unread.
#[derive(Clone, PartialEq, Eq, Debug, Default)]
pub struct PartialTrie {
    pub nodes: Vec<Vec<u8>>,
}

/// The block-level metadata an execution runs under; carried through into
/// the public values unchanged.
#[derive(Clone, Copy, PartialEq, Eq, Structural, Debug, Default)]
pub struct BlockMetadata {
    pub block_number: u64,
    pub block_timestamp: u64,
    pub block_gaslimit: u64,
}

/// The partial tries an execution starts from. Each must hold every node
/// the execution will touch; that is guaranteed by the caller, not checked
/// here.
#[derive(Clone, PartialEq, Eq, Debug, Default)]
pub struct TrieInputs {
    /// A partial version of the state trie prior to these transactions.
    pub state_trie: PartialTrie,
    /// A partial version of the transaction trie prior to these transactions.
    pub transactions_trie: PartialTrie,
    /// A partial version of the receipt trie prior to these transactions.
    pub receipts_trie: PartialTrie,
    /// A partial version of each storage trie prior to these transactions.
    pub storage_tries: Vec<(Address, PartialTrie)>,
}

/// Inputs needed for trace generation; immutable for the whole execution.
#[derive(Clone, PartialEq, Eq, Debug, Default)]
pub struct GenerationInputs {
    pub signed_txns: Vec<Vec<u8>>,
    pub tries: TrieInputs,
    /// Contract byte code by code hash. Every invoked contract has an entry.
    pub contract_code: Vec<(Hash256, Vec<u8>)>,
    pub block_metadata: BlockMetadata,
}

/// The global-metadata slots read out of memory after the run.
#[derive(Clone, Copy, PartialEq, Eq, Structural, Debug)]
pub enum GlobalMetadata {
    StateTrieRootDigestBefore,
    TransactionTrieRootDigestBefore,
    ReceiptTrieRootDigestBefore,
    StateTrieRootDigestAfter,
    TransactionTrieRootDigestAfter,
    ReceiptTrieRootDigestAfter,
}

impl GlobalMetadata {
    /// The slot's offset within the global-metadata segment.
    pub open spec fn spec_index(self) -> nat {
        match self {
            GlobalMetadata::StateTrieRootDigestBefore => 0,
            GlobalMetadata::TransactionTrieRootDigestBefore => 1,
            GlobalMetadata::ReceiptTrieRootDigestBefore => 2,
            GlobalMetadata::StateTrieRootDigestAfter => 3,
            GlobalMetadata::TransactionTrieRootDigestAfter => 4,
            GlobalMetadata::ReceiptTrieRootDigestAfter => 5,
        }
    }

    /// The slot's offset within the global-metadata segment.
    pub fn index(self) -> (r: usize)
        ensures
            r == self.spec_index(),
    {
        match self {
            GlobalMetadata::StateTrieRootDigestBefore => 0,
            GlobalMetadata::TransactionTrieRootDigestBefore => 1,
            GlobalMetadata::ReceiptTrieRootDigestBefore => 2,
            GlobalMetadata::StateTrieRootDigestAfter => 3,
            GlobalMetadata::TransactionTrieRootDigestAfter => 4,
            GlobalMetadata::ReceiptTrieRootDigestAfter => 5,
        }
    }
}

/// One micro-operation of the kernel program. The real kernel's opcode
/// semantics are an external concern; the driver only needs a deterministic
/// step, and these operations are what the fixed kernel programs of this
/// core are written in.
#[derive(Clone, Copy, PartialEq, Eq, Debug)]
pub enum KernelOp {
    /// Advance the program counter by one.
    Next,
    /// Jump to the given program counter.
    Jump(usize),
    /// Write a value into the given global-metadata slot, then advance.
    SetMetadata(usize, MemValue),
}

/// The kernel configuration: the fixed program and its two halt labels,
/// resolved once at construction and threaded through explicitly.
#[derive(Clone, PartialEq, Eq, Debug)]
pub struct Kernel {
    pub code: Vec<KernelOp>,
    pub halt_pc0: usize,
    pub halt_pc1: usize,
}

/// The virtual machine's registers.
#[derive(Clone, Copy, PartialEq, Eq, Structural, Debug)]
pub struct Registers {
    pub program_counter: usize,
}

/// The per-table row accumulators of one execution. The logical clock is
/// the number of per-step rows accumulated so far.
#[derive(Clone, PartialEq, Eq, Debug)]
pub struct Traces {
    pub cpu: Vec<Vec<u64>>,
}

impl Traces {
    /// The logical clock: one tick per step taken.
    pub fn clock(&self) -> (r: usize)
        ensures
            r == self.cpu@.len(),
    {
        self.cpu.len()
    }
}

/// The mathematical view of a generation state: the program counter, the
/// memory image, and the accumulated per-step rows.
pub ghost struct GenView {
    pub pc: nat,
    pub mem: Map<MemoryAddress, MemValue>,
    pub cpu: Seq<Seq<u64>>,
}

/// The mutable, single-owner state of one execution: registers, memory
/// image, and trace accumulators, advanced one step at a time by the driver.
pub struct GenerationState {
    pub inputs: GenerationInputs,
    pub registers: Registers,
    pub memory: Memory,
    pub traces: Traces,
}

impl GenerationState {
    /// The state's mathematical view.
    pub open spec fn gview(self) -> GenView {
        GenView {
            pc: self.registers.program_counter as nat,
            mem: self.memory@,
            cpu: self.traces.cpu@.map_values(|r: Vec<u64>| r@),
        }
    }

    /// A fresh state over the given inputs: registers zeroed, memory empty,
    /// no rows accumulated.
    pub fn new(inputs: GenerationInputs) -> (r: GenerationState)
        ensures
            r.gview() == initial_view(),
            r.inputs == inputs,
    {
        let r = GenerationState {
            inputs,
            registers: Registers { program_counter: 0 },
            memory: Memory::new(),
            traces: Traces { cpu: Vec::new() },
        };
        proof {
            assert(r.gview().cpu =~= initial_view().cpu);
            assert(r.gview().mem =~= initial_view().mem);
        }
        r
    }
}

/// The view of a fresh state.
pub open spec fn initial_view() -> GenView {
    GenView { pc: 0, mem: Map::empty(), cpu: Seq::empty() }
}

/// The per-step trace row emitted at view `v`: the clock and the program
/// counter.
pub open spec fn cpu_row_spec(v: GenView) -> Seq<u64> {
    seq![v.cpu.len() as u64, v.pc as u64]
}

/// One deterministic step of the machine at view `v` under `code`: emit the
/// step's row, then perform the operation at the program counter; a counter
/// outside the program leaves the registers and memory unchanged.
pub open spec fn spec_transition(code: Seq<KernelOp>, v: GenView) -> GenView {
    let cpu1 = v.cpu.push(cpu_row_spec(v));
    if v.pc < code.len() {
        match code[v.pc as int] {
            KernelOp::Next => GenView { pc: v.pc + 1, mem: v.mem, cpu: cpu1 },
            KernelOp::Jump(t) => GenView { pc: t as nat, mem: v.mem, cpu: cpu1 },
            KernelOp::SetMetadata(virt, val) => GenView {
                pc: v.pc + 1,
                mem: v.mem.insert(
                    MemoryAddress {
                        context: 0,
                        segment: Segment::GlobalMetadata.spec_index() as usize,
                        virt,
                    },
                    val,
                ),
                cpu: cpu1,
            },
        }
    } else {
        GenView { pc: v.pc, mem: v.mem, cpu: cpu1 }
    }
}

/// The machine's view after `n` steps from `v`.
pub open spec fn iter_transition(code: Seq<KernelOp>, v: GenView, n: nat) -> GenView
    decreases n,
{
    if n == 0 {
        v
    } else {
        spec_transition(code, iter_transition(code, v, (n - 1) as nat))
    }
}

/// The halting condition: the program counter sits at one of the kernel's
/// two halt labels, and the clock is a power of two, so the per-step table
/// needs no padding rows.
pub open spec fn is_halted(k: Kernel, v: GenView) -> bool {
    (v.pc == k.halt_pc0 || v.pc == k.halt_pc1) && is_power_of_two(v.cpu.len())
}

/// `v1` is the machine's state after exactly `n` steps from `v0`, and no
/// earlier iterate satisfied the halting condition.
pub open spec fn reaches_first_halt(k: Kernel, v0: GenView, v1: GenView, n: nat) -> bool {
    &&& v1 == iter_transition(k.code@, v0, n)
    &&& forall|m: nat| m < n ==> !is_halted(k, iter_transition(k.code@, v0, m))
}

/// The machine's state after `n` steps of a whole execution (which starts
/// from a fresh state).
pub open spec fn run_outcome(k: Kernel, n: nat) -> GenView {
    iter_transition(k.code@, initial_view(), n)
}

/// Step `n` is the first halted iterate of a whole execution.
pub open spec fn is_first_halt(k: Kernel, n: nat) -> bool {
    &&& is_halted(k, run_outcome(k, n))
    &&& forall|m: nat| m < n ==> !is_halted(k, run_outcome(k, m))
}

/// Every per-step row the machine accumulates has the per-step table's
/// width.
pub proof fn lemma_iter_cpu_row_widths(code: Seq<KernelOp>, v: GenView, n: nat)
    requires
        forall|i: int| 0 <= i < v.cpu.len() ==> #[trigger] v.cpu[i].len() == NUM_CPU_COLUMNS,
    ensures
        forall|i: int|
            0 <= i < iter_transition(code, v, n).cpu.len() ==> #[trigger] iter_transition(
                code,
                v,
                n,
            ).cpu[i].len() == NUM_CPU_COLUMNS,
    decreases n,
{
    if n > 0 {
        lemma_iter_cpu_row_widths(code, v, (n - 1) as nat);
        let prev = iter_transition(code, v, (n - 1) as nat);
        let cur = iter_transition(code, v, n);
        assert(cur == spec_transition(code, prev));
        assert(cur.cpu == prev.cpu.push(cpu_row_spec(prev)));
        assert(cpu_row_spec(prev).len() == NUM_CPU_COLUMNS);
        assert forall|i: int| 0 <= i < cur.cpu.len() implies #[trigger] cur.cpu[i].len()
            == NUM_CPU_COLUMNS by {
            if i < prev.cpu.len() {
                assert(cur.cpu[i] == prev.cpu[i]);
            } else {
                assert(cur.cpu[i] == cpu_row_spec(prev));
            }
        }
    }
}

/// Whether `n` is a power of two.
pub fn check_power_of_two(n: usize) -> (b: bool)
    ensures
        b == is_power_of_two(n as nat),
{
    if n == 0 {
        return false;
    }
    let mut m: usize = n;
    while m % 2 == 0
        invariant
            m >= 1,
            is_power_of_two(n as nat) == is_power_of_two(m as nat),
        decreases m,
    {
        m = m / 2;
    }
    m == 1
}

/// Takes one interpreter step: appends the step's row to the per-step trace
/// and performs the kernel operation at the program counter.
pub fn transition(state: &mut GenerationState, kernel: &Kernel)
    ensures
        final(state).gview() == spec_transition(kernel.code@, old(state).gview()),
        final(state).inputs == old(state).inputs,
{
    let clock = state.traces.cpu.len() as u64;
    let pc = state.registers.program_counter;
    let mut row: Vec<u64> = Vec::new();
    row.push(clock);
    row.push(pc as u64);
    proof {
        assert(row@ =~= cpu_row_spec(old(state).gview()));
    }
    state.traces.cpu.push(row);
    if pc < kernel.code.len() {
        match kernel.code[pc] {
            KernelOp::Next => {
                state.registers.program_counter = pc + 1;
            },
            KernelOp::Jump(t) => {
                state.registers.program_counter = t;
            },
            KernelOp::SetMetadata(virt, val) => {
                let addr = MemoryAddress::new(0, Segment::GlobalMetadata, virt);
                state.memory.set(addr, val);
                state.registers.program_counter = pc + 1;
            },
        }
    }
    proof {
        assert(state.gview().cpu =~= spec_transition(kernel.code@, old(state).gview()).cpu);
        assert(state.gview().mem =~= spec_transition(kernel.code@, old(state).gview()).mem);
    }
}

/// The bootstrap routine: seeds the registers at the kernel's entry point.
/// It always succeeds deterministically; memory and traces are untouched.
pub fn generate_bootstrap_kernel(state: &mut GenerationState)
    ensures
        final(state).gview() == (GenView { pc: 0, ..old(state).gview() }),
        final(state).inputs == old(state).inputs,
{
    state.registers.program_counter = 0;
}

/// `v1` is the machine's state after `n` steps from `v0`, no iterate up to
/// and including it was halted, and its per-step trace has already reached
/// the largest row count this core shapes.
pub open spec fn reaches_overflow(k: Kernel, v0: GenView, v1: GenView, n: nat) -> bool {
    &&& v1 == iter_transition(k.code@, v0, n)
    &&& forall|m: nat| m <= n ==> !is_halted(k, iter_transition(k.code@, v0, m))
    &&& v1.cpu.len() >= MAX_TRACE_ROWS
}

/// Runs the interpreter until the halting condition first holds: on success
/// the resulting state is the first iterate of the step function that is
/// halted. The kernel's halt routine is reached only at power-of-two clocks,
/// so a run whose clock reaches the largest shapeable row count without
/// halting can never halt within it; such a run stops with an error rather
/// than running on (a defect of the kernel program or of the inputs, which
/// this core reports and does not recover from).
pub fn run_to_halt(state: &mut GenerationState, kernel: &Kernel) -> (r: Result<
    (),
    GenerationError,
>)
    ensures
        final(state).inputs == old(state).inputs,
        match r {
            Ok(u) => {
                &&& is_halted(*kernel, final(state).gview())
                &&& exists|n: nat|
                    reaches_first_halt(*kernel, old(state).gview(), final(state).gview(), n)
                &&& final(state).gview() == old(state).gview() || final(state).gview().cpu.len()
                    <= MAX_TRACE_ROWS
            },
            Err(e) => {
                &&& e == GenerationError::TraceTooLarge
                &&& exists|n: nat|
                    reaches_overflow(*kernel, old(state).gview(), final(state).gview(), n)
            },
        },
{
    let ghost v0 = old(state).gview();
    let ghost mut n: nat = 0nat;
    loop
        invariant
            state.inputs == old(state).inputs,
            state.gview() == iter_transition(kernel.code@, v0, n),
            forall|m: nat| m < n ==> !is_halted(*kernel, iter_transition(kernel.code@, v0, m)),
            v0 == old(state).gview(),
            n > 0 ==> state.gview().cpu.len() <= MAX_TRACE_ROWS,
        decreases (if state.traces.cpu@.len() < MAX_TRACE_ROWS {
            MAX_TRACE_ROWS - state.traces.cpu@.len()
        } else {
            0
        }),
    {
        let pc = state.registers.program_counter;
        if pc == kernel.halt_pc0 || pc == kernel.halt_pc1 {
            let clock = state.traces.clock();
            if check_power_of_two(clock) {
                proof {
                    assert(is_halted(*kernel, state.gview()));
                    assert(reaches_first_halt(*kernel, v0, state.gview(), n));
                }
                return Ok(());
            }
        }
        proof {
            assert(!is_halted(*kernel, iter_transition(kernel.code@, v0, n)));
        }
        if state.traces.cpu.len() >= MAX_TRACE_ROWS {
            proof {
                assert(reaches_overflow(*kernel, v0, state.gview(), n));
            }
            return Err(GenerationError::TraceTooLarge);
        }
        let ghost len_before = state.traces.cpu@.len();
        transition(state, kernel);
        proof {
            n = n + 1nat;
            assert(state.gview().cpu.len() == state.traces.cpu@.len());
            assert(state.traces.cpu@.len() == len_before + 1);
        }
    }
}

/// The trie-root digests an execution exposes.
#[derive(Clone, Copy, PartialEq, Eq, Debug)]
pub struct TrieRoots {
    pub state_root: MemValue,
    pub transactions_root: MemValue,
    pub receipts_root: MemValue,
}

/// The externally-checkable claim of one execution: the trie roots before
/// and after, and the block metadata it ran under.
#[derive(Clone, Copy, PartialEq, Eq, Debug)]
pub struct PublicValues {
    pub trie_roots_before: TrieRoots,
    pub trie_roots_after: TrieRoots,
    pub block_metadata: BlockMetadata,
}

/// The value of a global-metadata slot in a memory image; an unwritten slot
/// reads as zero.
pub open spec fn spec_read_metadata(mem: Map<MemoryAddress, MemValue>, field: GlobalMetadata) -> MemValue {
    let a = MemoryAddress {
        context: 0,
        segment: Segment::GlobalMetadata.spec_index() as usize,
        virt: field.spec_index() as usize,
    };
    if mem.contains_key(a) {
        mem[a]
    } else {
        MemValue::spec_zero()
    }
}

/// The trie roots read from the fixed before-roots metadata slots.
pub open spec fn spec_trie_roots_before(mem: Map<MemoryAddress, MemValue>) -> TrieRoots {
    TrieRoots {
        state_root: spec_read_metadata(mem, GlobalMetadata::StateTrieRootDigestBefore),
        transactions_root: spec_read_metadata(mem, GlobalMetadata::TransactionTrieRootDigestBefore),
        receipts_root: spec_read_metadata(mem, GlobalMetadata::ReceiptTrieRootDigestBefore),
    }
}

/// The trie roots read from the fixed after-roots metadata slots.
pub open spec fn spec_trie_roots_after(mem: Map<MemoryAddress, MemValue>) -> TrieRoots {
    TrieRoots {
        state_root: spec_read_metadata(mem, GlobalMetadata::StateTrieRootDigestAfter),
        transactions_root: spec_read_metadata(mem, GlobalMetadata::TransactionTrieRootDigestAfter),
        receipts_root: spec_read_metadata(mem, GlobalMetadata::ReceiptTrieRootDigestAfter),
    }
}

/// The public values assembled from a halted view and the block metadata.
pub open spec fn spec_public_values(v: GenView, bm: BlockMetadata) -> PublicValues {
    PublicValues {
        trie_roots_before: spec_trie_roots_before(v.mem),
        trie_roots_after: spec_trie_roots_after(v.mem),
        block_metadata: bm,
    }
}

/// Reads one global-metadata slot of the state's memory.
pub fn read_metadata(state: &GenerationState, field: GlobalMetadata) -> (r: MemValue)
    ensures
        r == spec_read_metadata(state.gview().mem, field),
{
    state.memory.get(MemoryAddress::new(0, Segment::GlobalMetadata, field.index()))
}

/// The one failure of trace assembly: the halted run's per-step trace is
/// larger than the row counts this core shapes.
#[derive(Clone, Copy, PartialEq, Eq, Structural, Debug)]
pub enum GenerationError {
    TraceTooLarge,
}

/// A whole execution's run got stuck: its first `n` iterates never halt and
/// its per-step trace has reached the largest shapeable row count.
pub open spec fn run_overflows(k: Kernel, n: nat) -> bool {
    &&& forall|m: nat| m <= n ==> !is_halted(k, run_outcome(k, m))
    &&& run_outcome(k, n).cpu.len() >= MAX_TRACE_ROWS
}

/// What a successful generation returns, for the first-halt step count `n`:
/// the shaped per-step table (power-of-two rows, at least the minimum, the
/// accumulated rows followed by all-zero padding), and the public values
/// assembled from the halted memory image and the block metadata.
pub open spec fn traces_ok_matches(
    k: Kernel,
    n: nat,
    polys: Seq<PolynomialValues>,
    pv: PublicValues,
    bm: BlockMetadata,
) -> bool {
    let vf = run_outcome(k, n);
    &&& polys.map_values(|p: PolynomialValues| p.values@) == shaped_spec(
        vf.cpu,
        NUM_CPU_COLUMNS as nat,
    )
    &&& polys.len() == NUM_CPU_COLUMNS
    &&& is_power_of_two(padded_row_count(vf.cpu.len()))
    &&& padded_row_count(vf.cpu.len()) >= MIN_TRACE_ROWS
    &&& pv == spec_public_values(vf, bm)
}

/// Drives one whole execution: bootstraps a fresh state over `inputs`, runs
/// the kernel to its halt routine, then shapes the per-step trace into its
/// column-major power-of-two table and assembles the public values, the trie
/// roots read out of the halted memory image at the fixed metadata slots.
/// Generation succeeds exactly when the kernel halts before the per-step
/// trace outgrows the largest shapeable row count.
pub fn generate_traces(kernel: &Kernel, inputs: GenerationInputs) -> (r: Result<
    (Vec<PolynomialValues>, PublicValues),
    GenerationError,
>)
    ensures
        match r {
            Ok(ok) => exists|n: nat|
                #[trigger] is_first_halt(*kernel, n) && traces_ok_matches(
                    *kernel,
                    n,
                    ok.0@,
                    ok.1,
                    inputs.block_metadata,
                ),
            Err(e) => {
                &&& e == GenerationError::TraceTooLarge
                &&& exists|n: nat| #[trigger] run_overflows(*kernel, n)
            },
        },
{
    let ghost bm = inputs.block_metadata;
    let mut state = GenerationState::new(inputs);
    generate_bootstrap_kernel(&mut state);
    proof {
        assert(state.gview() == initial_view());
    }
    let run = run_to_halt(&mut state, kernel);
    if run.is_err() {
        let ghost n_wit: nat = choose|n: nat|
            reaches_overflow(*kernel, initial_view(), state.gview(), n);
        proof {
            assert(reaches_overflow(*kernel, initial_view(), state.gview(), n_wit));
            assert(run_overflows(*kernel, n_wit));
        }
        return Err(GenerationError::TraceTooLarge);
    }
    let ghost n_wit: nat = choose|n: nat|
        reaches_first_halt(*kernel, initial_view(), state.gview(), n);
    proof {
        assert(reaches_first_halt(*kernel, initial_view(), state.gview(), n_wit));
        assert(is_first_halt(*kernel, n_wit));
        assert(state.gview().cpu.len() <= MAX_TRACE_ROWS);
    }

    let trie_roots_before = TrieRoots {
        state_root: read_metadata(&state, GlobalMetadata::StateTrieRootDigestBefore),
        transactions_root: read_metadata(
            &state,
            GlobalMetadata::TransactionTrieRootDigestBefore,
        ),
        receipts_root: read_metadata(&state, GlobalMetadata::ReceiptTrieRootDigestBefore),
    };
    let trie_roots_after = TrieRoots {
        state_root: read_metadata(&state, GlobalMetadata::StateTrieRootDigestAfter),
        transactions_root: read_metadata(&state, GlobalMetadata::TransactionTrieRootDigestAfter),
        receipts_root: read_metadata(&state, GlobalMetadata::ReceiptTrieRootDigestAfter),
    };
    let public_values = PublicValues {
        trie_roots_before,
        trie_roots_after,
        block_metadata: state.inputs.block_metadata,
    };

    let ghost vf = state.gview();
    proof {
        lemma_iter_cpu_row_widths(kernel.code@, initial_view(), n_wit);
        assert forall|k: int| 0 <= k < state.traces.cpu@.len() implies #[trigger] state.traces.cpu@[
            k
        ]@.len() == NUM_CPU_COLUMNS by {
            assert(vf.cpu[k] == state.traces.cpu@[k]@);
            assert(vf.cpu[k].len() == NUM_CPU_COLUMNS);
        }
    }
    let cpu_rows = state.traces.cpu;
    proof {
        assert(cpu_rows@.map_values(|v: Vec<u64>| v@) == vf.cpu);
    }
    let cpu_table = shape_columns(cpu_rows, NUM_CPU_COLUMNS);
    proof {
        assert(traces_ok_matches(*kernel, n_wit, cpu_table@, public_values, bm));
    }
    Ok((cpu_table, public_values))
}

} // verus!
