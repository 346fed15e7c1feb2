use evm_arithmetization::generation::{
    check_power_of_two, generate_traces, BlockMetadata, GenerationInputs, GenerationState,
    GlobalMetadata, Kernel, KernelOp, NUM_CPU_COLUMNS,
};
use evm_arithmetization::memory::MemValue;

fn straight_line_kernel(halt_pc: usize) -> Kernel {
    // `halt_pc` advance ops bring the program counter to the halt label at
    // clock == halt_pc; the halt routine itself is a self-loop.
    let mut code = vec![KernelOp::Next; halt_pc];
    code.push(KernelOp::Jump(halt_pc));
    Kernel { code, halt_pc0: halt_pc, halt_pc1: usize::MAX }
}

#[test]
fn check_power_of_two_values() {
    assert!(!check_power_of_two(0));
    assert!(check_power_of_two(1));
    assert!(check_power_of_two(2));
    assert!(!check_power_of_two(3));
    assert!(check_power_of_two(64));
    assert!(!check_power_of_two(96));
}

#[test]
fn halt_waits_for_power_of_two_clock() {
    // The halt label is first reached at clock 37; 37 is not a power of two,
    // so the run spins in the halt routine until clock 64.
    let kernel = straight_line_kernel(37);
    let (table, _pv) = generate_traces(&kernel, GenerationInputs::default()).unwrap();
    assert_eq!(table.len(), NUM_CPU_COLUMNS);
    for c in &table {
        assert_eq!(c.values.len(), 64);
    }
    // step 37 sits in the halt routine: clock column 37, pc column 37
    assert_eq!(table[0].values[37], 37);
    assert_eq!(table[1].values[37], 37);
    // the last recorded step still sits at the halt label
    assert_eq!(table[0].values[63], 63);
    assert_eq!(table[1].values[63], 37);
}

#[test]
fn halt_at_power_of_two_needs_no_padding_beyond_minimum() {
    // Halt label reached exactly at clock 32: the per-step table has 32 rows.
    let kernel = straight_line_kernel(32);
    let (table, _pv) = generate_traces(&kernel, GenerationInputs::default()).unwrap();
    for c in &table {
        assert_eq!(c.values.len(), 32);
    }
}

#[test]
fn short_run_padded_to_minimum_rows() {
    // Halt label reached at clock 4 (a power of two below the minimum):
    // the shaped table still has 16 rows, the tail all zero.
    let kernel = straight_line_kernel(4);
    let (table, _pv) = generate_traces(&kernel, GenerationInputs::default()).unwrap();
    for c in &table {
        assert_eq!(c.values.len(), 16);
    }
    for i in 4..16 {
        assert_eq!(table[0].values[i], 0);
        assert_eq!(table[1].values[i], 0);
    }
}

#[test]
fn trie_roots_read_from_halted_memory() {
    // The kernel writes the before/after state-trie root slots, then walks
    // to its halt label at clock 4.
    let code = vec![
        KernelOp::SetMetadata(
            GlobalMetadata::StateTrieRootDigestBefore.index(),
            MemValue::from_u32(11),
        ),
        KernelOp::SetMetadata(
            GlobalMetadata::StateTrieRootDigestAfter.index(),
            MemValue::from_u32(22),
        ),
        KernelOp::Next,
        KernelOp::Next,
        KernelOp::Jump(4),
    ];
    let kernel = Kernel { code, halt_pc0: 4, halt_pc1: usize::MAX };
    let mut inputs = GenerationInputs::default();
    inputs.block_metadata = BlockMetadata { block_number: 7, block_timestamp: 99, block_gaslimit: 5 };
    let (_table, pv) = generate_traces(&kernel, inputs).unwrap();
    assert_eq!(pv.trie_roots_before.state_root, MemValue::from_u32(11));
    assert_eq!(pv.trie_roots_after.state_root, MemValue::from_u32(22));
    // unwritten slots read as zero
    assert_eq!(pv.trie_roots_before.receipts_root, MemValue::zero());
    assert_eq!(pv.trie_roots_after.transactions_root, MemValue::zero());
    // block metadata passes through unchanged
    assert_eq!(pv.block_metadata.block_number, 7);
    assert_eq!(pv.block_metadata.block_timestamp, 99);
    assert_eq!(pv.block_metadata.block_gaslimit, 5);
}

#[test]
fn second_halt_label_also_halts() {
    let mut code = vec![KernelOp::Next; 8];
    code.push(KernelOp::Jump(8));
    let kernel = Kernel { code, halt_pc0: usize::MAX, halt_pc1: 8 };
    let (table, _pv) = generate_traces(&kernel, GenerationInputs::default()).unwrap();
    for c in &table {
        assert_eq!(c.values.len(), 16);
    }
}

#[test]
fn fresh_state_is_empty() {
    let state = GenerationState::new(GenerationInputs::default());
    assert_eq!(state.registers.program_counter, 0);
    assert_eq!(state.traces.cpu.len(), 0);
}
