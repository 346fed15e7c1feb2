use evm_arithmetization::ctl::{CtlColumn, CtlFilter};
use evm_arithmetization::memory::{MemValue, Memory, MemoryAddress, Segment};
use evm_arithmetization::memory_continuation::{
    ctl_data, ctl_data_memory, ctl_filter, mem_before_values_to_rows, MemoryContinuationStark,
    ADDR_CONTEXT, ADDR_SEGMENT, ADDR_VIRTUAL, FILTER, NUM_COLUMNS, VALUE_START,
};
use evm_arithmetization::poseidon_sponge::{
    final_block_row, full_input_block_row, poseidon_sponge_col_map, PoseidonSpongeColumnsView,
    NUM_POSEIDON_SPONGE_COLUMNS,
};
use evm_arithmetization::shaping::{
    make_zero_row, next_power_of_two, pad_to_power_of_two, MIN_TRACE_ROWS,
};

#[test]
fn columns_round_trip() {
    let a: Vec<u64> = (0..NUM_POSEIDON_SPONGE_COLUMNS as u64).map(|i| i * 7 + 3).collect();
    let v = PoseidonSpongeColumnsView::from_flat(&a);
    let b = v.to_flat();
    assert_eq!(a, b);
}

#[test]
fn columns_round_trip_reads_named_fields() {
    let a: Vec<u64> = (100..163).collect();
    let v = PoseidonSpongeColumnsView::from_flat(&a);
    assert_eq!(v.is_full_input_block, 100);
    assert_eq!(v.context, 101);
    assert_eq!(v.segment, 102);
    assert_eq!(v.virt, 103);
    assert_eq!(v.timestamp, 104);
    assert_eq!(v.len, 105);
    assert_eq!(v.already_absorbed_elements, 106);
    assert_eq!(v.is_final_input_len, (107..115).collect::<Vec<u64>>());
    assert_eq!(v.block, (115..123).collect::<Vec<u64>>());
    assert_eq!(v.input_state, (123..143).collect::<Vec<u64>>());
    assert_eq!(v.updated_digest, (143..163).collect::<Vec<u64>>());
}

#[test]
fn col_map_is_bijection() {
    let m = poseidon_sponge_col_map();
    let flat = m.to_flat();
    assert_eq!(flat.len(), NUM_POSEIDON_SPONGE_COLUMNS);
    for (i, &x) in flat.iter().enumerate() {
        assert_eq!(x, i);
    }
}

#[test]
fn sponge_full_block_row_all_zero_one_hot() {
    let row = full_input_block_row(1, 2, 3, 4, 100, 32, vec![9; 8], vec![0; 20], vec![0; 20]);
    assert_eq!(row.is_full_input_block, 1);
    assert!(row.is_final_input_len.iter().all(|&x| x == 0));
    assert_eq!(row.block, vec![9; 8]);
}

#[test]
fn sponge_final_block_row_one_hot_at_chunk_len() {
    let row = final_block_row(1, 2, 3, 4, 37, 32, vec![0; 8], vec![0; 20], vec![0; 20]);
    assert_eq!(row.is_full_input_block, 0);
    for (i, &x) in row.is_final_input_len.iter().enumerate() {
        assert_eq!(x, if i == 5 { 1 } else { 0 });
    }
}

#[test]
fn sponge_final_block_row_empty_chunk() {
    let row = final_block_row(0, 0, 0, 0, 16, 16, vec![0; 8], vec![0; 20], vec![0; 20]);
    for (i, &x) in row.is_final_input_len.iter().enumerate() {
        assert_eq!(x, if i == 0 { 1 } else { 0 });
    }
}

#[test]
fn next_power_of_two_values() {
    assert_eq!(next_power_of_two(0), 1);
    assert_eq!(next_power_of_two(1), 1);
    assert_eq!(next_power_of_two(2), 2);
    assert_eq!(next_power_of_two(3), 4);
    assert_eq!(next_power_of_two(5), 8);
    assert_eq!(next_power_of_two(16), 16);
    assert_eq!(next_power_of_two(17), 32);
}

#[test]
fn pad_reaches_minimum_rows() {
    let mut rows: Vec<Vec<u64>> = vec![vec![1, 2, 3]; 5];
    pad_to_power_of_two(&mut rows, 3);
    assert_eq!(rows.len(), MIN_TRACE_ROWS);
    assert_eq!(rows[0], vec![1, 2, 3]);
    assert_eq!(rows[5], vec![0, 0, 0]);
}

#[test]
fn pad_is_idempotent() {
    let mut rows: Vec<Vec<u64>> = (0..16).map(|i| vec![i as u64; 3]).collect();
    let before = rows.clone();
    pad_to_power_of_two(&mut rows, 3);
    assert_eq!(rows, before);
    let mut rows32: Vec<Vec<u64>> = (0..32).map(|i| vec![i as u64; 3]).collect();
    let before32 = rows32.clone();
    pad_to_power_of_two(&mut rows32, 3);
    assert_eq!(rows32, before32);
}

#[test]
fn zero_row_width() {
    assert_eq!(make_zero_row(12), vec![0u64; 12]);
}

#[test]
fn ctl_columns_exact() {
    let d = ctl_data();
    assert_eq!(d.len(), 11);
    for (k, c) in d.iter().enumerate() {
        assert_eq!(*c, CtlColumn::Single(k + 1));
    }
    let f: CtlFilter = ctl_filter();
    assert_eq!(f.column, FILTER);
    let dm = ctl_data_memory();
    assert_eq!(dm.len(), 13);
    assert_eq!(dm[0], CtlColumn::Constant(0));
    assert_eq!(dm[12], CtlColumn::Constant(0));
    for k in 1..12 {
        assert_eq!(dm[k], CtlColumn::Single(k));
    }
}

#[test]
fn continuation_table_single_pair() {
    let addr = MemoryAddress::new(0, Segment::GlobalMetadata, 5);
    let val = MemValue::from_u32(42);
    let rows = mem_before_values_to_rows(&vec![(addr, val)]);
    assert_eq!(rows.len(), 1);
    let stark = MemoryContinuationStark;
    let cols = stark.generate_trace(rows);
    assert_eq!(cols.len(), NUM_COLUMNS);
    for c in &cols {
        assert_eq!(c.values.len(), 16);
    }
    assert_eq!(cols[FILTER].values[0], 1);
    assert_eq!(cols[ADDR_CONTEXT].values[0], 0);
    assert_eq!(cols[ADDR_SEGMENT].values[0], Segment::GlobalMetadata.index() as u64);
    assert_eq!(cols[ADDR_VIRTUAL].values[0], 5);
    assert_eq!(cols[VALUE_START].values[0], 42);
    for j in 1..8 {
        assert_eq!(cols[VALUE_START + j].values[0], 0);
    }
    for i in 1..16 {
        for c in &cols {
            assert_eq!(c.values[i], 0);
        }
    }
}

#[test]
fn continuation_table_empty_input() {
    let stark = MemoryContinuationStark;
    let cols = stark.generate_trace(Vec::new());
    assert_eq!(cols.len(), NUM_COLUMNS);
    for c in &cols {
        assert_eq!(c.values.len(), 16);
        assert!(c.values.iter().all(|&x| x == 0));
    }
}

#[test]
fn continuation_table_wide_value_limbs() {
    // limb j of the value holds bits 32*j .. 32*(j+1), little-endian
    let addr = MemoryAddress::new(3, Segment::MainMemory, 7);
    let val = MemValue { limbs: [1, 2, 3, 4, 5, 6, 7, 8] };
    let rows = mem_before_values_to_rows(&vec![(addr, val)]);
    assert_eq!(rows[0].len(), NUM_COLUMNS);
    assert_eq!(rows[0][FILTER], 1);
    assert_eq!(rows[0][ADDR_CONTEXT], 3);
    assert_eq!(rows[0][ADDR_SEGMENT], Segment::MainMemory.index() as u64);
    assert_eq!(rows[0][ADDR_VIRTUAL], 7);
    for j in 0..8 {
        assert_eq!(rows[0][VALUE_START + j], (j + 1) as u64);
    }
}

#[test]
fn continuation_table_keeps_duplicates() {
    let addr = MemoryAddress::new(0, Segment::GlobalMetadata, 5);
    let val = MemValue::from_u32(42);
    let rows = mem_before_values_to_rows(&vec![(addr, val), (addr, val)]);
    assert_eq!(rows.len(), 2);
    assert_eq!(rows[0], rows[1]);
}

#[test]
fn shaping_idempotent_on_padded_buffer() {
    let rows: Vec<Vec<u64>> = (0..16).map(|i| vec![i as u64; NUM_COLUMNS]).collect();
    let stark = MemoryContinuationStark;
    let cols = stark.generate_trace(rows.clone());
    assert_eq!(cols.len(), NUM_COLUMNS);
    for c in &cols {
        assert_eq!(c.values.len(), 16);
    }
    for (j, c) in cols.iter().enumerate() {
        for (i, row) in rows.iter().enumerate() {
            assert_eq!(c.values[i], row[j]);
        }
    }
}

#[test]
fn memory_reads_last_write_and_zero_default() {
    let mut m = Memory::new();
    let a = MemoryAddress::new(1, Segment::MainMemory, 9);
    assert_eq!(m.get(a), MemValue::zero());
    m.set(a, MemValue::from_u32(5));
    m.set(a, MemValue::from_u32(6));
    assert_eq!(m.get(a), MemValue::from_u32(6));
    let b = MemoryAddress::new(1, Segment::MainMemory, 10);
    assert_eq!(m.get(b), MemValue::zero());
}

#[test]
fn segment_indices_fixed() {
    assert_eq!(Segment::Code.index(), 0);
    assert_eq!(Segment::GlobalMetadata.index(), 5);
}
