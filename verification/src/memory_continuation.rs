//! The memory-continuation table: a constraint-free table that carries a
//! memory-address/value snapshot across a proof-segment boundary. One row per
//! `(address, value)` pair, its filter column active, the address in three
//! columns and the 256-bit value in eight 32-bit limb columns; padding rows
//! are all zero, so their filter is inactive. Cross-table lookups expose the
//! multiset of active `(context, segment, virt, limbs)` tuples so the main
//! memory table can assert its segment-boundary rows match exactly.

use vstd::prelude::*;

use crate::ctl::{active_ctl_tuples, eval_ctl_columns, CtlColumn, CtlFilter};
use crate::memory::{MemValue, MemoryAddress, VALUE_LIMBS};
use crate::shaping::{
    is_power_of_two, padded_row_count, PolynomialValues, MAX_TRACE_ROWS, MIN_TRACE_ROWS,
};

verus! {

/// Column of the row filter: 1 on rows that carry a snapshot pair.
pub const FILTER: usize = 0;

/// Column of the address's execution context.
pub const ADDR_CONTEXT: usize = 1;

/// Column of the address's segment index.
pub const ADDR_SEGMENT: usize = 2;

/// Column of the address's virtual offset.
pub const ADDR_VIRTUAL: usize = 3;

/// Columns `VALUE_START .. VALUE_START + VALUE_LIMBS` hold the value limbs.
pub const VALUE_START: usize = 4;

/// Total columns of the memory-continuation table.
pub const NUM_COLUMNS: usize = 12;

/// The column holding limb `j` of the value.
pub open spec fn spec_value_limb(j: nat) -> nat {
    (VALUE_START + j) as nat
}

/// The column holding limb `j` of the value.
pub fn value_limb(j: usize) -> (r: usize)
    requires
        j < VALUE_LIMBS,
    ensures
        r == spec_value_limb(j as nat),
{
    VALUE_START + j
}

/// The table row that carries the snapshot pair `p`: filter 1, the address
/// fields, then the value limbs, little-endian.
pub open spec fn row_of_pair(p: (MemoryAddress, MemValue)) -> Seq<u64> {
    Seq::new(
        NUM_COLUMNS as nat,
        |k: int|
            if k == FILTER {
                1u64
            } else if k == ADDR_CONTEXT {
                p.0.context as u64
            } else if k == ADDR_SEGMENT {
                p.0.segment as u64
            } else if k == ADDR_VIRTUAL {
                p.0.virt as u64
            } else {
                p.1.limbs@[k - VALUE_START] as u64
            },
    )
}

/// The CTL tuple a snapshot pair stands for: context, segment, offset, then
/// the eight value limbs.
pub open spec fn tuple_of_pair(p: (MemoryAddress, MemValue)) -> Seq<u64> {
    seq![p.0.context as u64, p.0.segment as u64, p.0.virt as u64] + Seq::new(
        VALUE_LIMBS as nat,
        |j: int| p.1.limbs@[j] as u64,
    )
}

/// The CTL columns this table exposes: the propagated address and the value
/// limbs, each a column of the table itself.
pub open spec fn ctl_data_spec() -> Seq<CtlColumn> {
    Seq::new(11, |k: int| CtlColumn::Single((k + 1) as usize))
}

/// The CTL filter of this table.
pub open spec fn ctl_filter_spec() -> CtlFilter {
    CtlFilter { column: FILTER }
}

/// The CTL columns with which this table impersonates main-memory rows: a
/// synthesized `is_read = 0` constant, the address, the value limbs, and a
/// synthesized `timestamp = 0` constant.
pub open spec fn ctl_data_memory_spec() -> Seq<CtlColumn> {
    Seq::new(
        13,
        |k: int|
            if k == 0 {
                CtlColumn::Constant(0u64)
            } else if k <= 11 {
                CtlColumn::Single(k as usize)
            } else {
                CtlColumn::Constant(0u64)
            },
    )
}

/// The columns of the propagated-address/value CTL tuple: the address, then
/// the value in limbs.
pub fn ctl_data() -> (r: Vec<CtlColumn>)
    ensures
        r@ == ctl_data_spec(),
        r@.len() == 3 + VALUE_LIMBS,
{
    let mut r: Vec<CtlColumn> = Vec::new();
    let mut k: usize = 0;
    while k < 11
        invariant
            k <= 11,
            r@.len() == k,
            forall|i: int| 0 <= i < k ==> r@[i] == CtlColumn::Single((i + 1) as usize),
        decreases 11 - k,
    {
        r.push(CtlColumn::Single(k + 1));
        k = k + 1;
    }
    proof {
        assert(r@ =~= ctl_data_spec());
    }
    r
}

/// The CTL filter for this table's rows.
pub fn ctl_filter() -> (r: CtlFilter)
    ensures
        r == ctl_filter_spec(),
{
    CtlFilter { column: FILTER }
}

/// The columns of the synthesized-read CTL tuple toward the main memory
/// table: constants force `is_read = 0` and `timestamp = 0` on rows this
/// table never literally executed.
pub fn ctl_data_memory() -> (r: Vec<CtlColumn>)
    ensures
        r@ == ctl_data_memory_spec(),
        r@.len() == ctl_data_spec().len() + 2,
{
    let mut r: Vec<CtlColumn> = Vec::new();
    r.push(CtlColumn::Constant(0u64));
    let mut k: usize = 1;
    while k < 12
        invariant
            1 <= k <= 12,
            r@.len() == k,
            r@[0] == CtlColumn::Constant(0u64),
            forall|i: int| 1 <= i < k ==> r@[i] == CtlColumn::Single(i as usize),
        decreases 12 - k,
    {
        r.push(CtlColumn::Single(k));
        k = k + 1;
    }
    r.push(CtlColumn::Constant(0u64));
    proof {
        assert(r@ =~= ctl_data_memory_spec());
    }
    r
}

/// Converts a snapshot of memory pairs into the table's rows, one active row
/// per pair, in order.
pub fn mem_before_values_to_rows(mem_before_values: &Vec<(MemoryAddress, MemValue)>) -> (r: Vec<
    Vec<u64>,
>)
    ensures
        r@.len() == mem_before_values@.len(),
        forall|i: int|
            0 <= i < r@.len() ==> #[trigger] r@[i]@ == row_of_pair(mem_before_values@[i]),
        forall|i: int| 0 <= i < r@.len() ==> #[trigger] r@[i]@.len() == NUM_COLUMNS,
{
    let mut r: Vec<Vec<u64>> = Vec::new();
    let mut i: usize = 0;
    while i < mem_before_values.len()
        invariant
            i <= mem_before_values@.len(),
            r@.len() == i,
            forall|k: int|
                0 <= k < i ==> #[trigger] r@[k]@ == row_of_pair(mem_before_values@[k]),
        decreases mem_before_values@.len() - i,
    {
        let pair = mem_before_values[i];
        let mut row: Vec<u64> = Vec::new();
        row.push(1u64);
        row.push(pair.0.context as u64);
        row.push(pair.0.segment as u64);
        row.push(pair.0.virt as u64);
        let mut j: usize = 0;
        while j < VALUE_LIMBS
            invariant
                j <= VALUE_LIMBS,
                row@.len() == VALUE_START + j,
                row@[FILTER as int] == 1u64,
                row@[ADDR_CONTEXT as int] == pair.0.context as u64,
                row@[ADDR_SEGMENT as int] == pair.0.segment as u64,
                row@[ADDR_VIRTUAL as int] == pair.0.virt as u64,
                forall|m: int|
                    0 <= m < j ==> row@[VALUE_START + m] == pair.1.limbs@[m] as u64,
            decreases VALUE_LIMBS - j,
        {
            row.push(pair.1.limbs[j] as u64);
            j = j + 1;
        }
        proof {
            assert(row@ =~= row_of_pair(mem_before_values@[i as int]));
        }
        r.push(row);
        i = i + 1;
    }
    r
}

/// The structure of the memory-continuation table generator. The table has
/// no constraints of its own; it only exposes its rows through the CTL.
#[derive(Clone, Copy, PartialEq, Eq, Structural, Debug, Default)]
pub struct MemoryContinuationStark;

impl MemoryContinuationStark {
    /// Shapes the given rows (initial or final memory values handed over at
    /// a segment boundary) into the table's column-major form: the rows are
    /// padded with all-zero rows to a power-of-two count of at least
    /// `MIN_TRACE_ROWS`, then transposed, one polynomial per column.
    pub fn generate_trace(&self, final_values: Vec<Vec<u64>>) -> (r: Vec<PolynomialValues>)
        requires
            final_values@.len() <= MAX_TRACE_ROWS,
            forall|i: int|
                0 <= i < final_values@.len() ==> #[trigger] final_values@[i]@.len()
                    == NUM_COLUMNS,
        ensures
            r@.len() == NUM_COLUMNS,
            forall|j: int|
                0 <= j < NUM_COLUMNS ==> #[trigger] r@[j].values@.len() == padded_row_count(
                    final_values@.len(),
                ),
            is_power_of_two(padded_row_count(final_values@.len())),
            padded_row_count(final_values@.len()) >= MIN_TRACE_ROWS,
            forall|i: int, j: int|
                0 <= i < final_values@.len() && 0 <= j < NUM_COLUMNS ==> r@[j].values@[i]
                    == final_values@[i]@[j],
            forall|i: int, j: int|
                final_values@.len() <= i < padded_row_count(final_values@.len()) && 0 <= j
                    < NUM_COLUMNS ==> r@[j].values@[i] == 0u64,
    {
        crate::shaping::shape_columns(final_values, NUM_COLUMNS)
    }
}

/// Every row built from a snapshot pair is filter-active, and its CTL tuples
/// are exactly the pair's own data: the propagated-address flavor extracts
/// `(context, segment, virt, limbs)`, and the synthesized-read flavor wraps
/// the same tuple in the forced `is_read = 0` and `timestamp = 0` constants.
/// In particular the multiset of tuples on filter-active rows equals the
/// multiset of input pairs' tuples: nothing is duplicated, nothing is lost.
pub proof fn lemma_continuation_ctl_exact(pairs: Seq<(MemoryAddress, MemValue)>)
    ensures
        pairs.map_values(|p: (MemoryAddress, MemValue)| row_of_pair(p)).filter(
            |row: Seq<u64>| row[ctl_filter_spec().column as int] == 1u64,
        ) == pairs.map_values(|p: (MemoryAddress, MemValue)| row_of_pair(p)),
        active_ctl_tuples(
            ctl_data_spec(),
            ctl_filter_spec(),
            pairs.map_values(|p: (MemoryAddress, MemValue)| row_of_pair(p)),
        ) == pairs.map_values(|p: (MemoryAddress, MemValue)| tuple_of_pair(p)),
        active_ctl_tuples(
            ctl_data_spec(),
            ctl_filter_spec(),
            pairs.map_values(|p: (MemoryAddress, MemValue)| row_of_pair(p)),
        ).to_multiset() == pairs.map_values(
            |p: (MemoryAddress, MemValue)| tuple_of_pair(p),
        ).to_multiset(),
        active_ctl_tuples(
            ctl_data_memory_spec(),
            ctl_filter_spec(),
            pairs.map_values(|p: (MemoryAddress, MemValue)| row_of_pair(p)),
        ) == pairs.map_values(
            |p: (MemoryAddress, MemValue)| seq![0u64] + tuple_of_pair(p) + seq![0u64],
        ),
    decreases pairs.len(),
{
    let rows = pairs.map_values(|p: (MemoryAddress, MemValue)| row_of_pair(p));
    lemma_filter_all_active(rows, pairs);
    let lhs1 = rows.map_values(|row: Seq<u64>| eval_ctl_columns(ctl_data_spec(), row));
    let rhs1 = pairs.map_values(|p: (MemoryAddress, MemValue)| tuple_of_pair(p));
    let lhs2 = rows.map_values(|row: Seq<u64>| eval_ctl_columns(ctl_data_memory_spec(), row));
    let rhs2 = pairs.map_values(
        |p: (MemoryAddress, MemValue)| seq![0u64] + tuple_of_pair(p) + seq![0u64],
    );
    assert forall|i: int| 0 <= i < pairs.len() implies lhs1[i] == rhs1[i] by {
        let p = pairs[i];
        assert(eval_ctl_columns(ctl_data_spec(), row_of_pair(p)) =~= tuple_of_pair(p));
    }
    assert forall|i: int| 0 <= i < pairs.len() implies lhs2[i] == rhs2[i] by {
        let p = pairs[i];
        assert(eval_ctl_columns(ctl_data_memory_spec(), row_of_pair(p)) =~= seq![0u64]
            + tuple_of_pair(p) + seq![0u64]);
    }
    assert(lhs1 =~= rhs1);
    assert(lhs2 =~= rhs2);
}

/// Rows built from snapshot pairs all pass the filter, so filtering keeps
/// them all.
proof fn lemma_filter_all_active(rows: Seq<Seq<u64>>, pairs: Seq<(MemoryAddress, MemValue)>)
    requires
        rows == pairs.map_values(|p: (MemoryAddress, MemValue)| row_of_pair(p)),
    ensures
        rows.filter(|row: Seq<u64>| row[ctl_filter_spec().column as int] == 1u64) == rows,
    decreases rows.len(),
{
    reveal(Seq::filter);
    let active = |row: Seq<u64>| row[ctl_filter_spec().column as int] == 1u64;
    if rows.len() == 0 {
        assert(rows.filter(active) =~= rows);
    } else {
        assert(pairs.drop_last().map_values(|p: (MemoryAddress, MemValue)| row_of_pair(p))
            =~= rows.drop_last());
        lemma_filter_all_active(rows.drop_last(), pairs.drop_last());
        assert(active(rows.last())) by {
            assert(rows.last() == row_of_pair(pairs.last()));
        }
        assert(rows.filter(active) == rows.drop_last().filter(active).push(rows.last()));
        assert(rows.drop_last().filter(active) == rows.drop_last());
        assert(rows.drop_last().push(rows.last()) =~= rows);
    }
}

} // verus!
