//! Cross-table lookup (CTL) wiring: a column selection is either one of the
//! producer table's own columns or a fixed constant, and a filter names the
//! boolean column that selects the rows taking part. The STARK backend
//! asserts multiset equality of the selected tuples between two tables; this
//! module fixes which tuples those are.

use vstd::prelude::*;

verus! {

/// One selected column of a CTL tuple: a column of the table itself, or a
/// constant synthesized on every row (used when a table impersonates rows of
/// another table, forcing e.g. an `is_read` or `timestamp` it never held).
#[derive(Clone, Copy, PartialEq, Eq, Structural, Debug)]
pub enum CtlColumn {
    Single(usize),
    Constant(u64),
}

/// A CTL row filter: rows whose value in this column is 1 take part.
#[derive(Clone, Copy, PartialEq, Eq, Structural, Debug)]
pub struct CtlFilter {
    pub column: usize,
}

/// The value a CTL column selection takes on one row.
pub open spec fn eval_ctl_column(c: CtlColumn, row: Seq<u64>) -> u64 {
    match c {
        CtlColumn::Single(i) => row[i as int],
        CtlColumn::Constant(k) => k,
    }
}

/// The tuple a CTL column vector extracts from one row.
pub open spec fn eval_ctl_columns(cols: Seq<CtlColumn>, row: Seq<u64>) -> Seq<u64> {
    cols.map_values(|c: CtlColumn| eval_ctl_column(c, row))
}

/// The tuples a CTL extracts from the filter-active rows of a table.
pub open spec fn active_ctl_tuples(
    cols: Seq<CtlColumn>,
    filter: CtlFilter,
    rows: Seq<Seq<u64>>,
) -> Seq<Seq<u64>> {
    rows.filter(|row: Seq<u64>| row[filter.column as int] == 1u64).map_values(
        |row: Seq<u64>| eval_ctl_columns(cols, row),
    )
}

} // verus!
