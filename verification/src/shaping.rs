//! Trace shaping: padding a row-major trace buffer to a power-of-two number
//! of rows (at least `MIN_TRACE_ROWS`) with all-zero rows, and transposing it
//! into column-major form.

use vstd::prelude::*;

verus! {

/// Every shaped table has at least this many rows.
pub const MIN_TRACE_ROWS: usize = 16;

/// One column of a shaped trace table, read as the evaluations of a
/// polynomial over the row domain.
#[derive(Clone, PartialEq, Eq, Debug)]
pub struct PolynomialValues {
    pub values: Vec<u64>,
}

/// Row counts are padded with headroom for doubling; this bound keeps the
/// doubling search free of overflow whatever the machine's word size.
pub const MAX_TRACE_ROWS: usize = 0x4000_0000;

/// Whether `n` is a power of two (so 0 is not one).
pub open spec fn is_power_of_two(n: nat) -> bool
    decreases n,
{
    if n == 0 {
        false
    } else if n == 1 {
        true
    } else {
        n % 2 == 0 && is_power_of_two(n / 2)
    }
}

/// Doubling search for the least power of two that is at least `n`,
/// starting from the power of two `p`.
pub open spec fn next_pow2_from(p: nat, n: nat) -> nat
    decreases (if p <= n { n - p } else { 0 }) when p >= 1
{
    if p >= n {
        p
    } else {
        next_pow2_from(2 * p, n)
    }
}

/// The least power of two that is at least `n` (and at least 1).
pub open spec fn next_pow2(n: nat) -> nat {
    next_pow2_from(1, n)
}

/// The row count of a shaped table whose buffer held `n` rows.
pub open spec fn padded_row_count(n: nat) -> nat {
    if next_pow2(n) >= MIN_TRACE_ROWS {
        next_pow2(n)
    } else {
        MIN_TRACE_ROWS as nat
    }
}

proof fn lemma_next_pow2_from_props(p: nat, n: nat)
    requires
        p >= 1,
        is_power_of_two(p),
    ensures
        next_pow2_from(p, n) >= p,
        next_pow2_from(p, n) >= n,
        is_power_of_two(next_pow2_from(p, n)),
        n > p ==> next_pow2_from(p, n) < 2 * n,
    decreases (if p <= n { n - p } else { 0 }),
{
    if p >= n {
    } else {
        assert(is_power_of_two(2 * p)) by {
            assert((2 * p) % 2 == 0);
            assert((2 * p) / 2 == p);
        }
        lemma_next_pow2_from_props(2 * p, n);
    }
}

/// The least power of two at or above `n` is a power of two, is at least `n`,
/// and (for `n >= 2`) is below `2 * n`.
pub proof fn lemma_next_pow2_props(n: nat)
    ensures
        next_pow2(n) >= 1,
        next_pow2(n) >= n,
        is_power_of_two(next_pow2(n)),
        n >= 2 ==> next_pow2(n) < 2 * n,
{
    lemma_next_pow2_from_props(1, n);
}

/// A power of two is reached exactly by the doubling search that starts at 1:
/// the least power of two at or above a power of two is itself.
proof fn lemma_next_pow2_of_pow2(p: nat, n: nat)
    requires
        p >= 1,
        is_power_of_two(p),
        is_power_of_two(n),
        p <= n,
    ensures
        next_pow2_from(p, n) == n,
    decreases (if p <= n { n - p } else { 0 }),
{
    if p >= n {
        assert(p == n) by {
            lemma_pow2_le(n, p);
        }
    } else {
        assert(is_power_of_two(2 * p)) by {
            assert((2 * p) % 2 == 0);
            assert((2 * p) / 2 == p);
        }
        assert(2 * p <= n) by {
            lemma_pow2_lt(p, n);
        }
        lemma_next_pow2_of_pow2(2 * p, n);
    }
}

/// A power of two strictly below another power of two is at most half of
/// it.
proof fn lemma_pow2_lt(a: nat, b: nat)
    requires
        is_power_of_two(a),
        is_power_of_two(b),
        a < b,
    ensures
        2 * a <= b,
    decreases a,
{
    if a == 1 {
        assert(b >= 2);
        assert(b % 2 == 0);
    } else {
        assert(a % 2 == 0 && is_power_of_two(a / 2));
        assert(b >= 2);
        assert(b % 2 == 0 && is_power_of_two(b / 2));
        lemma_pow2_lt(a / 2, b / 2);
    }
}

proof fn lemma_pow2_le(a: nat, b: nat)
    requires
        is_power_of_two(a),
        is_power_of_two(b),
        a <= b,
        b <= a,
    ensures
        a == b,
{
}

/// Shaping is idempotent at the level of row counts: a buffer whose row count
/// is already a power of two and at least the minimum is not padded further.
pub proof fn lemma_padding_idempotent(n: nat)
    requires
        is_power_of_two(n),
        n >= MIN_TRACE_ROWS,
    ensures
        padded_row_count(n) == n,
{
    lemma_next_pow2_of_pow2(1, n);
}

/// Shaping is idempotent at the level of whole buffers: a buffer whose row
/// count is already a power of two and at least the minimum gets no further
/// rows appended by padding.
pub proof fn lemma_pad_spec_idempotent(rows: Seq<Seq<u64>>, ncols: nat)
    requires
        is_power_of_two(rows.len()),
        rows.len() >= MIN_TRACE_ROWS,
    ensures
        pad_spec(rows, ncols) == rows,
{
    lemma_padding_idempotent(rows.len());
    assert(pad_spec(rows, ncols) =~= rows);
}

/// The shaped row count is always a power of two and at least the minimum.
pub proof fn lemma_padded_row_count_props(n: nat)
    ensures
        padded_row_count(n) >= MIN_TRACE_ROWS,
        padded_row_count(n) >= n,
        is_power_of_two(padded_row_count(n)),
{
    lemma_next_pow2_props(n);
    if next_pow2(n) < MIN_TRACE_ROWS {
        assert(padded_row_count(n) == MIN_TRACE_ROWS);
        assert(is_power_of_two(1));
        assert(is_power_of_two(2));
        assert(is_power_of_two(4));
        assert(is_power_of_two(8));
        assert(is_power_of_two(16));
    }
}

/// The least power of two at or above `n`, computed by doubling.
pub fn next_power_of_two(n: usize) -> (r: usize)
    requires
        n <= MAX_TRACE_ROWS,
    ensures
        r == next_pow2(n as nat),
{
    let mut p: usize = 1;
    while p < n
        invariant
            1 <= p,
            p < 2 * MAX_TRACE_ROWS,
            n <= MAX_TRACE_ROWS,
            next_pow2(n as nat) == next_pow2_from(p as nat, n as nat),
        decreases (if p <= n { n - p } else { 0 }),
    {
        p = p * 2;
    }
    p
}

/// The row count after padding a buffer of `n` rows.
pub fn padded_rows(n: usize) -> (r: usize)
    requires
        n <= MAX_TRACE_ROWS,
    ensures
        r == padded_row_count(n as nat),
{
    let p = next_power_of_two(n);
    if p >= MIN_TRACE_ROWS {
        p
    } else {
        MIN_TRACE_ROWS
    }
}

/// An all-zero row of width `ncols`.
pub open spec fn zero_row(ncols: nat) -> Seq<u64> {
    Seq::new(ncols, |j: int| 0u64)
}

/// The padded buffer: the rows given, then all-zero rows up to the padded
/// row count.
pub open spec fn pad_spec(rows: Seq<Seq<u64>>, ncols: nat) -> Seq<Seq<u64>> {
    rows + Seq::new((padded_row_count(rows.len()) - rows.len()) as nat, |i: int| zero_row(ncols))
}

/// The column-major form of a row-major buffer of width `ncols`.
pub open spec fn transpose_spec(rows: Seq<Seq<u64>>, ncols: nat) -> Seq<Seq<u64>> {
    Seq::new(ncols, |j: int| Seq::new(rows.len(), |i: int| rows[i][j]))
}

/// The shaped table of a row-major buffer: padded to the power-of-two row
/// count, then transposed into `ncols` columns.
pub open spec fn shaped_spec(rows: Seq<Seq<u64>>, ncols: nat) -> Seq<Seq<u64>> {
    transpose_spec(pad_spec(rows, ncols), ncols)
}

/// Builds one all-zero row of width `ncols`.
pub fn make_zero_row(ncols: usize) -> (r: Vec<u64>)
    ensures
        r@ == zero_row(ncols as nat),
{
    let mut r: Vec<u64> = Vec::new();
    let mut j: usize = 0;
    while j < ncols
        invariant
            j <= ncols,
            r@.len() == j,
            forall|k: int| 0 <= k < j ==> r@[k] == 0u64,
        decreases ncols - j,
    {
        r.push(0u64);
        j = j + 1;
    }
    proof {
        assert(r@ =~= zero_row(ncols as nat));
    }
    r
}

/// Appends all-zero rows to `rows` until its length is a power of two and at
/// least the minimum; a buffer already of such a length is left unchanged.
pub fn pad_to_power_of_two(rows: &mut Vec<Vec<u64>>, ncols: usize)
    requires
        old(rows)@.len() <= MAX_TRACE_ROWS,
    ensures
        final(rows)@.len() == padded_row_count(old(rows)@.len()),
        forall|i: int| 0 <= i < old(rows)@.len() ==> final(rows)@[i] == old(rows)@[i],
        forall|i: int|
            old(rows)@.len() <= i < final(rows)@.len() ==> final(rows)@[i]@ == zero_row(
                ncols as nat,
            ),
        final(rows)@.map_values(|r: Vec<u64>| r@) == pad_spec(
            old(rows)@.map_values(|r: Vec<u64>| r@),
            ncols as nat,
        ),
{
    let target = padded_rows(rows.len());
    proof {
        lemma_padded_row_count_props(rows@.len());
    }
    while rows.len() < target
        invariant
            old(rows)@.len() <= rows@.len(),
            rows@.len() <= target,
            target == padded_row_count(old(rows)@.len()),
            forall|i: int| 0 <= i < old(rows)@.len() ==> rows@[i] == old(rows)@[i],
            forall|i: int|
                old(rows)@.len() <= i < rows@.len() ==> rows@[i]@ == zero_row(ncols as nat),
        decreases target - rows@.len(),
    {
        let z = make_zero_row(ncols);
        rows.push(z);
    }
    proof {
        let a = rows@.map_values(|r: Vec<u64>| r@);
        let b = pad_spec(old(rows)@.map_values(|r: Vec<u64>| r@), ncols as nat);
        assert forall|i: int| 0 <= i < a.len() implies a[i] == b[i] by {
            if i < old(rows)@.len() {
                assert(rows@[i] == old(rows)@[i]);
            } else {
                assert(rows@[i]@ == zero_row(ncols as nat));
            }
        }
        assert(a =~= b);
    }
}

/// Shapes a row-major trace buffer into its table: pads with all-zero rows
/// to a power-of-two row count of at least `MIN_TRACE_ROWS`, transposes, and
/// wraps each column as one polynomial's values.
pub fn shape_columns(rows: Vec<Vec<u64>>, ncols: usize) -> (r: Vec<PolynomialValues>)
    requires
        rows@.len() <= MAX_TRACE_ROWS,
        forall|i: int| 0 <= i < rows@.len() ==> #[trigger] rows@[i]@.len() == ncols,
    ensures
        r@.map_values(|p: PolynomialValues| p.values@) == shaped_spec(
            rows@.map_values(|v: Vec<u64>| v@),
            ncols as nat,
        ),
        r@.len() == ncols,
        forall|j: int|
            0 <= j < ncols ==> #[trigger] r@[j].values@.len() == padded_row_count(rows@.len()),
        is_power_of_two(padded_row_count(rows@.len())),
        padded_row_count(rows@.len()) >= MIN_TRACE_ROWS,
        forall|i: int, j: int|
            0 <= i < rows@.len() && 0 <= j < ncols ==> r@[j].values@[i] == rows@[i]@[j],
        forall|i: int, j: int|
            rows@.len() <= i < padded_row_count(rows@.len()) && 0 <= j < ncols ==> r@[
                j
            ].values@[i] == 0u64,
{
    let ghost rows0 = rows@.map_values(|v: Vec<u64>| v@);
    let n = rows.len();
    let mut padded = rows;
    pad_to_power_of_two(&mut padded, ncols);
    let cols = transpose(&padded, ncols);
    proof {
        lemma_padded_row_count_props(n as nat);
    }
    let mut r: Vec<PolynomialValues> = Vec::new();
    let mut j: usize = 0;
    while j < cols.len()
        invariant
            j <= cols@.len(),
            r@.len() == j,
            forall|k: int| 0 <= k < j ==> #[trigger] r@[k].values@ == cols@[k]@,
        decreases cols@.len() - j,
    {
        let c = cols[j].clone();
        proof {
            assert(c@ == cols@[j as int]@);
        }
        r.push(PolynomialValues { values: c });
        j = j + 1;
    }
    proof {
        let lhs = r@.map_values(|p: PolynomialValues| p.values@);
        let rhs = shaped_spec(rows0, ncols as nat);
        assert(padded@.map_values(|v: Vec<u64>| v@) == pad_spec(rows0, ncols as nat));
        assert(cols@.map_values(|c: Vec<u64>| c@) == transpose_spec(
            padded@.map_values(|v: Vec<u64>| v@),
            ncols as nat,
        ));
        assert forall|k: int| 0 <= k < lhs.len() implies lhs[k] == rhs[k] by {
            assert(r@[k].values@ == cols@[k]@);
            assert(cols@.map_values(|c: Vec<u64>| c@)[k] == cols@[k]@);
        }
        assert(lhs =~= rhs);
    }
    r
}

/// Transposes a row-major buffer (every row of width `ncols`) into
/// column-major form.
pub fn transpose(rows: &Vec<Vec<u64>>, ncols: usize) -> (cols: Vec<Vec<u64>>)
    requires
        forall|i: int| 0 <= i < rows@.len() ==> rows@[i]@.len() == ncols,
    ensures
        cols@.len() == ncols,
        forall|j: int| 0 <= j < ncols ==> cols@[j]@.len() == rows@.len(),
        forall|i: int, j: int|
            0 <= i < rows@.len() && 0 <= j < ncols ==> cols@[j]@[i] == rows@[i]@[j],
        cols@.map_values(|c: Vec<u64>| c@) == transpose_spec(rows@.map_values(|r: Vec<u64>| r@), ncols as nat),
{
    let mut cols: Vec<Vec<u64>> = Vec::new();
    let mut j: usize = 0;
    while j < ncols
        invariant
            j <= ncols,
            cols@.len() == j,
            forall|i: int| 0 <= i < rows@.len() ==> rows@[i]@.len() == ncols,
            forall|jj: int| 0 <= jj < j ==> cols@[jj]@.len() == rows@.len(),
            forall|i: int, jj: int|
                0 <= i < rows@.len() && 0 <= jj < j ==> cols@[jj]@[i] == rows@[i]@[jj],
        decreases ncols - j,
    {
        let mut col: Vec<u64> = Vec::new();
        let mut i: usize = 0;
        while i < rows.len()
            invariant
                i <= rows@.len(),
                col@.len() == i,
                j < ncols,
                forall|ii: int| 0 <= ii < rows@.len() ==> rows@[ii]@.len() == ncols,
                forall|ii: int| 0 <= ii < i ==> col@[ii] == rows@[ii]@[j as int],
            decreases rows@.len() - i,
        {
            col.push(rows[i][j]);
            i = i + 1;
        }
        cols.push(col);
        j = j + 1;
    }
    proof {
        let a = cols@.map_values(|c: Vec<u64>| c@);
        let b = transpose_spec(rows@.map_values(|r: Vec<u64>| r@), ncols as nat);
        assert forall|jj: int| 0 <= jj < a.len() implies a[jj] == b[jj] by {
            assert(a[jj] =~= b[jj]);
        }
        assert(a =~= b);
    }
    cols
}

} // verus!
