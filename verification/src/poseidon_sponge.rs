//! Column-layout contract for the Poseidon-sponge table: a named record of
//! the table's fields, a lossless bidirectional conversion between the record
//! and a flat row of `NUM_POSEIDON_SPONGE_COLUMNS` values, a column map that
//! holds each field's column index, and the per-row invariant tying the
//! one-hot final-length vector to the full-block flag.

use vstd::prelude::*;

verus! {

/// Sponge rate: elements absorbed per permutation call.
pub const POSEIDON_SPONGE_RATE: usize = 8;

/// Sponge width: the full permutation state size.
pub const POSEIDON_SPONGE_WIDTH: usize = 12;

/// Total scalar fields of the record below: 7 scalars, two rate-sized
/// vectors, and two (rate + width)-sized vectors.
pub const NUM_POSEIDON_SPONGE_COLUMNS: usize = 63;

/// The named-field view of one Poseidon-sponge table row, holding values of
/// type `T`: row values for traces, column indices for the column map.
#[derive(Clone, PartialEq, Eq, Debug)]
pub struct PoseidonSpongeColumnsView<T> {
    /// 1 if this row absorbs a full input block (every element an input
    /// element, none padding); 0 on a final-block row.
    pub is_full_input_block: T,
    /// The base address the input block is read from.
    pub context: T,
    pub segment: T,
    pub virt: T,
    /// The timestamp at which the inputs are read from memory.
    pub timestamp: T,
    /// The length of the whole original input.
    pub len: T,
    /// How many input elements were absorbed before this block.
    pub already_absorbed_elements: T,
    /// On a final-block row, entry `i` is 1 exactly when the final chunk has
    /// length `i` (that is, `len - already_absorbed_elements == i`); on a
    /// full-block row all entries are 0. Rate-sized.
    pub is_final_input_len: Vec<T>,
    /// The block being absorbed. Rate-sized.
    pub block: Vec<T>,
    /// The permutation's input state. (Rate + width)-sized.
    pub input_state: Vec<T>,
    /// The permutation's output state. (Width + rate)-sized.
    pub updated_digest: Vec<T>,
}

impl<T> PoseidonSpongeColumnsView<T> {
    /// The record's vector-valued fields have their declared sizes, so the
    /// record holds exactly `NUM_POSEIDON_SPONGE_COLUMNS` scalars.
    pub open spec fn wf(self) -> bool {
        &&& self.is_final_input_len@.len() == POSEIDON_SPONGE_RATE
        &&& self.block@.len() == POSEIDON_SPONGE_RATE
        &&& self.input_state@.len() == POSEIDON_SPONGE_RATE + POSEIDON_SPONGE_WIDTH
        &&& self.updated_digest@.len() == POSEIDON_SPONGE_WIDTH + POSEIDON_SPONGE_RATE
    }

    /// The flat row this record stands for: every field in declaration
    /// order, vector fields inline.
    pub open spec fn flatten(self) -> Seq<T> {
        seq![
            self.is_full_input_block,
            self.context,
            self.segment,
            self.virt,
            self.timestamp,
            self.len,
            self.already_absorbed_elements,
        ] + self.is_final_input_len@ + self.block@ + self.input_state@ + self.updated_digest@
    }
}

/// Copies `a[start .. start + len]` into a fresh vector.
fn copy_subrange<T: Copy>(a: &Vec<T>, start: usize, len: usize) -> (r: Vec<T>)
    requires
        start + len <= a@.len(),
    ensures
        r@ == a@.subrange(start as int, start as int + len as int),
{
    let total = a.len();
    let mut r: Vec<T> = Vec::new();
    let mut i: usize = 0;
    while i < len
        invariant
            i <= len,
            start + len <= total,
            total == a@.len(),
            r@.len() == i,
            forall|k: int| 0 <= k < i ==> r@[k] == a@[start + k],
        decreases len - i,
    {
        r.push(a[start + i]);
        i = i + 1;
    }
    proof {
        assert(r@ =~= a@.subrange(start as int, start as int + len as int));
    }
    r
}

/// Appends all of `src` to `out`.
fn push_all<T: Copy>(out: &mut Vec<T>, src: &Vec<T>)
    ensures
        final(out)@ == old(out)@ + src@,
{
    let mut i: usize = 0;
    while i < src.len()
        invariant
            i <= src@.len(),
            out@ == old(out)@ + src@.take(i as int),
        decreases src@.len() - i,
    {
        let x = src[i];
        out.push(x);
        i = i + 1;
        proof {
            assert(old(out)@ + src@.take(i as int) =~= (old(out)@ + src@.take(i - 1)).push(
                src@[i - 1],
            ));
        }
    }
    proof {
        assert(src@.take(src@.len() as int) =~= src@);
    }
}

/// The vector `[start, start + 1, ..., start + len - 1]`.
fn range_vec(start: usize, len: usize) -> (r: Vec<usize>)
    requires
        start + len <= usize::MAX,
    ensures
        r@.len() == len,
        forall|k: int| 0 <= k < len ==> r@[k] == start + k,
{
    let mut r: Vec<usize> = Vec::new();
    let mut i: usize = 0;
    while i < len
        invariant
            i <= len,
            start + len <= usize::MAX,
            r@.len() == i,
            forall|k: int| 0 <= k < i ==> r@[k] == start + k,
        decreases len - i,
    {
        r.push(start + i);
        i = i + 1;
    }
    r
}

impl<T: Copy> PoseidonSpongeColumnsView<T> {
    /// Unpacks a flat `NUM_POSEIDON_SPONGE_COLUMNS`-sized row into the named
    /// record; `flatten` of the result is exactly the row given.
    pub fn from_flat(a: &Vec<T>) -> (r: PoseidonSpongeColumnsView<T>)
        requires
            a@.len() == NUM_POSEIDON_SPONGE_COLUMNS,
        ensures
            r.wf(),
            r.flatten() == a@,
    {
        let r = PoseidonSpongeColumnsView {
            is_full_input_block: a[0],
            context: a[1],
            segment: a[2],
            virt: a[3],
            timestamp: a[4],
            len: a[5],
            already_absorbed_elements: a[6],
            is_final_input_len: copy_subrange(a, 7, 8),
            block: copy_subrange(a, 15, 8),
            input_state: copy_subrange(a, 23, 20),
            updated_digest: copy_subrange(a, 43, 20),
        };
        proof {
            assert(r.flatten() =~= a@);
        }
        r
    }

    /// Packs the named record back into its flat row.
    pub fn to_flat(&self) -> (r: Vec<T>)
        requires
            self.wf(),
        ensures
            r@ == self.flatten(),
            r@.len() == NUM_POSEIDON_SPONGE_COLUMNS,
    {
        let mut r: Vec<T> = Vec::new();
        r.push(self.is_full_input_block);
        r.push(self.context);
        r.push(self.segment);
        r.push(self.virt);
        r.push(self.timestamp);
        r.push(self.len);
        r.push(self.already_absorbed_elements);
        push_all(&mut r, &self.is_final_input_len);
        push_all(&mut r, &self.block);
        push_all(&mut r, &self.input_state);
        push_all(&mut r, &self.updated_digest);
        proof {
            assert(r@ =~= self.flatten());
        }
        r
    }
}

/// The column map: the record whose every field holds that field's own
/// column index. Flattened, it is exactly `0, 1, ..., 62`: no two fields
/// share an index and every index in range is used exactly once.
pub fn poseidon_sponge_col_map() -> (m: PoseidonSpongeColumnsView<usize>)
    ensures
        m.wf(),
        forall|i: int|
            0 <= i < NUM_POSEIDON_SPONGE_COLUMNS ==> #[trigger] m.flatten()[i] == i,
{
    let m = PoseidonSpongeColumnsView {
        is_full_input_block: 0usize,
        context: 1,
        segment: 2,
        virt: 3,
        timestamp: 4,
        len: 5,
        already_absorbed_elements: 6,
        is_final_input_len: range_vec(7, 8),
        block: range_vec(15, 8),
        input_state: range_vec(23, 20),
        updated_digest: range_vec(43, 20),
    };
    proof {
        assert forall|i: int| 0 <= i < NUM_POSEIDON_SPONGE_COLUMNS implies #[trigger] m.flatten()[i]
            == i by {
            assert(m.flatten().len() == 63);
        }
    }
    m
}

/// The per-row invariant of the Poseidon-sponge table: on a full-input-block
/// row the one-hot final-length vector is all zero; on a final-block row it
/// is 1 exactly at index `len - already_absorbed_elements` and 0 elsewhere.
pub open spec fn sponge_row_wf(v: PoseidonSpongeColumnsView<u64>) -> bool {
    &&& v.wf()
    &&& (v.is_full_input_block == 1 || v.is_full_input_block == 0)
    &&& (v.is_full_input_block == 1 ==> forall|i: int|
        0 <= i < POSEIDON_SPONGE_RATE ==> v.is_final_input_len@[i] == 0u64)
    &&& (v.is_full_input_block == 0 ==> {
        &&& v.already_absorbed_elements <= v.len
        &&& v.len - v.already_absorbed_elements < POSEIDON_SPONGE_RATE
        &&& forall|i: int|
            0 <= i < POSEIDON_SPONGE_RATE ==> v.is_final_input_len@[i] == (
            if i == v.len - v.already_absorbed_elements {
                1u64
            } else {
                0u64
            })
    })
}

/// Builds the row of a full input block: `is_full_input_block` is 1 and the
/// one-hot final-length vector is all zero.
pub fn full_input_block_row(
    context: u64,
    segment: u64,
    virt: u64,
    timestamp: u64,
    len: u64,
    already_absorbed_elements: u64,
    block: Vec<u64>,
    input_state: Vec<u64>,
    updated_digest: Vec<u64>,
) -> (r: PoseidonSpongeColumnsView<u64>)
    requires
        block@.len() == POSEIDON_SPONGE_RATE,
        input_state@.len() == POSEIDON_SPONGE_RATE + POSEIDON_SPONGE_WIDTH,
        updated_digest@.len() == POSEIDON_SPONGE_WIDTH + POSEIDON_SPONGE_RATE,
    ensures
        sponge_row_wf(r),
        r.is_full_input_block == 1u64,
        r.context == context,
        r.segment == segment,
        r.virt == virt,
        r.timestamp == timestamp,
        r.len == len,
        r.already_absorbed_elements == already_absorbed_elements,
        r.block == block,
        r.input_state == input_state,
        r.updated_digest == updated_digest,
{
    let mut is_final: Vec<u64> = Vec::new();
    let mut i: usize = 0;
    while i < POSEIDON_SPONGE_RATE
        invariant
            i <= POSEIDON_SPONGE_RATE,
            is_final@.len() == i,
            forall|k: int| 0 <= k < i ==> is_final@[k] == 0u64,
        decreases POSEIDON_SPONGE_RATE - i,
    {
        is_final.push(0u64);
        i = i + 1;
    }
    PoseidonSpongeColumnsView {
        is_full_input_block: 1u64,
        context,
        segment,
        virt,
        timestamp,
        len,
        already_absorbed_elements,
        is_final_input_len: is_final,
        block,
        input_state,
        updated_digest,
    }
}

/// Builds the row of a final block: `is_full_input_block` is 0 and the
/// one-hot final-length vector is 1 exactly at `len - already_absorbed_elements`.
pub fn final_block_row(
    context: u64,
    segment: u64,
    virt: u64,
    timestamp: u64,
    len: u64,
    already_absorbed_elements: u64,
    block: Vec<u64>,
    input_state: Vec<u64>,
    updated_digest: Vec<u64>,
) -> (r: PoseidonSpongeColumnsView<u64>)
    requires
        already_absorbed_elements <= len,
        len - already_absorbed_elements < POSEIDON_SPONGE_RATE,
        block@.len() == POSEIDON_SPONGE_RATE,
        input_state@.len() == POSEIDON_SPONGE_RATE + POSEIDON_SPONGE_WIDTH,
        updated_digest@.len() == POSEIDON_SPONGE_WIDTH + POSEIDON_SPONGE_RATE,
    ensures
        sponge_row_wf(r),
        r.is_full_input_block == 0u64,
        r.context == context,
        r.segment == segment,
        r.virt == virt,
        r.timestamp == timestamp,
        r.len == len,
        r.already_absorbed_elements == already_absorbed_elements,
        r.block == block,
        r.input_state == input_state,
        r.updated_digest == updated_digest,
{
    let chunk = len - already_absorbed_elements;
    let mut is_final: Vec<u64> = Vec::new();
    let mut i: u64 = 0;
    while i < POSEIDON_SPONGE_RATE as u64
        invariant
            i <= POSEIDON_SPONGE_RATE as u64,
            is_final@.len() == i,
            chunk == len - already_absorbed_elements,
            forall|k: int|
                0 <= k < i ==> is_final@[k] == (if k == chunk { 1u64 } else { 0u64 }),
        decreases POSEIDON_SPONGE_RATE as u64 - i,
    {
        if i == chunk {
            is_final.push(1u64);
        } else {
            is_final.push(0u64);
        }
        i = i + 1;
    }
    PoseidonSpongeColumnsView {
        is_full_input_block: 0u64,
        context,
        segment,
        virt,
        timestamp,
        len,
        already_absorbed_elements,
        is_final_input_len: is_final,
        block,
        input_state,
        updated_digest,
    }
}

} // verus!
