//! The address/memory model: a memory cell is identified by a
//! (context, segment, offset) triple, holds a 256-bit value kept as eight
//! 32-bit little-endian limbs, and the memory image is a sparse mapping from
//! addresses to values that reads as zero where nothing was written.

use vstd::prelude::*;

verus! {

/// Number of 32-bit limbs in one memory value.
pub const VALUE_LIMBS: usize = 8;

/// The memory segments an address can point into.
#[derive(Clone, Copy, PartialEq, Eq, Structural, Debug)]
pub enum Segment {
    Code,
    Stack,
    MainMemory,
    CallData,
    ReturnData,
    GlobalMetadata,
    KernelGeneral,
    TrieData,
}

impl Segment {
    /// The fixed index of this segment in the column encoding.
    pub open spec fn spec_index(self) -> nat {
        match self {
            Segment::Code => 0,
            Segment::Stack => 1,
            Segment::MainMemory => 2,
            Segment::CallData => 3,
            Segment::ReturnData => 4,
            Segment::GlobalMetadata => 5,
            Segment::KernelGeneral => 6,
            Segment::TrieData => 7,
        }
    }

    /// The fixed index of this segment in the column encoding.
    pub fn index(self) -> (r: usize)
        ensures
            r == self.spec_index(),
    {
        match self {
            Segment::Code => 0,
            Segment::Stack => 1,
            Segment::MainMemory => 2,
            Segment::CallData => 3,
            Segment::ReturnData => 4,
            Segment::GlobalMetadata => 5,
            Segment::KernelGeneral => 6,
            Segment::TrieData => 7,
        }
    }
}

/// One memory cell's address: an execution context, a segment index, and a
/// virtual offset within the segment. Equality is structural.
#[derive(Clone, Copy, PartialEq, Eq, Structural, Debug)]
pub struct MemoryAddress {
    pub context: usize,
    pub segment: usize,
    pub virt: usize,
}

impl MemoryAddress {
    /// Builds the address of offset `virt` in `segment` of context `context`.
    pub fn new(context: usize, segment: Segment, virt: usize) -> (r: MemoryAddress)
        ensures
            r.context == context,
            r.segment == segment.spec_index(),
            r.virt == virt,
    {
        MemoryAddress { context, segment: segment.index(), virt }
    }
}

/// A 256-bit memory value as eight 32-bit limbs, little-endian: limb `j`
/// holds bits `32 * j .. 32 * (j + 1)` of the wide value.
#[derive(Clone, Copy, PartialEq, Eq, Debug)]
pub struct MemValue {
    pub limbs: [u32; 8],
}

impl MemValue {
    /// The all-zero value.
    pub fn zero() -> (r: MemValue)
        ensures
            r == MemValue::spec_zero(),
            forall|j: int| 0 <= j < 8 ==> r.limbs@[j] == 0u32,
    {
        let r = MemValue { limbs: [0u32; 8] };
        proof {
            assert(r.limbs@ =~= MemValue::spec_zero().limbs@);
            assert(r.limbs =~= MemValue::spec_zero().limbs);
        }
        r
    }

    /// The all-zero value.
    pub open spec fn spec_zero() -> MemValue {
        MemValue { limbs: [0u32, 0u32, 0u32, 0u32, 0u32, 0u32, 0u32, 0u32] }
    }

    /// A value that fits one limb: the wide value `x`.
    pub fn from_u32(x: u32) -> (r: MemValue)
        ensures
            r.limbs@[0] == x,
            forall|j: int| 1 <= j < 8 ==> r.limbs@[j] == 0u32,
    {
        let r = MemValue { limbs: [x, 0u32, 0u32, 0u32, 0u32, 0u32, 0u32, 0u32] };
        r
    }
}

/// The sparse memory image. Writes append to a journal; the view is the
/// mapping in which a later write to an address shadows an earlier one, and
/// `read` returns zero for an address never written.
pub struct Memory {
    entries: Vec<(MemoryAddress, MemValue)>,
}

/// The mapping described by a write journal: later entries shadow earlier
/// ones.
pub open spec fn journal_map(s: Seq<(MemoryAddress, MemValue)>) -> Map<MemoryAddress, MemValue>
    decreases s.len(),
{
    if s.len() == 0 {
        Map::empty()
    } else {
        journal_map(s.drop_last()).insert(s.last().0, s.last().1)
    }
}

impl View for Memory {
    type V = Map<MemoryAddress, MemValue>;

    closed spec fn view(&self) -> Map<MemoryAddress, MemValue> {
        journal_map(self.entries@)
    }
}

impl Memory {
    /// An empty memory image: every address reads as zero.
    pub fn new() -> (r: Memory)
        ensures
            r@ == Map::<MemoryAddress, MemValue>::empty(),
    {
        Memory { entries: Vec::new() }
    }

    /// Writes `value` at `addr`.
    pub fn set(&mut self, addr: MemoryAddress, value: MemValue)
        ensures
            final(self)@ == old(self)@.insert(addr, value),
    {
        self.entries.push((addr, value));
        proof {
            assert(self.entries@.drop_last() =~= old(self).entries@);
        }
    }

    /// Reads the value at `addr`; an address never written reads as zero.
    pub fn get(&self, addr: MemoryAddress) -> (r: MemValue)
        ensures
            r == if self@.contains_key(addr) {
                self@[addr]
            } else {
                MemValue::spec_zero()
            },
    {
        let mut i: usize = self.entries.len();
        proof {
            assert(self.entries@.take(i as int) =~= self.entries@);
        }
        while i > 0
            invariant
                i <= self.entries@.len(),
                journal_map(self.entries@.take(i as int)).contains_key(addr) == self@.contains_key(
                    addr,
                ),
                self@.contains_key(addr) ==> journal_map(self.entries@.take(i as int))[addr]
                    == self@[addr],
            decreases i,
        {
            i = i - 1;
            let e = self.entries[i];
            proof {
                assert(self.entries@.take(i + 1).drop_last() =~= self.entries@.take(i as int));
                assert(self.entries@.take(i + 1).last() == self.entries@[i as int]);
            }
            if e.0 == addr {
                proof {
                    assert(journal_map(self.entries@.take(i + 1)).contains_key(addr));
                    assert(journal_map(self.entries@.take(i + 1))[addr] == e.1);
                }
                return e.1;
            }
        }
        proof {
            assert(self.entries@.take(0) =~= Seq::<(MemoryAddress, MemValue)>::empty());
            assert(!journal_map(self.entries@.take(0)).contains_key(addr));
        }
        MemValue::zero()
    }
}

} // verus!
