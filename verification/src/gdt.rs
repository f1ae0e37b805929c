//! Descriptor table manager: the segment table and task-state segment, with a
//! dedicated guard stack reserved for the double-fault vector. The privileged
//! load instructions are issued outside the library; here the structure and
//! its one-time build/load discipline are what is verified.

use vstd::prelude::*;
use vstd::pervasive::VecAdditionalExecFns;

verus! {

/// The interrupt-stack-table slot earmarked for the double-fault gate. This
/// constant is the single shared value used both when reserving the slot here
/// and when wiring the double-fault gate, so the two can never disagree.
pub const DOUBLE_FAULT_IST_INDEX: u16 = 0;

/// Number of interrupt-stack-table slots the task-state segment offers.
pub const IST_SLOT_COUNT: usize = 7;

/// Size in bytes of the guard stack reserved for double-fault handling. Any
/// fixed, sufficiently large size works; this one is documented rather than
/// inferred.
pub const STACK_SIZE: usize = 4096 * 5;

/// The segment table together with its task-state segment, modeled by what
/// the rest of the kernel reads from it: which stack slots are reserved (and
/// how large their stacks are) and whether the table has been loaded.
pub struct SegmentTable {
    ist_stack_bytes: Vec<usize>,
    loaded: bool,
}

impl SegmentTable {
    /// Stack bytes reserved in each interrupt-stack-table slot; 0 means the
    /// slot is unused.
    pub closed spec fn slots(self) -> Seq<usize> {
        self.ist_stack_bytes@
    }

    pub closed spec fn is_loaded(self) -> bool {
        self.loaded
    }

    pub open spec fn wf(self) -> bool {
        self.slots().len() == IST_SLOT_COUNT
    }

    /// Whether slot `idx` has a guard stack reserved.
    pub open spec fn reserves(self, idx: int) -> bool {
        0 <= idx < self.slots().len() && self.slots()[idx] > 0
    }

    /// Whether the table has been loaded into the CPU.
    pub fn loaded(&self) -> (b: bool)
        ensures
            b == self.is_loaded(),
    {
        self.loaded
    }

    /// Stack bytes reserved in slot `idx`; 0 means the slot is unused.
    pub fn slot_bytes(&self, idx: usize) -> (n: usize)
        requires
            self.wf(),
            idx < IST_SLOT_COUNT,
        ensures
            n == self.slots()[idx as int],
    {
        self.ist_stack_bytes[idx]
    }

    /// Build the tables: one guard stack of `STACK_SIZE` bytes is reserved in
    /// the slot named by `DOUBLE_FAULT_IST_INDEX`; every other slot is unused.
    pub fn build() -> (t: SegmentTable)
        ensures
            t.wf(),
            !t.is_loaded(),
            t.reserves(DOUBLE_FAULT_IST_INDEX as int),
            t.slots()[DOUBLE_FAULT_IST_INDEX as int] == STACK_SIZE,
            forall|i: int|
                0 <= i < IST_SLOT_COUNT && i != DOUBLE_FAULT_IST_INDEX ==> !t.reserves(i),
    {
        let mut ist_stack_bytes: Vec<usize> = Vec::new();
        let mut i: usize = 0;
        while i < IST_SLOT_COUNT
            invariant
                i <= IST_SLOT_COUNT,
                ist_stack_bytes@.len() == i,
                forall|j: int| 0 <= j < i ==> ist_stack_bytes@[j] == 0usize,
            decreases IST_SLOT_COUNT - i,
        {
            ist_stack_bytes.push(0);
            i = i + 1;
        }
        ist_stack_bytes.set(DOUBLE_FAULT_IST_INDEX as usize, STACK_SIZE);
        SegmentTable { ist_stack_bytes, loaded: false }
    }

    /// Point the CPU's segment and task registers at the built structures.
    /// Loading happens exactly once, and must precede any fault that uses the
    /// reserved stack slot.
    pub fn load(&mut self)
        requires
            old(self).wf(),
            !old(self).is_loaded(),
        ensures
            final(self).is_loaded(),
            final(self).slots() == old(self).slots(),
            final(self).wf(),
    {
        self.loaded = true;
    }
}

/// Build and load the segment table and task-state segment.
pub fn init() -> (t: SegmentTable)
    ensures
        t.wf(),
        t.is_loaded(),
        t.reserves(DOUBLE_FAULT_IST_INDEX as int),
        t.slots()[DOUBLE_FAULT_IST_INDEX as int] == STACK_SIZE,
{
    let mut table = SegmentTable::build();
    table.load();
    table
}

} // verus!
