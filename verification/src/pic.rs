//! Legacy interrupt controller pair: two chained 8-line controllers remapped
//! away from the CPU exception range, plus the end-of-interrupt protocol. The
//! command and data port writes happen outside the library; what is verified
//! here is which controller handles which vector, which acknowledgments are
//! owed, in what order, and that an acknowledged line can fire again.

use vstd::prelude::*;
use vstd::pervasive::VecAdditionalExecFns;

verus! {

/// Interrupt lines per controller, fixed by the hardware chaining.
pub const LINES_PER_CONTROLLER: usize = 8;

/// The primary line on which the secondary controller's output is chained.
pub const CASCADE_LINE: usize = 2;

/// Vectors below this bound belong to CPU exceptions and must never be used
/// by a hardware interrupt controller.
pub const CPU_EXCEPTION_LIMIT: u8 = 32;

/// One of the two controllers, in the order acknowledgments address them.
#[derive(Debug, Clone, Copy, PartialEq, Eq, Structural)]
pub enum ControllerId {
    Primary,
    Secondary,
}

/// The chained controller pair: each side has a configured vector offset and
/// an in-service flag per line, set when an interrupt is delivered and
/// cleared only by an end-of-interrupt. A line whose flag stays set never
/// fires again: starvation by missing acknowledgment.
pub struct ControllerPair {
    primary_offset: u8,
    secondary_offset: u8,
    initialized: bool,
    primary_in_service: Vec<bool>,
    secondary_in_service: Vec<bool>,
}

impl ControllerPair {
    pub closed spec fn primary_offset(self) -> u8 {
        self.primary_offset
    }

    pub closed spec fn secondary_offset(self) -> u8 {
        self.secondary_offset
    }

    pub closed spec fn is_initialized(self) -> bool {
        self.initialized
    }

    /// In-service flags of the primary controller, one per line.
    pub closed spec fn primary_lines(self) -> Seq<bool> {
        self.primary_in_service@
    }

    /// In-service flags of the secondary controller, one per line.
    pub closed spec fn secondary_lines(self) -> Seq<bool> {
        self.secondary_in_service@
    }

    /// Offsets avoid the CPU exception range and the secondary sits exactly
    /// one controller width above the primary, as the chaining dictates.
    pub open spec fn wf(self) -> bool {
        &&& self.primary_offset() >= CPU_EXCEPTION_LIMIT
        &&& self.primary_offset() <= 240
        &&& self.secondary_offset() == self.primary_offset() + LINES_PER_CONTROLLER
        &&& self.primary_lines().len() == LINES_PER_CONTROLLER
        &&& self.secondary_lines().len() == LINES_PER_CONTROLLER
    }

    pub open spec fn primary_handles(self, vector: u8) -> bool {
        self.primary_offset() <= vector < self.primary_offset() + LINES_PER_CONTROLLER
    }

    pub open spec fn secondary_handles(self, vector: u8) -> bool {
        self.secondary_offset() <= vector < self.secondary_offset() + LINES_PER_CONTROLLER
    }

    pub open spec fn handles(self, vector: u8) -> bool {
        self.primary_handles(vector) || self.secondary_handles(vector)
    }

    /// Whether the line that would deliver `vector` is still awaiting an
    /// end-of-interrupt.
    pub open spec fn line_in_service(self, vector: u8) -> bool {
        if self.primary_handles(vector) {
            self.primary_lines()[vector - self.primary_offset()]
        } else if self.secondary_handles(vector) {
            self.secondary_lines()[vector - self.secondary_offset()]
        } else {
            false
        }
    }

    /// Whether the cascade input carrying the secondary controller's output
    /// is awaiting an end-of-interrupt on the primary.
    pub open spec fn cascade_in_service(self) -> bool {
        self.primary_lines()[CASCADE_LINE as int]
    }

    /// The configured vector offsets, primary first.
    pub fn offsets(&self) -> (o: (u8, u8))
        ensures
            o.0 == self.primary_offset(),
            o.1 == self.secondary_offset(),
    {
        (self.primary_offset, self.secondary_offset)
    }

    /// Whether the pair has been remapped.
    pub fn initialized(&self) -> (b: bool)
        ensures
            b == self.is_initialized(),
    {
        self.initialized
    }

    /// Whether the line owning `vector` still awaits an end-of-interrupt.
    pub fn line_is_in_service(&self, vector: u8) -> (b: bool)
        requires
            self.wf(),
        ensures
            b == self.line_in_service(vector),
    {
        if vector >= self.secondary_offset && (vector - self.secondary_offset) < 8 {
            self.secondary_in_service[(vector - self.secondary_offset) as usize]
        } else if vector >= self.primary_offset && (vector - self.primary_offset) < 8 {
            self.primary_in_service[(vector - self.primary_offset) as usize]
        } else {
            false
        }
    }

    /// A pair wired for the given offsets, not yet remapped. Bad offsets are
    /// undefined hardware behavior, so they are excluded up front rather than
    /// reported.
    pub fn new(primary_offset: u8, secondary_offset: u8) -> (p: ControllerPair)
        requires
            primary_offset >= CPU_EXCEPTION_LIMIT,
            primary_offset <= 240,
            secondary_offset == primary_offset + LINES_PER_CONTROLLER,
        ensures
            p.wf(),
            !p.is_initialized(),
            p.primary_offset() == primary_offset,
            p.secondary_offset() == secondary_offset,
            forall|v: u8| !p.line_in_service(v),
            !p.cascade_in_service(),
    {
        let mut primary_in_service: Vec<bool> = Vec::new();
        let mut secondary_in_service: Vec<bool> = Vec::new();
        let mut i: usize = 0;
        while i < LINES_PER_CONTROLLER
            invariant
                i <= LINES_PER_CONTROLLER,
                primary_in_service@.len() == i,
                secondary_in_service@.len() == i,
                forall|j: int| 0 <= j < i ==> !primary_in_service@[j],
                forall|j: int| 0 <= j < i ==> !secondary_in_service@[j],
            decreases LINES_PER_CONTROLLER - i,
        {
            primary_in_service.push(false);
            secondary_in_service.push(false);
            i = i + 1;
        }
        ControllerPair {
            primary_offset,
            secondary_offset,
            initialized: false,
            primary_in_service,
            secondary_in_service,
        }
    }

    /// Remap both controllers onto their configured offsets, replacing the
    /// factory mapping that would collide with CPU exception vectors. Leaves
    /// every line idle.
    pub fn initialize(&mut self)
        requires
            old(self).wf(),
            !old(self).is_initialized(),
        ensures
            final(self).wf(),
            final(self).is_initialized(),
            final(self).primary_offset() == old(self).primary_offset(),
            final(self).secondary_offset() == old(self).secondary_offset(),
            forall|v: u8| !final(self).line_in_service(v),
            !final(self).cascade_in_service(),
    {
        let mut i: usize = 0;
        while i < LINES_PER_CONTROLLER
            invariant
                i <= LINES_PER_CONTROLLER,
                self.primary_in_service@.len() == LINES_PER_CONTROLLER,
                self.secondary_in_service@.len() == LINES_PER_CONTROLLER,
                self.primary_offset == old(self).primary_offset,
                self.secondary_offset == old(self).secondary_offset,
                self.initialized == old(self).initialized,
                forall|j: int| 0 <= j < i ==> !self.primary_in_service@[j],
                forall|j: int| 0 <= j < i ==> !self.secondary_in_service@[j],
            decreases LINES_PER_CONTROLLER - i,
        {
            self.primary_in_service.set(i, false);
            self.secondary_in_service.set(i, false);
            i = i + 1;
        }
        self.initialized = true;
    }

    /// Hardware raises `vector`: the owning line goes in service until it is
    /// acknowledged, and an interrupt from the secondary controller also
    /// occupies the cascade line of the primary.
    pub fn deliver(&mut self, vector: u8)
        requires
            old(self).wf(),
            old(self).is_initialized(),
            old(self).handles(vector),
            !old(self).line_in_service(vector),
            old(self).secondary_handles(vector) ==> !old(self).cascade_in_service(),
        ensures
            final(self).wf(),
            final(self).is_initialized(),
            final(self).primary_offset() == old(self).primary_offset(),
            final(self).secondary_offset() == old(self).secondary_offset(),
            old(self).primary_handles(vector) ==> {
                &&& final(self).primary_lines() == old(self).primary_lines().update(
                    vector - old(self).primary_offset(),
                    true,
                )
                &&& final(self).secondary_lines() == old(self).secondary_lines()
            },
            old(self).secondary_handles(vector) ==> {
                &&& final(self).secondary_lines() == old(self).secondary_lines().update(
                    vector - old(self).secondary_offset(),
                    true,
                )
                &&& final(self).primary_lines() == old(self).primary_lines().update(
                    CASCADE_LINE as int,
                    true,
                )
            },
            final(self).line_in_service(vector),
    {
        if vector >= self.secondary_offset {
            let line = (vector - self.secondary_offset) as usize;
            self.secondary_in_service.set(line, true);
            self.primary_in_service.set(CASCADE_LINE, true);
        } else {
            let line = (vector - self.primary_offset) as usize;
            self.primary_in_service.set(line, true);
        }
    }

    /// End-of-interrupt for `vector`: an interrupt owned by the secondary
    /// controller is acknowledged on both controllers, secondary first; one
    /// owned by the primary is acknowledged there alone; a vector neither
    /// controller owns is ignored. Returns the controllers addressed, in the
    /// order their command ports must be written.
    pub fn notify_end_of_interrupt(&mut self, vector: u8) -> (acks: Vec<ControllerId>)
        requires
            old(self).wf(),
            old(self).is_initialized(),
        ensures
            final(self).wf(),
            final(self).is_initialized(),
            final(self).primary_offset() == old(self).primary_offset(),
            final(self).secondary_offset() == old(self).secondary_offset(),
            old(self).secondary_handles(vector) ==> {
                &&& acks@ == seq![ControllerId::Secondary, ControllerId::Primary]
                &&& final(self).secondary_lines() == old(self).secondary_lines().update(
                    vector - old(self).secondary_offset(),
                    false,
                )
                &&& final(self).primary_lines() == old(self).primary_lines().update(
                    CASCADE_LINE as int,
                    false,
                )
            },
            old(self).primary_handles(vector) ==> {
                &&& acks@ == seq![ControllerId::Primary]
                &&& final(self).primary_lines() == old(self).primary_lines().update(
                    vector - old(self).primary_offset(),
                    false,
                )
                &&& final(self).secondary_lines() == old(self).secondary_lines()
            },
            !old(self).handles(vector) ==> {
                &&& acks@ == Seq::<ControllerId>::empty()
                &&& *final(self) == *old(self)
            },
            !final(self).line_in_service(vector),
    {
        let mut acks: Vec<ControllerId> = Vec::new();
        if vector >= self.secondary_offset && (vector - self.secondary_offset) < 8 {
            let line = (vector - self.secondary_offset) as usize;
            self.secondary_in_service.set(line, false);
            self.primary_in_service.set(CASCADE_LINE, false);
            acks.push(ControllerId::Secondary);
            acks.push(ControllerId::Primary);
        } else if vector >= self.primary_offset && (vector - self.primary_offset) < 8 {
            let line = (vector - self.primary_offset) as usize;
            self.primary_in_service.set(line, false);
            acks.push(ControllerId::Primary);
        }
        proof {
            if old(self).secondary_handles(vector) {
                assert(acks@ =~= seq![ControllerId::Secondary, ControllerId::Primary]);
            } else if old(self).primary_handles(vector) {
                assert(acks@ =~= seq![ControllerId::Primary]);
            } else {
                assert(acks@ =~= Seq::<ControllerId>::empty());
            }
        }
        acks
    }
}

/// The offset ranges of a well-formed pair never overlap the CPU exception
/// vectors, never overlap each other, and the chaining fixes the secondary
/// offset: a primary offset of 32 forces the secondary to 40.
pub proof fn lemma_offsets_disjoint(p: ControllerPair)
    requires
        p.wf(),
    ensures
        forall|v: u8| p.handles(v) ==> v >= CPU_EXCEPTION_LIMIT,
        forall|v: u8| !(p.primary_handles(v) && p.secondary_handles(v)),
        p.primary_offset() == 32 ==> p.secondary_offset() == 40,
{
}

} // verus!
