//! Interrupt vector table and handlers: the 256-entry gate table wired to the
//! breakpoint, double-fault and hardware-timer handlers, and the dispatch the
//! CPU performs when a vector fires. The privileged table-load instruction and
//! the interrupt-ABI entry stubs live outside the library; the table contents,
//! the wiring invariants and the handlers' effects are verified here.

use vstd::prelude::*;
use vstd::pervasive::VecAdditionalExecFns;

use crate::Kernel;
use crate::gdt;
use crate::gdt::SegmentTable;
use crate::hexfmt::{hex_bytes, push_hex_u64};
use crate::locked::Locked;
use crate::pic::ControllerPair;
use crate::vga_buffer::{Writer, write_byte_spec, write_string_spec};

verus! {

/// Vector base of the primary controller: the first vector free of the CPU
/// exception range.
pub const PIC_1_OFFSET: u8 = 32;

/// Vector base of the secondary controller, one controller width above the
/// primary.
pub const PIC_2_OFFSET: u8 = PIC_1_OFFSET + 8;

/// Vector number of the breakpoint exception.
pub const BREAKPOINT_VECTOR: u8 = 3;

/// Vector number of the double-fault exception.
pub const DOUBLE_FAULT_VECTOR: u8 = 8;

/// Number of gates in the vector table.
pub const VECTOR_COUNT: usize = 256;

/// The hardware interrupts the kernel handles, named by their vector.
#[derive(Debug, Clone, Copy, PartialEq, Eq, Structural)]
pub enum InterruptIndex {
    Timer,
}

impl InterruptIndex {
    pub open spec fn spec_as_u8(self) -> u8 {
        match self {
            InterruptIndex::Timer => PIC_1_OFFSET,
        }
    }

    #[verifier::when_used_as_spec(spec_as_u8)]
    pub fn as_u8(self) -> (v: u8)
        ensures
            v == self.spec_as_u8(),
    {
        match self {
            InterruptIndex::Timer => PIC_1_OFFSET,
        }
    }

    pub fn as_usize(self) -> (v: usize)
        ensures
            v == self.spec_as_u8() as usize,
    {
        self.as_u8() as usize
    }
}

/// The execution-frame snapshot the CPU pushes when a vector fires, as the
/// plain machine words a handler may log.
#[derive(Debug, Clone, Copy, PartialEq, Eq, Structural)]
pub struct TrapFrame {
    pub instruction_pointer: u64,
    pub code_segment: u64,
    pub cpu_flags: u64,
    pub stack_pointer: u64,
    pub stack_segment: u64,
}

/// The handlers a gate can be wired to.
#[derive(Debug, Clone, Copy, PartialEq, Eq)]
pub enum HandlerId {
    Breakpoint,
    DoubleFault,
    Timer,
}

/// One gate of the vector table: either the hardware default escalation
/// policy, or a registered handler with an optional dedicated-stack slot.
#[derive(Debug, Clone, Copy, PartialEq, Eq)]
pub enum Gate {
    Unhandled,
    Registered { handler: HandlerId, stack_index: Option<u16> },
}

/// The 256-entry interrupt vector table. Mutable only while it is being
/// built; once loaded the CPU reads it for the rest of execution.
pub struct VectorTable {
    entries: Vec<Gate>,
    loaded: bool,
}

impl VectorTable {
    pub closed spec fn gates(self) -> Seq<Gate> {
        self.entries@
    }

    pub closed spec fn is_loaded(self) -> bool {
        self.loaded
    }

    pub open spec fn wf(self) -> bool {
        self.gates().len() == VECTOR_COUNT
    }

    /// The wiring `init_idt` establishes: breakpoint and double-fault gates,
    /// the double fault routed to the reserved guard-stack slot, the timer
    /// gate at the primary controller's offset, and every other vector left
    /// on the default escalation policy.
    pub open spec fn wired(self) -> bool {
        &&& self.wf()
        &&& self.gates()[BREAKPOINT_VECTOR as int] == (Gate::Registered {
            handler: HandlerId::Breakpoint,
            stack_index: None,
        })
        &&& self.gates()[DOUBLE_FAULT_VECTOR as int] == (Gate::Registered {
            handler: HandlerId::DoubleFault,
            stack_index: Some(gdt::DOUBLE_FAULT_IST_INDEX),
        })
        &&& self.gates()[PIC_1_OFFSET as int] == (Gate::Registered {
            handler: HandlerId::Timer,
            stack_index: None,
        })
        &&& forall|v: int|
            0 <= v < VECTOR_COUNT && v != BREAKPOINT_VECTOR as int && v != DOUBLE_FAULT_VECTOR
                as int && v != PIC_1_OFFSET as int ==> self.gates()[v] == Gate::Unhandled
    }

    /// A fresh table with every vector on the default policy.
    pub fn new() -> (t: VectorTable)
        ensures
            t.wf(),
            !t.is_loaded(),
            forall|v: int| 0 <= v < VECTOR_COUNT ==> t.gates()[v] == Gate::Unhandled,
    {
        let mut entries: Vec<Gate> = Vec::new();
        let mut i: usize = 0;
        while i < VECTOR_COUNT
            invariant
                i <= VECTOR_COUNT,
                entries@.len() == i,
                forall|j: int| 0 <= j < i ==> entries@[j] == Gate::Unhandled,
            decreases VECTOR_COUNT - i,
        {
            entries.push(Gate::Unhandled);
            i = i + 1;
        }
        VectorTable { entries, loaded: false }
    }

    /// Whether the table has been loaded into the CPU.
    pub fn loaded(&self) -> (b: bool)
        ensures
            b == self.is_loaded(),
    {
        self.loaded
    }

    /// Read one gate.
    pub fn gate(&self, vector: u8) -> (g: Gate)
        requires
            self.wf(),
        ensures
            g == self.gates()[vector as int],
    {
        self.entries[vector as usize]
    }
}

/// Build and load the vector table. The double-fault gate names the guard
/// stack through the same constant under which the segment table reserved it,
/// and the table demands a loaded segment table first: the stack-slot
/// reference is only meaningful once the task-state segment is active.
pub fn init_idt(idt: &mut VectorTable, segments: &SegmentTable)
    requires
        segments.is_loaded(),
        segments.reserves(gdt::DOUBLE_FAULT_IST_INDEX as int),
        old(idt).wf(),
        !old(idt).is_loaded(),
        forall|v: int| 0 <= v < VECTOR_COUNT ==> old(idt).gates()[v] == Gate::Unhandled,
    ensures
        final(idt).wired(),
        final(idt).is_loaded(),
{
    idt.entries.set(
        BREAKPOINT_VECTOR as usize,
        Gate::Registered { handler: HandlerId::Breakpoint, stack_index: None },
    );
    idt.entries.set(
        DOUBLE_FAULT_VECTOR as usize,
        Gate::Registered {
            handler: HandlerId::DoubleFault,
            stack_index: Some(gdt::DOUBLE_FAULT_IST_INDEX),
        },
    );
    idt.entries.set(
        InterruptIndex::Timer.as_usize(),
        Gate::Registered { handler: HandlerId::Timer, stack_index: None },
    );
    idt.loaded = true;
}

/// Banner of the breakpoint log line.
pub open spec fn breakpoint_label() -> Seq<u8> {
    seq![
        ('E' as u8), ('X' as u8), ('C' as u8), ('E' as u8), ('P' as u8), ('T' as u8), ('I' as u8), ('O' as u8), ('N' as u8), (':' as u8), (' ' as u8),
        ('B' as u8), ('R' as u8), ('E' as u8), ('A' as u8), ('K' as u8), ('P' as u8), ('O' as u8), ('I' as u8), ('N' as u8), ('T' as u8), ('\n' as u8),
    ]
}

/// Banner of the double-fault log line.
pub open spec fn double_fault_label() -> Seq<u8> {
    seq![
        ('E' as u8), ('X' as u8), ('C' as u8), ('E' as u8), ('P' as u8), ('T' as u8), ('I' as u8), ('O' as u8), ('N' as u8), (':' as u8), (' ' as u8),
        ('D' as u8), ('O' as u8), ('U' as u8), ('B' as u8), ('L' as u8), ('E' as u8), (' ' as u8), ('F' as u8), ('A' as u8), ('U' as u8), ('L' as u8), ('T' as u8), ('\n' as u8),
    ]
}

/// One indented line of the frame dump: two spaces, sixteen hex digits, and a
/// newline.
pub open spec fn field_line(v: u64) -> Seq<u8> {
    seq![(' ' as u8), (' ' as u8)] + hex_bytes(v) + seq![('\n' as u8)]
}

/// The logged snapshot: one line per captured machine word, in the order the
/// CPU pushed them.
pub open spec fn trap_frame_dump(f: TrapFrame) -> Seq<u8> {
    field_line(f.instruction_pointer) + field_line(f.code_segment) + field_line(f.cpu_flags)
        + field_line(f.stack_pointer) + field_line(f.stack_segment)
}

/// Everything the breakpoint handler writes.
pub open spec fn breakpoint_message(f: TrapFrame) -> Seq<u8> {
    breakpoint_label() + trap_frame_dump(f)
}

/// Everything the double-fault handler writes.
pub open spec fn double_fault_message(f: TrapFrame) -> Seq<u8> {
    double_fault_label() + trap_frame_dump(f)
}

fn push_field_line(out: &mut Vec<u8>, v: u64)
    ensures
        final(out)@ == old(out)@ + field_line(v),
{
    let ghost p0 = out@;
    out.push((' ' as u8));
    out.push((' ' as u8));
    push_hex_u64(out, v);
    out.push(('\n' as u8));
    proof {
        assert(out@ =~= p0 + field_line(v));
    }
}

fn breakpoint_message_bytes(f: &TrapFrame) -> (v: Vec<u8>)
    ensures
        v@ == breakpoint_message(*f),
{
    let mut out: Vec<u8> = Vec::new();
    out.push(('E' as u8));
    out.push(('X' as u8));
    out.push(('C' as u8));
    out.push(('E' as u8));
    out.push(('P' as u8));
    out.push(('T' as u8));
    out.push(('I' as u8));
    out.push(('O' as u8));
    out.push(('N' as u8));
    out.push((':' as u8));
    out.push((' ' as u8));
    out.push(('B' as u8));
    out.push(('R' as u8));
    out.push(('E' as u8));
    out.push(('A' as u8));
    out.push(('K' as u8));
    out.push(('P' as u8));
    out.push(('O' as u8));
    out.push(('I' as u8));
    out.push(('N' as u8));
    out.push(('T' as u8));
    out.push(('\n' as u8));
    proof {
        assert(out@ =~= breakpoint_label());
    }
    push_frame_dump(&mut out, f);
    proof {
        assert(out@ =~= breakpoint_message(*f));
    }
    out
}

fn double_fault_message_bytes(f: &TrapFrame) -> (v: Vec<u8>)
    ensures
        v@ == double_fault_message(*f),
{
    let mut out: Vec<u8> = Vec::new();
    out.push(('E' as u8));
    out.push(('X' as u8));
    out.push(('C' as u8));
    out.push(('E' as u8));
    out.push(('P' as u8));
    out.push(('T' as u8));
    out.push(('I' as u8));
    out.push(('O' as u8));
    out.push(('N' as u8));
    out.push((':' as u8));
    out.push((' ' as u8));
    out.push(('D' as u8));
    out.push(('O' as u8));
    out.push(('U' as u8));
    out.push(('B' as u8));
    out.push(('L' as u8));
    out.push(('E' as u8));
    out.push((' ' as u8));
    out.push(('F' as u8));
    out.push(('A' as u8));
    out.push(('U' as u8));
    out.push(('L' as u8));
    out.push(('T' as u8));
    out.push(('\n' as u8));
    proof {
        assert(out@ =~= double_fault_label());
    }
    push_frame_dump(&mut out, f);
    proof {
        assert(out@ =~= double_fault_message(*f));
    }
    out
}

fn push_frame_dump(out: &mut Vec<u8>, f: &TrapFrame)
    ensures
        final(out)@ == old(out)@ + trap_frame_dump(*f),
{
    let ghost p0 = out@;
    push_field_line(out, f.instruction_pointer);
    push_field_line(out, f.code_segment);
    push_field_line(out, f.cpu_flags);
    push_field_line(out, f.stack_pointer);
    push_field_line(out, f.stack_segment);
    proof {
        assert(out@ =~= p0 + trap_frame_dump(*f));
    }
}

/// Recoverable, software-triggered diagnostic trap: log the frame and return;
/// the CPU resumes at the instruction after the trap.
pub fn breakpoint_handler(vga: &mut Locked<Writer>, stack_frame: &TrapFrame)
    requires
        !old(vga).is_held(),
        old(vga).inner()@.wf(),
    ensures
        !final(vga).is_held(),
        final(vga).inner()@.wf(),
        final(vga).inner()@ == write_string_spec(
            old(vga).inner()@,
            breakpoint_message(*stack_frame),
        ),
{
    let msg = breakpoint_message_bytes(stack_frame);
    let mut writer = vga.acquire();
    writer.write_string(msg.as_slice());
    vga.release(writer);
}

/// Witness that a handler does not return to the interrupted context: the
/// caller outside the library must halt instead of resuming.
pub struct Halt;

/// Unrecoverable fault raised when fault handling itself fails. It runs on
/// the dedicated guard stack, logs the frame, and never resumes: the
/// architecture forbids returning from this exception.
pub fn double_fault_handler(vga: &mut Locked<Writer>, stack_frame: &TrapFrame, _error_code: u64) -> (h:
    Halt)
    requires
        !old(vga).is_held(),
        old(vga).inner()@.wf(),
    ensures
        !final(vga).is_held(),
        final(vga).inner()@.wf(),
        final(vga).inner()@ == write_string_spec(
            old(vga).inner()@,
            double_fault_message(*stack_frame),
        ),
{
    let msg = double_fault_message_bytes(stack_frame);
    let mut writer = vga.acquire();
    writer.write_string(msg.as_slice());
    vga.release(writer);
    Halt
}

/// Periodic hardware tick: print one visible marker, then — unconditionally,
/// as the last action — acknowledge the interrupt so the next tick can be
/// delivered.
pub fn timer_interrupt_handler(
    vga: &mut Locked<Writer>,
    pics: &mut Locked<ControllerPair>,
    _stack_frame: &TrapFrame,
)
    requires
        !old(vga).is_held(),
        old(vga).inner()@.wf(),
        !old(pics).is_held(),
        old(pics).inner().wf(),
        old(pics).inner().is_initialized(),
        old(pics).inner().primary_offset() == PIC_1_OFFSET,
    ensures
        !final(vga).is_held(),
        final(vga).inner()@.wf(),
        final(vga).inner()@ == write_byte_spec(old(vga).inner()@, ('.' as u8)),
        !final(pics).is_held(),
        final(pics).inner().wf(),
        final(pics).inner().is_initialized(),
        final(pics).inner().primary_offset() == old(pics).inner().primary_offset(),
        final(pics).inner().secondary_offset() == old(pics).inner().secondary_offset(),
        final(pics).inner().primary_lines() == old(pics).inner().primary_lines().update(0, false),
        final(pics).inner().secondary_lines() == old(pics).inner().secondary_lines(),
        !final(pics).inner().line_in_service(InterruptIndex::Timer.spec_as_u8()),
{
    let mut writer = vga.acquire();
    writer.write_byte(('.' as u8));
    vga.release(writer);
    let mut controllers = pics.acquire();
    let _acks = controllers.notify_end_of_interrupt(InterruptIndex::Timer.as_u8());
    pics.release(controllers);
}

/// What the interrupted context observes once a handler is done.
#[derive(Debug, Clone, Copy, PartialEq, Eq, Structural)]
pub enum Flow {
    Resumed,
    Halted,
}

/// The CPU's constant-time gate dispatch: the vector's gate selects the one
/// registered handler, and a vector on the default policy escalates to the
/// double-fault path.
pub fn dispatch(k: &mut Kernel, vector: u8, stack_frame: &TrapFrame) -> (flow: Flow)
    requires
        old(k).ready(),
    ensures
        final(k).ready(),
        final(k).gdt == old(k).gdt,
        final(k).idt == old(k).idt,
        final(k).serial == old(k).serial,
        vector == BREAKPOINT_VECTOR ==> {
            &&& flow == Flow::Resumed
            &&& final(k).vga.inner()@ == write_string_spec(
                old(k).vga.inner()@,
                breakpoint_message(*stack_frame),
            )
            &&& final(k).pics == old(k).pics
        },
        vector == InterruptIndex::Timer.spec_as_u8() ==> {
            &&& flow == Flow::Resumed
            &&& final(k).vga.inner()@ == write_byte_spec(old(k).vga.inner()@, ('.' as u8))
            &&& final(k).pics.inner().primary_lines() == old(
                k,
            ).pics.inner().primary_lines().update(0, false)
            &&& final(k).pics.inner().secondary_lines() == old(k).pics.inner().secondary_lines()
            &&& !final(k).pics.inner().line_in_service(InterruptIndex::Timer.spec_as_u8())
        },
        vector != BREAKPOINT_VECTOR && vector != InterruptIndex::Timer.spec_as_u8() ==> {
            &&& flow == Flow::Halted
            &&& final(k).vga.inner()@ == write_string_spec(
                old(k).vga.inner()@,
                double_fault_message(*stack_frame),
            )
            &&& final(k).pics == old(k).pics
        },
{
    let g = k.idt.gate(vector);
    match g {
        Gate::Registered { handler: HandlerId::Breakpoint, stack_index: _ } => {
            breakpoint_handler(&mut k.vga, stack_frame);
            Flow::Resumed
        },
        Gate::Registered { handler: HandlerId::Timer, stack_index: _ } => {
            timer_interrupt_handler(&mut k.vga, &mut k.pics, stack_frame);
            Flow::Resumed
        },
        Gate::Registered { handler: HandlerId::DoubleFault, stack_index: _ } => {
            let _h = double_fault_handler(&mut k.vga, stack_frame, 0);
            Flow::Halted
        },
        Gate::Unhandled => {
            let _h = double_fault_handler(&mut k.vga, stack_frame, 0);
            Flow::Halted
        },
    }
}

/// In a ready kernel the double-fault gate's dedicated-stack index names a
/// slot the task-state segment actually reserves — the two tables agree on
/// the single shared constant, so a concurrent fault never lands on an
/// unreserved stack.
pub proof fn lemma_double_fault_stack_reserved(k: Kernel)
    requires
        k.ready(),
    ensures
        k.idt.gates()[DOUBLE_FAULT_VECTOR as int] == (Gate::Registered {
            handler: HandlerId::DoubleFault,
            stack_index: Some(gdt::DOUBLE_FAULT_IST_INDEX),
        }),
        k.gdt.reserves(gdt::DOUBLE_FAULT_IST_INDEX as int),
{
}

/// A timer tick can be delivered: the kernel is initialized and running, and
/// the timer line is not stuck waiting for an acknowledgment.
pub open spec fn timer_deliverable(k: Kernel) -> bool {
    &&& k.ready()
    &&& !k.pics.inner().line_in_service(InterruptIndex::Timer.spec_as_u8())
}

/// One full hardware timer tick: the controller puts the timer line in
/// service, the CPU dispatches through the timer gate, and the handler's
/// acknowledgment frees the line — so another tick is deliverable afterwards.
pub fn timer_tick(k: &mut Kernel, stack_frame: &TrapFrame) -> (flow: Flow)
    requires
        timer_deliverable(*old(k)),
    ensures
        timer_deliverable(*final(k)),
        flow == Flow::Resumed,
        final(k).vga.inner()@ == write_byte_spec(old(k).vga.inner()@, ('.' as u8)),
        final(k).gdt == old(k).gdt,
        final(k).idt == old(k).idt,
        final(k).serial == old(k).serial,
        final(k).pics.inner().primary_lines() == old(k).pics.inner().primary_lines().update(
            0,
            false,
        ),
        final(k).pics.inner().secondary_lines() == old(k).pics.inner().secondary_lines(),
{
    let mut controllers = k.pics.acquire();
    controllers.deliver(InterruptIndex::Timer.as_u8());
    k.pics.release(controllers);
    dispatch(k, InterruptIndex::Timer.as_u8(), stack_frame)
}

} // verus!
