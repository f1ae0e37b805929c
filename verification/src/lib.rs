//! Verified model of a small kernel's trap and interrupt plumbing: a fixed-grid
//! text writer, descriptor-table construction, the legacy interrupt-controller
//! remap and acknowledgment protocol, and the handlers that tie them together.
//! Privileged instructions, port writes and the memory-mapped text buffer are
//! performed outside the library; everything the kernel decides — table
//! contents, init ordering, cursor and scroll arithmetic, which controller is
//! acknowledged and in what order — is stated in contracts and proved.

pub mod gdt;
pub mod hexfmt;
pub mod interrupts;
pub mod locked;
pub mod pic;
pub mod serial;
pub mod vga_buffer;

use vstd::prelude::*;

use crate::interrupts::VectorTable;
use crate::locked::Locked;
use crate::pic::ControllerPair;
use crate::serial::{serial_print, SerialWriter};
use crate::vga_buffer::Writer;

verus! {

/// The kernel's entire mutable state: the two descriptor tables, the
/// controller pair and the two output sinks, each lock-guarded singleton
/// modeled by ownership, plus the global interrupt-enable flag. Verified code
/// sets the flag only through `enable_interrupts`, whose precondition is the
/// mandated ordering.
pub struct Kernel {
    pub gdt: gdt::SegmentTable,
    pub idt: VectorTable,
    pub pics: Locked<ControllerPair>,
    pub vga: Locked<Writer>,
    pub serial: Locked<SerialWriter>,
    pub interrupts_enabled: bool,
}

impl Kernel {
    pub open spec fn is_enabled(self) -> bool {
        self.interrupts_enabled
    }

    /// At rest no lock is held — a handler may fire at any time, and one that
    /// finds a lock taken by the very code it interrupted would spin forever.
    pub open spec fn wf(self) -> bool {
        &&& self.gdt.wf()
        &&& self.idt.wf()
        &&& !self.pics.is_held()
        &&& self.pics.inner().wf()
        &&& !self.vga.is_held()
        &&& self.vga.inner()@.wf()
        &&& !self.serial.is_held()
    }

    /// A machine as `new` hands it out: everything built but nothing loaded,
    /// remapped or enabled yet.
    pub open spec fn pristine(self) -> bool {
        &&& self.wf()
        &&& !self.gdt.is_loaded()
        &&& self.gdt.reserves(gdt::DOUBLE_FAULT_IST_INDEX as int)
        &&& !self.idt.is_loaded()
        &&& forall|v: int|
            0 <= v < interrupts::VECTOR_COUNT ==> self.idt.gates()[v]
                == interrupts::Gate::Unhandled
        &&& !self.pics.inner().is_initialized()
        &&& self.pics.inner().primary_offset() == interrupts::PIC_1_OFFSET
        &&& forall|v: u8| !self.pics.inner().line_in_service(v)
        &&& !self.pics.inner().cascade_in_service()
        &&& !self.is_enabled()
    }

    /// A machine `init` has finished with: tables loaded and wired, the
    /// guard-stack slot reserved under the same constant the double-fault
    /// gate names, controllers remapped onto the fixed offsets, interrupts
    /// enabled.
    pub open spec fn ready(self) -> bool {
        &&& self.wf()
        &&& self.gdt.is_loaded()
        &&& self.gdt.reserves(gdt::DOUBLE_FAULT_IST_INDEX as int)
        &&& self.idt.is_loaded()
        &&& self.idt.wired()
        &&& self.pics.inner().is_initialized()
        &&& self.pics.inner().primary_offset() == interrupts::PIC_1_OFFSET
        &&& self.is_enabled()
    }

    /// A fresh machine: built tables, factory-state controllers, blank
    /// screen, silent serial port, interrupts disabled.
    pub fn new() -> (k: Kernel)
        ensures
            k.pristine(),
            k.vga.inner()@.col == 0,
            k.vga.inner()@.color.0 == 0x0e,
            forall|i: int|
                0 <= i < k.vga.inner()@.grid.len() ==> k.vga.inner()@.grid[i]
                    == vga_buffer::blank_char(k.vga.inner()@.color),
            k.serial.inner()@ == Seq::<u8>::empty(),
    {
        Kernel {
            gdt: gdt::SegmentTable::build(),
            idt: VectorTable::new(),
            pics: Locked::new(
                ControllerPair::new(interrupts::PIC_1_OFFSET, interrupts::PIC_2_OFFSET),
            ),
            vga: Locked::new(Writer::new()),
            serial: Locked::new(SerialWriter::new()),
            interrupts_enabled: false,
        }
    }

    /// Globally enable interrupts. Both tables must already be loaded and the
    /// controllers remapped — enabling earlier would let hardware vectors
    /// collide with exceptions or fire into unwired gates — and no lock may
    /// be held across this boundary, since a handler could fire immediately.
    pub fn enable_interrupts(&mut self)
        requires
            old(self).gdt.is_loaded(),
            old(self).idt.is_loaded(),
            old(self).idt.wired(),
            old(self).pics.inner().is_initialized(),
            !old(self).pics.is_held(),
            !old(self).vga.is_held(),
            !old(self).serial.is_held(),
        ensures
            final(self).is_enabled(),
            final(self).gdt == old(self).gdt,
            final(self).idt == old(self).idt,
            final(self).pics == old(self).pics,
            final(self).vga == old(self).vga,
            final(self).serial == old(self).serial,
    {
        self.interrupts_enabled = true;
    }
}

/// Bring a pristine machine up, in the mandated order: load the segment
/// table, build and load the vector table against it, remap the controller
/// pair onto the fixed offsets, and only then enable interrupts.
pub fn init(k: &mut Kernel)
    requires
        old(k).pristine(),
    ensures
        final(k).ready(),
        interrupts::timer_deliverable(*final(k)),
        final(k).vga == old(k).vga,
        final(k).serial == old(k).serial,
{
    k.gdt.load();
    interrupts::init_idt(&mut k.idt, &k.gdt);
    let mut controllers = k.pics.acquire();
    controllers.initialize();
    k.pics.release(controllers);
    k.enable_interrupts();
}

/// The designated port an external harness watches for the exit status.
pub const STATUS_PORT: u16 = 0xf4;

/// Value reported on the success path.
pub const STATUS_SUCCESS: u32 = 0x10;

/// Value reported on the failure path.
pub const STATUS_FAILURE: u32 = 0x11;

/// The two outcomes the kernel can report to the harness.
#[derive(Debug, Clone, Copy, PartialEq, Eq, Structural)]
pub enum StatusCode {
    Success,
    Failure,
}

impl StatusCode {
    pub open spec fn spec_as_u32(self) -> u32 {
        match self {
            StatusCode::Success => STATUS_SUCCESS,
            StatusCode::Failure => STATUS_FAILURE,
        }
    }

    #[verifier::when_used_as_spec(spec_as_u32)]
    pub fn as_u32(self) -> (v: u32)
        ensures
            v == self.spec_as_u32(),
    {
        match self {
            StatusCode::Success => STATUS_SUCCESS,
            StatusCode::Failure => STATUS_FAILURE,
        }
    }
}

/// One 32-bit write to an I/O port, to be performed outside the library.
#[derive(Debug, Clone, Copy, PartialEq, Eq, Structural)]
pub struct PortWrite {
    pub port: u16,
    pub value: u32,
}

/// Where a fatal software failure goes, chosen once at configuration time:
/// a bare kernel halts after logging, a harness-driven build also asks the
/// harness to record the failure.
#[derive(Debug, Clone, Copy, PartialEq, Eq, Structural)]
pub enum FailureSink {
    Halt,
    StatusExit,
}

/// Top-level fatal-failure path: log the message through the diagnostic
/// boundary, then either stop silently or hand back the failure port write
/// for the harness, per the configured sink. There is no unwinding and no
/// retry; the caller must not continue past this.
pub fn handle_fatal(serial: &mut Locked<SerialWriter>, message: &[u8], sink: FailureSink) -> (w:
    Option<PortWrite>)
    requires
        !old(serial).is_held(),
    ensures
        !final(serial).is_held(),
        final(serial).inner()@ == old(serial).inner()@ + message@,
        sink == FailureSink::Halt ==> w is None,
        sink == FailureSink::StatusExit ==> w == Some(
            PortWrite { port: STATUS_PORT, value: STATUS_FAILURE },
        ),
{
    serial_print(serial, message);
    match sink {
        FailureSink::Halt => None,
        FailureSink::StatusExit => Some(report_status(StatusCode::Failure)),
    }
}

/// The status-exit boundary: the exact port write that asks the harness to
/// terminate with the given outcome. The two codes are distinct, so the
/// harness can always tell success from failure.
pub fn report_status(code: StatusCode) -> (w: PortWrite)
    ensures
        w.port == STATUS_PORT,
        w.value == code.spec_as_u32(),
        (code == StatusCode::Success) <==> (w.value == STATUS_SUCCESS),
        (code == StatusCode::Failure) <==> (w.value == STATUS_FAILURE),
{
    PortWrite { port: STATUS_PORT, value: code.as_u32() }
}

} // verus!
