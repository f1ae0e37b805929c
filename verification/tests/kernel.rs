use kernel_traps::gdt;
use kernel_traps::interrupts::{
    dispatch, timer_tick, Flow, Gate, HandlerId, InterruptIndex, TrapFrame, BREAKPOINT_VECTOR,
    DOUBLE_FAULT_VECTOR, PIC_1_OFFSET, PIC_2_OFFSET,
};
use kernel_traps::locked::Locked;
use kernel_traps::pic::{ControllerId, ControllerPair};
use kernel_traps::serial::{serial_print, SerialWriter};
use kernel_traps::vga_buffer::{_print, BUFFER_HEIGHT};
use kernel_traps::{
    handle_fatal, init, report_status, FailureSink, Kernel, PortWrite, StatusCode, STATUS_FAILURE,
    STATUS_PORT, STATUS_SUCCESS,
};

fn frame() -> TrapFrame {
    TrapFrame {
        instruction_pointer: 0xdeadbeef,
        code_segment: 0x8,
        cpu_flags: 0x202,
        stack_pointer: 0x57ac,
        stack_segment: 0x10,
    }
}

fn row_text(k: &mut Kernel, row: usize, len: usize) -> Vec<u8> {
    let writer = k.vga.acquire();
    let mut text = Vec::new();
    for col in 0..len {
        text.push(writer.char_at(row, col).ascii_character);
    }
    k.vga.release(writer);
    text
}

/// An explicitly raised breakpoint trap is handled and control returns.
#[test]
fn test_breakpoint_exception() {
    let mut k = Kernel::new();
    init(&mut k);
    let flow = dispatch(&mut k, BREAKPOINT_VECTOR, &frame());
    assert_eq!(flow, Flow::Resumed);
}

/// The segment table reserves exactly the double-fault guard-stack slot.
#[test]
fn test_segment_table_guard_stack() {
    let table = gdt::init();
    assert!(table.loaded());
    assert_eq!(
        table.slot_bytes(gdt::DOUBLE_FAULT_IST_INDEX as usize),
        gdt::STACK_SIZE
    );
    for idx in 0..gdt::IST_SLOT_COUNT {
        if idx != gdt::DOUBLE_FAULT_IST_INDEX as usize {
            assert_eq!(table.slot_bytes(idx), 0);
        }
    }
}

/// `init` wires exactly the three gates, routes the double fault through the
/// reserved stack slot, and leaves every other vector on the default policy.
#[test]
fn test_init_wires_gates() {
    let mut k = Kernel::new();
    init(&mut k);
    assert!(k.gdt.loaded());
    assert!(k.idt.loaded());
    assert!(k.interrupts_enabled);
    assert_eq!(
        k.idt.gate(BREAKPOINT_VECTOR),
        Gate::Registered { handler: HandlerId::Breakpoint, stack_index: None }
    );
    assert_eq!(
        k.idt.gate(DOUBLE_FAULT_VECTOR),
        Gate::Registered {
            handler: HandlerId::DoubleFault,
            stack_index: Some(gdt::DOUBLE_FAULT_IST_INDEX),
        }
    );
    assert_eq!(
        k.idt.gate(InterruptIndex::Timer.as_u8()),
        Gate::Registered { handler: HandlerId::Timer, stack_index: None }
    );
    for vector in [0u8, 1, 2, 7, 9, 31, 33, 40, 100, 255] {
        assert_eq!(k.idt.gate(vector), Gate::Unhandled);
    }
}

/// The timer interrupt lands at the primary controller's offset.
#[test]
fn test_interrupt_index() {
    assert_eq!(InterruptIndex::Timer.as_u8(), PIC_1_OFFSET);
    assert_eq!(InterruptIndex::Timer.as_usize(), 32);
}

/// The breakpoint handler logs the banner and the frame snapshot, then
/// resumes with the writer in a clean, usable state.
#[test]
fn test_breakpoint_logs_frame() {
    let mut k = Kernel::new();
    init(&mut k);
    let flow = dispatch(&mut k, BREAKPOINT_VECTOR, &frame());
    assert_eq!(flow, Flow::Resumed);
    // Six lines were printed: the banner and five frame fields.
    assert_eq!(row_text(&mut k, BUFFER_HEIGHT - 7, 21), b"EXCEPTION: BREAKPOINT");
    assert_eq!(row_text(&mut k, BUFFER_HEIGHT - 6, 18), b"  00000000deadbeef");
    assert_eq!(row_text(&mut k, BUFFER_HEIGHT - 5, 18), b"  0000000000000008");
    assert_eq!(row_text(&mut k, BUFFER_HEIGHT - 4, 18), b"  0000000000000202");
    assert_eq!(row_text(&mut k, BUFFER_HEIGHT - 3, 18), b"  00000000000057ac");
    assert_eq!(row_text(&mut k, BUFFER_HEIGHT - 2, 18), b"  0000000000000010");
    // Writer state is not corrupted: the cursor is home and writing works.
    let mut writer = k.vga.acquire();
    assert_eq!(writer.column_position(), 0);
    writer.write_string(b"ok");
    assert_eq!(writer.char_at(BUFFER_HEIGHT - 1, 0).ascii_character, b'o');
    assert_eq!(writer.char_at(BUFFER_HEIGHT - 1, 1).ascii_character, b'k');
    k.vga.release(writer);
}

/// The double-fault vector, and any vector on the default policy, halt after
/// logging.
#[test]
fn test_double_fault_halts() {
    let mut k = Kernel::new();
    init(&mut k);
    let flow = dispatch(&mut k, DOUBLE_FAULT_VECTOR, &frame());
    assert_eq!(flow, Flow::Halted);
    assert_eq!(row_text(&mut k, BUFFER_HEIGHT - 7, 23), b"EXCEPTION: DOUBLE FAULT");

    let mut k2 = Kernel::new();
    init(&mut k2);
    assert_eq!(dispatch(&mut k2, 100, &frame()), Flow::Halted);
}

/// With the primary controller at offset 32 the secondary sits at 40, and
/// both ranges stay clear of the CPU exception vectors.
#[test]
fn test_controller_offsets() {
    let mut k = Kernel::new();
    init(&mut k);
    let controllers = k.pics.acquire();
    let (primary, secondary) = controllers.offsets();
    assert_eq!(primary, 32);
    assert_eq!(secondary, 40);
    assert_eq!(PIC_2_OFFSET, PIC_1_OFFSET + 8);
    assert!(primary >= 32 && secondary.checked_add(8).unwrap() <= 48);
    k.pics.release(controllers);
}

/// An interrupt owned by the secondary controller is acknowledged on both
/// controllers, secondary first; one owned by the primary on the primary
/// alone; an unowned vector on neither.
#[test]
fn test_eoi_order() {
    let mut controllers = ControllerPair::new(32, 40);
    controllers.initialize();
    assert!(controllers.initialized());

    controllers.deliver(44);
    assert!(controllers.line_is_in_service(44));
    let acks = controllers.notify_end_of_interrupt(44);
    assert_eq!(acks, vec![ControllerId::Secondary, ControllerId::Primary]);
    assert!(!controllers.line_is_in_service(44));

    controllers.deliver(33);
    let acks = controllers.notify_end_of_interrupt(33);
    assert_eq!(acks, vec![ControllerId::Primary]);
    assert!(!controllers.line_is_in_service(33));

    let acks = controllers.notify_end_of_interrupt(3);
    assert_eq!(acks, Vec::new());
}

/// After one timer tick the controller has been acknowledged and a second
/// tick is still deliverable: no starvation.
#[test]
fn test_timer_tick_no_starvation() {
    let mut k = Kernel::new();
    init(&mut k);
    assert_eq!(timer_tick(&mut k, &frame()), Flow::Resumed);
    let controllers = k.pics.acquire();
    assert!(!controllers.line_is_in_service(InterruptIndex::Timer.as_u8()));
    k.pics.release(controllers);
    assert_eq!(timer_tick(&mut k, &frame()), Flow::Resumed);
    // Each tick printed one visible marker.
    assert_eq!(row_text(&mut k, BUFFER_HEIGHT - 1, 2), b"..");
    let writer = k.vga.acquire();
    assert_eq!(writer.column_position(), 2);
    k.vga.release(writer);
}

/// The status-exit boundary reports the two distinct fixed codes on the
/// designated port.
#[test]
fn test_status_codes() {
    let success = report_status(StatusCode::Success);
    let failure = report_status(StatusCode::Failure);
    assert_eq!(success.port, STATUS_PORT);
    assert_eq!(failure.port, STATUS_PORT);
    assert_eq!(success.value, STATUS_SUCCESS);
    assert_eq!(failure.value, STATUS_FAILURE);
    assert_eq!(success.value, 0x10);
    assert_eq!(failure.value, 0x11);
    assert_ne!(success.value, failure.value);
}

/// The diagnostic sink transmits bytes in order under its lock.
#[test]
fn test_serial_stream() {
    let mut serial = Locked::new(SerialWriter::new());
    serial_print(&mut serial, b"trap ok");
    serial_print(&mut serial, b"\n");
    let sink = serial.acquire();
    assert_eq!(sink.transmitted(), b"trap ok\n");
    serial.release(sink);
}

/// A fatal failure is logged on the diagnostic boundary; only the
/// harness-driven sink also produces the failure port write.
#[test]
fn test_fatal_failure_sink() {
    let mut serial = Locked::new(SerialWriter::new());
    let w = handle_fatal(&mut serial, b"panicked: stack overflow", FailureSink::Halt);
    assert_eq!(w, None);
    let w = handle_fatal(&mut serial, b"; again", FailureSink::StatusExit);
    assert_eq!(w, Some(PortWrite { port: STATUS_PORT, value: STATUS_FAILURE }));
    let sink = serial.acquire();
    assert_eq!(sink.transmitted(), b"panicked: stack overflow; again");
    serial.release(sink);
}

/// End to end: `init` completes, an explicit breakpoint trap is handled,
/// execution continues, the final message is printed, and the harness would
/// observe the success code rather than the failure code.
#[test]
fn test_end_to_end_breakpoint() {
    let mut k = Kernel::new();
    init(&mut k);
    let flow = dispatch(&mut k, BREAKPOINT_VECTOR, &frame());
    assert_eq!(flow, Flow::Resumed);
    _print(&mut k.vga, b"It did not crash!\n");
    assert_eq!(row_text(&mut k, BUFFER_HEIGHT - 2, 17), b"It did not crash!");
    let status = report_status(StatusCode::Success);
    assert_eq!(status.value, 0x10);
    assert_ne!(status.value, STATUS_FAILURE);
}
