//! Behavioral tests of the interrupt core: gate encoding, table population,
//! dispatch classification, acknowledgment, and the activation lifecycle.

use idt_core::context::{InterruptCtx64, Registers};
use idt_core::gate::{Gate64, GATE_PRESENT_BIT, GATE_TYPE_ABSENT, GATE_TYPE_INTERRUPT};
use idt_core::idt::{
    classify, is_fatal, DispatchPath, Idt64, CPU_EXCEPTION_LIMIT, IDT_ENTRIES, IDT_SIZE_BYTES,
    KEYBOARD_ID, TIMER_ID,
};
use idt_core::kernel::{ActivationStep, KernelInterruptState, Phase};

fn regs() -> Registers {
    Registers { rbx: 1, rbp: 2, r12: 3, r13: 4, r14: 5, r15: 6 }
}

#[test]
fn absent_gate_fields() {
    let g = Gate64::absent();
    assert_eq!(g.offset_lower, 0);
    assert_eq!(g.selector, 0);
    assert_eq!(g.zero, 0);
    assert_eq!(g.type_attr, GATE_TYPE_ABSENT);
    assert_eq!(g.offset_mid, 0);
    assert_eq!(g.offset_upper, 0);
    assert_eq!(g.reserved, 0);
    assert!(!g.is_present());
    assert_eq!(g.handler_addr(), 0);
}

#[test]
fn absent_gate_byte_layout() {
    let b = Gate64::absent().to_bytes();
    let mut expected = vec![0u8; 16];
    expected[5] = GATE_TYPE_ABSENT;
    assert_eq!(b, expected);
}

#[test]
fn handler_gate_fields() {
    let g = Gate64::from_handler(0xdead_beef_cafe_1234, 0x08);
    assert_eq!(g.offset_lower, 0x1234);
    assert_eq!(g.selector, 0x08);
    assert_eq!(g.zero, 0);
    assert_eq!(g.type_attr, GATE_TYPE_INTERRUPT);
    assert_eq!(g.offset_mid, 0xcafe);
    assert_eq!(g.offset_upper, 0xdead_beef);
    assert_eq!(g.reserved, 0);
    assert!(g.is_present());
    assert_eq!(g.type_attr & GATE_PRESENT_BIT, GATE_PRESENT_BIT);
}

#[test]
fn handler_gate_byte_layout() {
    let g = Gate64::from_handler(0xdead_beef_cafe_1234, 0x2b);
    let expected = vec![
        0x34, 0x12, // offset bits 0 - 15, little-endian
        0x2b, 0x00, // selector
        0x00, // always-zero byte
        GATE_TYPE_INTERRUPT, // type/attribute
        0xfe, 0xca, // offset bits 16 - 31
        0xef, 0xbe, 0xad, 0xde, // offset bits 32 - 63
        0x00, 0x00, 0x00, 0x00, // reserved
    ];
    assert_eq!(g.to_bytes(), expected);
}

#[test]
fn from_handler_round_trips() {
    for h in [
        0u64,
        1,
        0xffff,
        0x1_0000,
        0xdead_beef_cafe_1234,
        u64::MAX,
    ] {
        let g = Gate64::from_handler(h, 0x08);
        assert_eq!(g.handler_addr(), h);
    }
}

#[test]
fn gate_encoding_deterministic() {
    let a = Gate64::from_handler(0x1122_3344_5566_7788, 0x10);
    let b = Gate64::from_handler(0x1122_3344_5566_7788, 0x10);
    assert_eq!(a, b);
    assert_eq!(a.to_bytes(), b.to_bytes());
}

#[test]
fn new_table_decodes_all_absent() {
    let t = Idt64::new();
    for i in 0..IDT_ENTRIES {
        let g = t.gate(i);
        assert_eq!(g, Gate64::absent());
        assert!(!g.is_present());
        assert_eq!(g.handler_addr(), 0);
    }
    assert_eq!(t.gates().len(), IDT_ENTRIES);
    assert_eq!(IDT_SIZE_BYTES as usize, IDT_ENTRIES * 16);
}

#[test]
fn add_gate_then_query() {
    let mut t = Idt64::new();
    t.add_gate(33, 0xfeed_f00d_0000_4321, 0x08);
    assert_eq!(t.gate(33), Gate64::from_handler(0xfeed_f00d_0000_4321, 0x08));
    // the other slots are untouched
    assert_eq!(t.gate(32), Gate64::absent());
    assert_eq!(t.gate(34), Gate64::absent());
}

#[test]
fn add_gate_last_write_wins() {
    let mut t = Idt64::new();
    t.add_gate(33, 0x1111, 0x08);
    t.add_gate(33, 0x2222, 0x08);
    assert_eq!(t.gate(33), Gate64::from_handler(0x2222, 0x08));
}

#[test]
fn classification_is_total() {
    for id in 0u32..=255 {
        let path = classify(id);
        let expected = if id <= CPU_EXCEPTION_LIMIT {
            DispatchPath::CpuException
        } else if id == TIMER_ID {
            DispatchPath::Timer
        } else if id == KEYBOARD_ID {
            DispatchPath::Keyboard
        } else {
            DispatchPath::Unrecognized
        };
        assert_eq!(path, expected);
    }
    assert_eq!(classify(256), DispatchPath::Unrecognized);
    assert_eq!(classify(u32::MAX), DispatchPath::Unrecognized);
}

#[test]
fn fatal_paths() {
    assert!(is_fatal(DispatchPath::CpuException));
    assert!(!is_fatal(DispatchPath::Timer));
    assert!(!is_fatal(DispatchPath::Keyboard));
    assert!(is_fatal(DispatchPath::Unrecognized));
}

#[test]
fn every_dispatch_acknowledges_its_id() {
    for id in [0u32, 13, 14, 0x20, 0x21, 100, 200, 255] {
        let ctx = InterruptCtx64::new(regs(), id, 0);
        let out = Idt64::handle_interrupt(&ctx);
        assert_eq!(out.eoi_id as u32, id);
    }
    // ids beyond the controller's range are truncated, as the hand-off does
    let ctx = InterruptCtx64::new(regs(), 300, 0);
    let out = Idt64::handle_interrupt(&ctx);
    assert_eq!(out.eoi_id, 44);
    assert_eq!(out.path, DispatchPath::Unrecognized);
}

#[test]
fn dispatch_scenario() {
    // table starts all-absent
    let mut state = KernelInterruptState::new();
    for i in 0..IDT_ENTRIES {
        assert_eq!(state.gate(i), Gate64::absent());
    }

    // one keyboard handler installed at slot 33
    let handler_keyboard: u64 = 0x0000_7fff_0000_1000;
    state.add_gate(33, handler_keyboard, 0x08);
    assert_eq!(state.gate(33), Gate64::from_handler(handler_keyboard, 0x08));

    // dispatching id 33 runs the keyboard path and acknowledges 33 once
    let out = Idt64::handle_interrupt(&InterruptCtx64::new(regs(), 33, 0));
    assert_eq!(out.path, DispatchPath::Keyboard);
    assert!(!out.fatal);
    assert_eq!(out.eoi_id, 33);

    // dispatching unmapped id 200 is fatal and still acknowledges 200 once
    let out = Idt64::handle_interrupt(&InterruptCtx64::new(regs(), 200, 0));
    assert_eq!(out.path, DispatchPath::Unrecognized);
    assert!(out.fatal);
    assert_eq!(out.eoi_id, 200);

    // dispatching id 14 (page fault) routes to the fault path, not the
    // unrecognized path
    let out = Idt64::handle_interrupt(&InterruptCtx64::new(regs(), 14, 0));
    assert_eq!(out.path, DispatchPath::CpuException);
    assert_ne!(out.path, DispatchPath::Unrecognized);
    assert_eq!(out.eoi_id, 14);
}

#[test]
fn bulk_population_from_handler_table() {
    let mut handlers: Vec<Option<u64>> = vec![None; IDT_ENTRIES];
    handlers[0x20] = Some(0x4000);
    handlers[0x21] = Some(0x5000);
    let mut state = KernelInterruptState::new();
    state.add_gates(&handlers, 0x08);
    assert_eq!(state.phase(), Phase::Configured);
    for i in 0..IDT_ENTRIES {
        let expected = match handlers[i] {
            Some(h) => Gate64::from_handler(h, 0x08),
            None => Gate64::absent(),
        };
        assert_eq!(state.gate(i), expected);
    }
}

#[test]
fn lifecycle_configure_then_activate() {
    let mut state = KernelInterruptState::new();
    assert_eq!(state.phase(), Phase::Unconfigured);

    state.add_gate(0x20, 0x1000, 0x08);
    assert_eq!(state.phase(), Phase::Configured);

    let steps = state.initialize();
    assert_eq!(
        steps,
        vec![
            ActivationStep::LoadTable,
            ActivationStep::InitController,
            ActivationStep::EnableInterrupts,
        ]
    );
    assert_eq!(state.phase(), Phase::Active);
    // the table survives activation unchanged
    assert_eq!(state.gate(0x20), Gate64::from_handler(0x1000, 0x08));
    assert_eq!(state.idt().gates().len(), IDT_ENTRIES);
}

#[test]
fn context_accessors() {
    let r = regs();
    let ctx = InterruptCtx64::new(r, 14, 0xdead);
    assert_eq!(ctx.registers(), r);
    assert_eq!(ctx.int_id(), 14);
    assert_eq!(ctx.err_no(), 0xdead);
}
