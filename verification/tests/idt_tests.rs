use bare_metal::controller::{ChainedControllerConfig, PIC_1_OFFSET, PIC_2_OFFSET};
use bare_metal::idt::{
    init_idt, ready_for_interrupts, HandlerClass, HandlerEntry, VectorTable, BREAKPOINT_VECTOR,
    DOUBLE_FAULT_IST_INDEX, DOUBLE_FAULT_VECTOR, PAGE_FAULT_VECTOR,
};

#[test]
fn init_idt_installs_every_consumed_vector() {
    let t = init_idt();
    assert!(t.loaded);
    assert_eq!(
        t.breakpoint,
        Some(HandlerEntry {
            vector: BREAKPOINT_VECTOR,
            class: HandlerClass::ResumableDiagnostic,
            stack_index: None,
        })
    );
    assert_eq!(
        t.page_fault,
        Some(HandlerEntry {
            vector: PAGE_FAULT_VECTOR,
            class: HandlerClass::DiagnosticHalt,
            stack_index: None,
        })
    );
    assert_eq!(
        t.timer,
        Some(HandlerEntry {
            vector: PIC_1_OFFSET,
            class: HandlerClass::HardwareInterrupt,
            stack_index: None,
        })
    );
    assert_eq!(
        t.keyboard,
        Some(HandlerEntry {
            vector: PIC_1_OFFSET + 1,
            class: HandlerClass::HardwareInterrupt,
            stack_index: None,
        })
    );
}

#[test]
fn double_fault_runs_on_the_dedicated_stack() {
    let t = init_idt();
    assert_eq!(
        t.double_fault,
        Some(HandlerEntry {
            vector: DOUBLE_FAULT_VECTOR,
            class: HandlerClass::FatalAbort,
            stack_index: Some(DOUBLE_FAULT_IST_INDEX),
        })
    );
}

#[test]
fn loading_is_idempotent() {
    let mut t = init_idt();
    let once = t;
    t.load();
    assert_eq!(t, once);
}

#[test]
fn startup_gate_requires_matching_remap() {
    let t = init_idt();
    let good = ChainedControllerConfig::kernel_default();
    assert!(ready_for_interrupts(&t, &good));
    let wrong = ChainedControllerConfig::new(40, 48);
    assert!(!ready_for_interrupts(&t, &wrong));
    let unloaded = VectorTable::new();
    assert!(!ready_for_interrupts(&unloaded, &good));
}

#[test]
fn controller_vector_arithmetic_matches_the_remap() {
    let c = ChainedControllerConfig::kernel_default();
    assert_eq!(c.primary_offset, PIC_1_OFFSET);
    assert_eq!(c.secondary_offset, PIC_2_OFFSET);
    assert_eq!(c.vector_for_line(0), 32);
    assert_eq!(c.vector_for_line(1), 33);
    assert_eq!(c.vector_for_line(8), 40);
    assert_eq!(c.vector_for_line(15), 47);
    assert!(c.handles_vector(33));
    assert!(!c.handles_vector(3));
    assert!(!c.handles_vector(48));
}
