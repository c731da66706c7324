use crate::controller::{ChainedControllerConfig, InterruptIndex, PIC_1_OFFSET, PIC_2_OFFSET};
use vstd::prelude::*;

verus! {

/// Processor vector of the breakpoint trap.
pub const BREAKPOINT_VECTOR: u8 = 3;
/// Processor vector of the double fault.
pub const DOUBLE_FAULT_VECTOR: u8 = 8;
/// Processor vector of the page fault.
pub const PAGE_FAULT_VECTOR: u8 = 14;
/// Index of the dedicated interrupt stack reserved for the double-fault
/// handler; the normal kernel stack carries no index.
pub const DOUBLE_FAULT_IST_INDEX: u16 = 0;

/// How a handler leaves the machine.
#[derive(Clone, Copy, Debug, PartialEq, Eq, Structural)]
pub enum HandlerClass {
    /// Logs the trapped machine state and returns; execution resumes at the
    /// next instruction (breakpoint).
    ResumableDiagnostic,
    /// Logs the fault and parks in an idle loop; this kernel has no paging
    /// recovery, so a page fault is reported, not retried.
    DiagnosticHalt,
    /// Reports and aborts, never returns (double fault).
    FatalAbort,
    /// Services the device and acknowledges the interrupt controller.
    HardwareInterrupt,
}

/// One installed vector-table entry: the vector it answers, the class of its
/// handler, and the dedicated-stack index the handler runs on, if any.
#[derive(Clone, Copy, Debug, PartialEq, Eq, Structural)]
pub struct HandlerEntry {
    pub vector: u8,
    pub class: HandlerClass,
    pub stack_index: Option<u16>,
}

/// The vector table this kernel installs: the three exception handlers and the
/// two hardware interrupt handlers, built once at startup, loaded into the
/// processor before interrupts are unmasked, and never mutated afterward.
#[derive(Clone, Copy, Debug, PartialEq, Eq, Structural)]
pub struct VectorTable {
    pub breakpoint: Option<HandlerEntry>,
    pub page_fault: Option<HandlerEntry>,
    pub double_fault: Option<HandlerEntry>,
    pub timer: Option<HandlerEntry>,
    pub keyboard: Option<HandlerEntry>,
    pub loaded: bool,
}

impl VectorTable {
    /// Every vector this kernel consumes has its entry installed: breakpoint
    /// resumable, page fault halting, double fault fatal on the dedicated
    /// stack (distinct from the normal stack, which carries no index), and the
    /// two hardware vectors of the remapped controller.
    pub open spec fn complete(self) -> bool {
        &&& self.breakpoint == Some(HandlerEntry {
            vector: BREAKPOINT_VECTOR,
            class: HandlerClass::ResumableDiagnostic,
            stack_index: None,
        })
        &&& self.page_fault == Some(HandlerEntry {
            vector: PAGE_FAULT_VECTOR,
            class: HandlerClass::DiagnosticHalt,
            stack_index: None,
        })
        &&& self.double_fault == Some(HandlerEntry {
            vector: DOUBLE_FAULT_VECTOR,
            class: HandlerClass::FatalAbort,
            stack_index: Some(DOUBLE_FAULT_IST_INDEX),
        })
        &&& self.timer == Some(HandlerEntry {
            vector: InterruptIndex::Timer.spec_vector(),
            class: HandlerClass::HardwareInterrupt,
            stack_index: None,
        })
        &&& self.keyboard == Some(HandlerEntry {
            vector: InterruptIndex::Keyboard.spec_vector(),
            class: HandlerClass::HardwareInterrupt,
            stack_index: None,
        })
    }

    /// The fully populated, not yet loaded table.
    pub fn new() -> (t: Self)
        ensures
            t.complete(),
            !t.loaded,
    {
        VectorTable {
            breakpoint: Some(HandlerEntry {
                vector: BREAKPOINT_VECTOR,
                class: HandlerClass::ResumableDiagnostic,
                stack_index: None,
            }),
            page_fault: Some(HandlerEntry {
                vector: PAGE_FAULT_VECTOR,
                class: HandlerClass::DiagnosticHalt,
                stack_index: None,
            }),
            double_fault: Some(HandlerEntry {
                vector: DOUBLE_FAULT_VECTOR,
                class: HandlerClass::FatalAbort,
                stack_index: Some(DOUBLE_FAULT_IST_INDEX),
            }),
            timer: Some(HandlerEntry {
                vector: PIC_1_OFFSET,
                class: HandlerClass::HardwareInterrupt,
                stack_index: None,
            }),
            keyboard: Some(HandlerEntry {
                vector: PIC_1_OFFSET + 1,
                class: HandlerClass::HardwareInterrupt,
                stack_index: None,
            }),
            loaded: false,
        }
    }

    /// Hand the table to the processor. Loading is idempotent: it changes
    /// nothing but the loaded mark, so a second load leaves the table as the
    /// first did.
    pub fn load(&mut self)
        ensures
            *final(self) == (VectorTable { loaded: true, ..*old(self) }),
    {
        self.loaded = true;
    }
}

/// Build and load the vector table, exactly once at startup, before the
/// controller's lines are unmasked. The double-fault entry runs on the
/// dedicated stack, so a stack-overflow-induced double fault is still
/// reported instead of escalating; the breakpoint entry is resumable, so a
/// raised breakpoint returns control to the instruction after the trap.
pub fn init_idt() -> (t: VectorTable)
    ensures
        t.complete(),
        t.loaded,
{
    let mut t = VectorTable::new();
    t.load();
    t
}

/// Interrupts may be enabled globally only once the table is loaded and
/// complete and the controller is remapped to the vectors the table was built
/// for: then every vector an in-use line can raise has an installed entry.
pub open spec fn spec_ready_for_interrupts(t: VectorTable, c: ChainedControllerConfig) -> bool {
    &&& t.complete()
    &&& t.loaded
    &&& c.wf()
    &&& c.primary_offset == PIC_1_OFFSET
    &&& c.secondary_offset == PIC_2_OFFSET
}

/// The startup gate: checked before interrupts are unmasked.
pub fn ready_for_interrupts(t: &VectorTable, c: &ChainedControllerConfig) -> (b: bool)
    ensures
        b == spec_ready_for_interrupts(*t, *c),
{
    let breakpoint_ok = match t.breakpoint {
        Some(e) => e.vector == BREAKPOINT_VECTOR && matches!(e.class, HandlerClass::ResumableDiagnostic)
            && e.stack_index.is_none(),
        None => false,
    };
    let page_fault_ok = match t.page_fault {
        Some(e) => e.vector == PAGE_FAULT_VECTOR && matches!(e.class, HandlerClass::DiagnosticHalt)
            && e.stack_index.is_none(),
        None => false,
    };
    let double_fault_ok = match t.double_fault {
        Some(e) => e.vector == DOUBLE_FAULT_VECTOR && matches!(e.class, HandlerClass::FatalAbort)
            && (match e.stack_index {
            Some(ix) => ix == DOUBLE_FAULT_IST_INDEX,
            None => false,
        }),
        None => false,
    };
    let timer_ok = match t.timer {
        Some(e) => e.vector == PIC_1_OFFSET && matches!(e.class, HandlerClass::HardwareInterrupt)
            && e.stack_index.is_none(),
        None => false,
    };
    let keyboard_ok = match t.keyboard {
        Some(e) => e.vector == PIC_1_OFFSET + 1 && matches!(
            e.class,
            HandlerClass::HardwareInterrupt,
        ) && e.stack_index.is_none(),
        None => false,
    };
    let controller_ok = c.primary_offset == PIC_1_OFFSET && c.secondary_offset == PIC_2_OFFSET;
    breakpoint_ok && page_fault_ok && double_fault_ok && timer_ok && keyboard_ok && t.loaded
        && controller_ok
}

/// Law: once the startup gate holds, the two hardware vectors the controller
/// can raise for the in-use lines are exactly the installed timer and keyboard
/// entries, and the double-fault handler stands on the dedicated stack.
pub proof fn lemma_ready_vectors_installed(t: VectorTable, c: ChainedControllerConfig)
    requires
        spec_ready_for_interrupts(t, c),
    ensures
        c.spec_handles_vector(InterruptIndex::Timer.spec_vector()),
        c.spec_handles_vector(InterruptIndex::Keyboard.spec_vector()),
        t.timer == Some(HandlerEntry {
            vector: InterruptIndex::Timer.spec_vector(),
            class: HandlerClass::HardwareInterrupt,
            stack_index: None,
        }),
        t.keyboard == Some(HandlerEntry {
            vector: InterruptIndex::Keyboard.spec_vector(),
            class: HandlerClass::HardwareInterrupt,
            stack_index: None,
        }),
        t.double_fault == Some(HandlerEntry {
            vector: DOUBLE_FAULT_VECTOR,
            class: HandlerClass::FatalAbort,
            stack_index: Some(DOUBLE_FAULT_IST_INDEX),
        }),
{
}

} // verus!
