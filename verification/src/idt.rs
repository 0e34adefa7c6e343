//! The layout of the interrupt descriptor table: which handler serves each
//! vector, and the loading of the table into the CPU.
use vstd::prelude::*;
use x86_64::structures::idt::InterruptDescriptorTable;
use crate::arch::load_descriptor_table;
use crate::exceptions::ExceptionKind;
use crate::pic::{irq_line, spec_irq_line};

verus! {

/// The handler installed at a vector of the descriptor table.
#[derive(Debug, Clone, Copy, PartialEq, Eq, Structural)]
pub enum IdtHandler {
    /// The handler of a CPU exception.
    Exception(ExceptionKind),
    /// The handler of a PIC IRQ line, from 0 to 15.
    Irq(u8),
}

/// The exception whose handler sits at `vector`, if any.
pub open spec fn exception_at(vector: int) -> Option<ExceptionKind> {
    if vector == 3 {
        Some(ExceptionKind::Breakpoint)
    } else if vector == 6 {
        Some(ExceptionKind::InvalidOpcode)
    } else if vector == 8 {
        Some(ExceptionKind::DoubleFault)
    } else if vector == 11 {
        Some(ExceptionKind::SegmentNotPresent)
    } else if vector == 12 {
        Some(ExceptionKind::StackSegmentFault)
    } else if vector == 13 {
        Some(ExceptionKind::GeneralProtectionFault)
    } else if vector == 14 {
        Some(ExceptionKind::PageFault)
    } else if vector == 17 {
        Some(ExceptionKind::AlignmentCheck)
    } else {
        None
    }
}

/// The handler at `vector`: the exceptions that the kernel handles at their
/// own vectors, and a handler for each of the sixteen PIC lines, so that no
/// IRQ finds an empty entry; every other vector stays empty.
pub open spec fn idt_plan(vector: int) -> Option<IdtHandler> {
    match exception_at(vector) {
        Some(kind) => Some(IdtHandler::Exception(kind)),
        None => match spec_irq_line(vector) {
            Some(line) => Some(IdtHandler::Irq(line as u8)),
            None => None,
        },
    }
}

/// The handler that the table holds at `vector`, or `None` for an empty
/// entry.
pub fn idt_handler(vector: u8) -> (handler: Option<IdtHandler>)
    ensures
        handler == idt_plan(vector as int),
{
    let exception = if vector == 3 {
        Some(ExceptionKind::Breakpoint)
    } else if vector == 6 {
        Some(ExceptionKind::InvalidOpcode)
    } else if vector == 8 {
        Some(ExceptionKind::DoubleFault)
    } else if vector == 11 {
        Some(ExceptionKind::SegmentNotPresent)
    } else if vector == 12 {
        Some(ExceptionKind::StackSegmentFault)
    } else if vector == 13 {
        Some(ExceptionKind::GeneralProtectionFault)
    } else if vector == 14 {
        Some(ExceptionKind::PageFault)
    } else if vector == 17 {
        Some(ExceptionKind::AlignmentCheck)
    } else {
        None
    };
    match exception {
        Some(kind) => Some(IdtHandler::Exception(kind)),
        None => match irq_line(vector) {
            Some(line) => Some(IdtHandler::Irq(line)),
            None => None,
        },
    }
}

/// Makes `idt` the descriptor table of the CPU.
pub fn init_idt(idt: &'static InterruptDescriptorTable) {
    load_descriptor_table(idt);
}

} // verus!
