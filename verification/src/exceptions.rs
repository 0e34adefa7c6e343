//! The CPU exceptions that the kernel handles, and what the handler of each
//! one does: the report it prints and whether the kernel goes on afterwards.
use vstd::prelude::*;
use crate::arch::{virt_addr_debug, virt_addr_text};
use crate::report::{
    decode_line, exception_origin, fault_address_line, optional_code_text, report_text,
    spec_exception_origin, write_exception_report, write_page_fault_details, ExceptionErrorCode,
    StackFrameSnapshot,
};

verus! {

/// The exceptions that have a handler of their own.
#[derive(Debug, Clone, Copy, PartialEq, Eq, Structural)]
pub enum ExceptionKind {
    Breakpoint,
    DoubleFault,
    InvalidOpcode,
    GeneralProtectionFault,
    SegmentNotPresent,
    StackSegmentFault,
    AlignmentCheck,
    PageFault,
}

/// What happens once an exception has been reported.
#[derive(Debug, Clone, Copy, PartialEq, Eq, Structural)]
pub enum AfterReport {
    /// The interrupted code goes on.
    Resume,
    /// The CPU halts for good.
    Halt,
    /// The kernel panics.
    Panic,
}

impl ExceptionKind {
    /// The architectural vector of the exception.
    pub open spec fn spec_vector(self) -> int {
        match self {
            ExceptionKind::Breakpoint => 3,
            ExceptionKind::DoubleFault => 8,
            ExceptionKind::InvalidOpcode => 6,
            ExceptionKind::GeneralProtectionFault => 13,
            ExceptionKind::SegmentNotPresent => 11,
            ExceptionKind::StackSegmentFault => 12,
            ExceptionKind::AlignmentCheck => 17,
            ExceptionKind::PageFault => 14,
        }
    }

    /// The architectural vector of the exception.
    pub fn vector(self) -> (vector: u8)
        ensures
            vector == self.spec_vector(),
    {
        match self {
            ExceptionKind::Breakpoint => 3,
            ExceptionKind::DoubleFault => 8,
            ExceptionKind::InvalidOpcode => 6,
            ExceptionKind::GeneralProtectionFault => 13,
            ExceptionKind::SegmentNotPresent => 11,
            ExceptionKind::StackSegmentFault => 12,
            ExceptionKind::AlignmentCheck => 17,
            ExceptionKind::PageFault => 14,
        }
    }

    /// The name under which the exception is reported.
    pub open spec fn spec_name(self) -> Seq<char> {
        match self {
            ExceptionKind::Breakpoint => "BREAKPOINT"@,
            ExceptionKind::DoubleFault => "DOUBLE FAULT"@,
            ExceptionKind::InvalidOpcode => "INVALID OPCODE (#UD)"@,
            ExceptionKind::GeneralProtectionFault => "GENERAL PROTECTION FAULT (#GP)"@,
            ExceptionKind::SegmentNotPresent => "SEGMENT NOT PRESENT (#NP)"@,
            ExceptionKind::StackSegmentFault => "STACK SEGMENT FAULT (#SS)"@,
            ExceptionKind::AlignmentCheck => "ALIGNMENT CHECK (#AC)"@,
            ExceptionKind::PageFault => "PAGE FAULT (#PF)"@,
        }
    }

    /// The name under which the exception is reported.
    pub fn name(self) -> (name: &'static str)
        ensures
            name@ == self.spec_name(),
    {
        match self {
            ExceptionKind::Breakpoint => "BREAKPOINT",
            ExceptionKind::DoubleFault => "DOUBLE FAULT",
            ExceptionKind::InvalidOpcode => "INVALID OPCODE (#UD)",
            ExceptionKind::GeneralProtectionFault => "GENERAL PROTECTION FAULT (#GP)",
            ExceptionKind::SegmentNotPresent => "SEGMENT NOT PRESENT (#NP)",
            ExceptionKind::StackSegmentFault => "STACK SEGMENT FAULT (#SS)",
            ExceptionKind::AlignmentCheck => "ALIGNMENT CHECK (#AC)",
            ExceptionKind::PageFault => "PAGE FAULT (#PF)",
        }
    }

    /// The error code that the report shows for the code `raw` that the CPU
    /// pushed: none for the exceptions without one (and for a double fault,
    /// whose code is always zero), the page fault flags for a page fault, and
    /// the number for the others.
    pub open spec fn spec_error_code(self, raw: u64) -> Option<ExceptionErrorCode> {
        match self {
            ExceptionKind::Breakpoint => None,
            ExceptionKind::DoubleFault => None,
            ExceptionKind::InvalidOpcode => None,
            ExceptionKind::PageFault => Some(ExceptionErrorCode::PageFault(raw)),
            _ => Some(ExceptionErrorCode::Hex(raw)),
        }
    }

    /// The error code that the report shows for the code `raw` that the CPU
    /// pushed.
    pub fn error_code(self, raw: u64) -> (code: Option<ExceptionErrorCode>)
        ensures
            code == self.spec_error_code(raw),
    {
        match self {
            ExceptionKind::Breakpoint => None,
            ExceptionKind::DoubleFault => None,
            ExceptionKind::InvalidOpcode => None,
            ExceptionKind::PageFault => Some(ExceptionErrorCode::PageFault(raw)),
            _ => Some(ExceptionErrorCode::Hex(raw)),
        }
    }

    /// After a breakpoint the interrupted code goes on; a page fault is fatal
    /// and panics, as the kernel has no way yet to recover from one; every
    /// other exception halts the CPU.
    pub open spec fn spec_after_report(self) -> AfterReport {
        match self {
            ExceptionKind::Breakpoint => AfterReport::Resume,
            ExceptionKind::PageFault => AfterReport::Panic,
            _ => AfterReport::Halt,
        }
    }

    /// What happens once the exception has been reported.
    pub fn after_report(self) -> (after: AfterReport)
        ensures
            after == self.spec_after_report(),
    {
        match self {
            ExceptionKind::Breakpoint => AfterReport::Resume,
            ExceptionKind::PageFault => AfterReport::Panic,
            _ => AfterReport::Halt,
        }
    }

    /// Whether the handler runs on a stack of its own from the task state
    /// segment: only the double fault handler does, so that it still runs
    /// when the kernel stack has overflowed.
    pub open spec fn spec_uses_dedicated_stack(self) -> bool {
        self == ExceptionKind::DoubleFault
    }

    /// Whether the handler runs on a stack of its own.
    pub fn uses_dedicated_stack(self) -> (dedicated: bool)
        ensures
            dedicated == self.spec_uses_dedicated_stack(),
    {
        match self {
            ExceptionKind::DoubleFault => true,
            _ => false,
        }
    }
}

/// The report that the handler of `kind` prints for `frame` and the error
/// code `raw` pushed by the CPU.
pub open spec fn exception_report_text(kind: ExceptionKind, frame: StackFrameSnapshot, raw: u64) -> Seq<
    char,
> {
    report_text(
        kind.spec_name(),
        spec_exception_origin(frame.code_segment),
        optional_code_text(kind.spec_error_code(raw)),
        frame,
    )
}

/// The report that the handler of `kind` prints for `frame` and the error
/// code `raw_code` pushed by the CPU (ignored by the exceptions that push
/// none).
pub fn exception_report(kind: ExceptionKind, frame: &StackFrameSnapshot, raw_code: u64) -> (report:
    String)
    ensures
        report@ == exception_report_text(kind, *frame, raw_code),
{
    let mut out = String::new();
    write_exception_report(
        &mut out,
        kind.name(),
        exception_origin(frame),
        kind.error_code(raw_code),
        frame,
    );
    assert(out@ =~= exception_report_text(kind, *frame, raw_code));
    out
}

/// What the page fault handler prints: the report, the faulting address read
/// from CR2, and the decoded flags of the error code with bits `code_bits`.
pub fn page_fault_report(frame: &StackFrameSnapshot, code_bits: u64, fault_address: u64) -> (report:
    String)
    ensures
        report@ == exception_report_text(ExceptionKind::PageFault, *frame, code_bits)
            + fault_address_line(virt_addr_debug(fault_address)) + decode_line(code_bits),
{
    let mut out = exception_report(ExceptionKind::PageFault, frame, code_bits);
    let address = virt_addr_text(fault_address);
    write_page_fault_details(&mut out, address.as_str(), code_bits);
    out
}

} // verus!
