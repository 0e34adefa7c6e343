//! The text that the exception handlers print: which privilege level the
//! exception came from, the report of the exception, and the extra lines of
//! a page fault.
use vstd::prelude::*;
use crate::arch::{page_fault_code_debug, page_fault_code_text, page_fault_flag_bit, page_fault_flag_set};
use crate::hex::{hex_text, push_hex};

verus! {

/// The registers that the CPU pushed when it entered an exception handler.
#[derive(Debug, Clone, Copy)]
pub struct StackFrameSnapshot {
    pub instruction_pointer: u64,
    pub code_segment: u64,
    pub cpu_flags: u64,
    pub stack_pointer: u64,
    pub stack_segment: u64,
}

/// The privilege level that was running when an exception was raised.
#[derive(Debug, Clone, Copy)]
pub enum ExceptionOrigin {
    Kernel,
    User,
}

/// The word that a report uses for an origin.
pub open spec fn origin_text(origin: ExceptionOrigin) -> Seq<char> {
    match origin {
        ExceptionOrigin::Kernel => "kernel"@,
        ExceptionOrigin::User => "user"@,
    }
}

impl ExceptionOrigin {
    /// The word that a report uses for this origin.
    pub fn as_str(self) -> (text: &'static str)
        ensures
            text@ == origin_text(self),
    {
        match self {
            ExceptionOrigin::Kernel => "kernel",
            ExceptionOrigin::User => "user",
        }
    }
}

/// An exception comes from user mode exactly when the requested privilege
/// level of the saved code segment selector (its two low bits) is 3.
pub open spec fn spec_exception_origin(code_segment: u64) -> ExceptionOrigin {
    if code_segment & 3 == 3 {
        ExceptionOrigin::User
    } else {
        ExceptionOrigin::Kernel
    }
}

/// The privilege level that was running when the exception of `frame` was
/// raised.
pub fn exception_origin(frame: &StackFrameSnapshot) -> (origin: ExceptionOrigin)
    ensures
        origin == spec_exception_origin(frame.code_segment),
{
    if (frame.code_segment & 0b11) == 0b11 {
        ExceptionOrigin::User
    } else {
        ExceptionOrigin::Kernel
    }
}

/// The error code that an exception pushed, as a report shows it.
#[derive(Debug, Clone, Copy)]
pub enum ExceptionErrorCode {
    /// A code shown as a hexadecimal number.
    Hex(u64),
    /// The bits of a page fault error code, shown by their flag names.
    PageFault(u64),
}

/// The text of an error code in a report.
pub open spec fn error_code_text(code: ExceptionErrorCode) -> Seq<char> {
    match code {
        ExceptionErrorCode::Hex(v) => hex_text(v),
        ExceptionErrorCode::PageFault(bits) => page_fault_code_debug(bits),
    }
}

/// The line that names the exception.
pub open spec fn name_line(name: Seq<char>) -> Seq<char> {
    "EXCEPTION: "@ + name + "\n"@
}

/// The line that gives the origin.
pub open spec fn origin_line(origin: ExceptionOrigin) -> Seq<char> {
    "Origin: "@ + origin_text(origin) + "\n"@
}

/// The line that gives the error code, when there is one: nothing otherwise.
pub open spec fn code_line(code_text: Option<Seq<char>>) -> Seq<char> {
    match code_text {
        Some(text) => "Error Code: "@ + text + "\n"@,
        None => Seq::empty(),
    }
}

/// The line that gives the saved registers.
pub open spec fn frame_line(frame: StackFrameSnapshot) -> Seq<char> {
    "Frame: rip="@ + hex_text(frame.instruction_pointer) + " cs="@ + hex_text(frame.code_segment)
        + " rflags="@ + hex_text(frame.cpu_flags) + " rsp="@ + hex_text(frame.stack_pointer)
        + " ss="@ + hex_text(frame.stack_segment) + "\n"@
}

/// A report: the name line, the origin line, the error code line if there is
/// a code, and the frame line, in this order.
pub open spec fn report_text(
    name: Seq<char>,
    origin: ExceptionOrigin,
    code_text: Option<Seq<char>>,
    frame: StackFrameSnapshot,
) -> Seq<char> {
    name_line(name) + origin_line(origin) + code_line(code_text) + frame_line(frame)
}

/// The text of an optional error code.
pub open spec fn optional_code_text(code: Option<ExceptionErrorCode>) -> Option<Seq<char>> {
    match code {
        Some(c) => Some(error_code_text(c)),
        None => None,
    }
}

/// The view of an optional text.
pub open spec fn optional_text(text: Option<&str>) -> Option<Seq<char>> {
    match text {
        Some(t) => Some(t@),
        None => None,
    }
}

/// Appends the frame line of `frame` to `out`.
fn write_frame_line(out: &mut String, frame: &StackFrameSnapshot)
    ensures
        final(out)@ == old(out)@ + frame_line(*frame),
{
    out.append("Frame: rip=");
    push_hex(out, frame.instruction_pointer);
    out.append(" cs=");
    push_hex(out, frame.code_segment);
    out.append(" rflags=");
    push_hex(out, frame.cpu_flags);
    out.append(" rsp=");
    push_hex(out, frame.stack_pointer);
    out.append(" ss=");
    push_hex(out, frame.stack_segment);
    out.append("\n");
    assert(out@ =~= old(out)@ + frame_line(*frame));
}

/// Appends the report of an exception to `out`, with the error code already
/// turned into its text.
pub fn write_report_lines(
    out: &mut String,
    name: &str,
    origin: ExceptionOrigin,
    code_text: Option<&str>,
    frame: &StackFrameSnapshot,
)
    ensures
        final(out)@ == old(out)@ + report_text(name@, origin, optional_text(code_text), *frame),
{
    out.append("EXCEPTION: ");
    out.append(name);
    out.append("\n");
    out.append("Origin: ");
    out.append(origin.as_str());
    out.append("\n");
    if let Some(text) = code_text {
        out.append("Error Code: ");
        out.append(text);
        out.append("\n");
    }
    let ghost middle = out@;
    assert(middle =~= old(out)@ + name_line(name@) + origin_line(origin) + code_line(
        optional_text(code_text),
    ));
    write_frame_line(out, frame);
    assert(out@ =~= old(out)@ + report_text(name@, origin, optional_text(code_text), *frame));
}

/// Appends the report of exception `name` to `out`: its name, its origin,
/// its error code when it has one, and the saved registers of `frame`.
pub fn write_exception_report(
    out: &mut String,
    name: &str,
    origin: ExceptionOrigin,
    error_code: Option<ExceptionErrorCode>,
    frame: &StackFrameSnapshot,
)
    ensures
        final(out)@ == old(out)@ + report_text(name@, origin, optional_code_text(error_code), *frame),
{
    match error_code {
        None => write_report_lines(out, name, origin, None, frame),
        Some(ExceptionErrorCode::Hex(v)) => {
            let mut text = String::new();
            push_hex(&mut text, v);
            assert(text@ =~= hex_text(v));
            write_report_lines(out, name, origin, Some(text.as_str()), frame);
        },
        Some(ExceptionErrorCode::PageFault(bits)) => {
            let text = page_fault_code_text(bits);
            write_report_lines(out, name, origin, Some(text.as_str()), frame);
        },
    }
}

/// The page fault flags that the decode line of a page fault shows.
#[derive(Debug, Clone, Copy)]
pub enum PageFaultFlag {
    ProtectionViolation,
    CausedByWrite,
    UserMode,
    MalformedTable,
    InstructionFetch,
}

/// Whether the error code with bits `bits` holds `flag`.
pub open spec fn flag_set(bits: u64, flag: PageFaultFlag) -> bool {
    bits & page_fault_flag_bit(flag) == page_fault_flag_bit(flag)
}

/// The word for a boolean.
pub open spec fn bool_text(b: bool) -> Seq<char> {
    if b {
        "true"@
    } else {
        "false"@
    }
}

/// The word for a boolean.
fn bool_str(b: bool) -> (text: &'static str)
    ensures
        text@ == bool_text(b),
{
    if b {
        "true"
    } else {
        "false"
    }
}

/// The line that gives the faulting address.
pub open spec fn fault_address_line(address_text: Seq<char>) -> Seq<char> {
    "CR2: "@ + address_text + "\n"@
}

/// One `label=value` item of the decode line.
pub open spec fn flag_item(label: Seq<char>, bits: u64, flag: PageFaultFlag) -> Seq<char> {
    label + bool_text(flag_set(bits, flag))
}

/// The line that decodes the flags of a page fault error code.
pub open spec fn decode_line(bits: u64) -> Seq<char> {
    flag_item("PF_DECODE: protection_violation="@, bits, PageFaultFlag::ProtectionViolation)
        + flag_item(" write="@, bits, PageFaultFlag::CausedByWrite) + flag_item(
        " user="@,
        bits,
        PageFaultFlag::UserMode,
    ) + flag_item(" reserved_write="@, bits, PageFaultFlag::MalformedTable) + flag_item(
        " instruction_fetch="@,
        bits,
        PageFaultFlag::InstructionFetch,
    ) + "\n"@
}

/// Appends one item of the decode line.
fn write_flag_item(out: &mut String, label: &str, bits: u64, flag: PageFaultFlag)
    ensures
        final(out)@ == old(out)@ + flag_item(label@, bits, flag),
{
    out.append(label);
    out.append(bool_str(page_fault_flag_set(bits, flag)));
    assert(out@ =~= old(out)@ + flag_item(label@, bits, flag));
}

/// Appends the lines that follow the report of a page fault: the faulting
/// address, already turned into its text, and the decoded flags of the
/// error code with bits `code_bits`.
pub fn write_page_fault_details(out: &mut String, address_text: &str, code_bits: u64)
    ensures
        final(out)@ == old(out)@ + fault_address_line(address_text@) + decode_line(code_bits),
{
    out.append("CR2: ");
    out.append(address_text);
    out.append("\n");
    let ghost first = out@;
    write_flag_item(out, "PF_DECODE: protection_violation=", code_bits, PageFaultFlag::ProtectionViolation);
    write_flag_item(out, " write=", code_bits, PageFaultFlag::CausedByWrite);
    write_flag_item(out, " user=", code_bits, PageFaultFlag::UserMode);
    write_flag_item(out, " reserved_write=", code_bits, PageFaultFlag::MalformedTable);
    write_flag_item(out, " instruction_fetch=", code_bits, PageFaultFlag::InstructionFetch);
    out.append("\n");
    assert(first =~= old(out)@ + fault_address_line(address_text@));
    assert(out@ =~= old(out)@ + fault_address_line(address_text@) + decode_line(code_bits));
}

} // verus!
