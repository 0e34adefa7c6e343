//! Properties that tie the vector layout, the PIC policy and the handlers
//! together.
use vstd::prelude::*;
use crate::exceptions::ExceptionKind;
use crate::hex::{hex_digits, hex_text, hex_value, lemma_hex_digits_denote};
use crate::exceptions::exception_report_text;
use crate::report::{
    bool_text, code_line, decode_line, flag_set, frame_line, name_line, optional_code_text,
    origin_line, spec_exception_origin, ExceptionErrorCode, PageFaultFlag, StackFrameSnapshot,
};
use crate::idt::{idt_plan, IdtHandler};
use crate::pic::{
    is_irq_line, spec_irq_line, spec_irq_response, spec_irq_vector, InterruptIndex, PIC_1_OFFSET,
    PIC_IRQ_COUNT,
};

verus! {

/// Every vector that the PICs deliver, 32 to 47, has the handler of its own
/// IRQ line, and that handler acknowledges exactly that vector: no PIC
/// interrupt finds an empty entry or is left unacknowledged.
pub proof fn lemma_pic_vectors_served(vector: int)
    requires
        PIC_1_OFFSET <= vector < PIC_1_OFFSET + PIC_IRQ_COUNT,
    ensures
        ({
            let line = vector - PIC_1_OFFSET;
            &&& is_irq_line(line)
            &&& idt_plan(vector) == Some(IdtHandler::Irq(line as u8))
            &&& spec_irq_response(line).end_of_interrupt == vector
        }),
{
}

/// IRQ lines and their vectors correspond one to one.
pub proof fn lemma_irq_line_vector_round_trip(line: int, vector: int)
    ensures
        is_irq_line(line) ==> spec_irq_line(spec_irq_vector(line)) == Some(line),
        spec_irq_line(vector) matches Some(l) ==> is_irq_line(l) && spec_irq_vector(l) == vector,
{
}

/// Each handled exception sits at its own architectural vector and nowhere
/// else, and none of these vectors is one that the PICs deliver.
pub proof fn lemma_exception_vectors(kind: ExceptionKind, vector: int)
    ensures
        idt_plan(kind.spec_vector()) == Some(IdtHandler::Exception(kind)),
        idt_plan(vector) == Some(IdtHandler::Exception(kind)) ==> vector == kind.spec_vector(),
        kind.spec_vector() < PIC_1_OFFSET,
        spec_irq_line(kind.spec_vector()) is None,
{
}

/// The PIC vectors lie above the 32 vectors that the CPU reserves for its
/// exceptions.
pub proof fn lemma_pic_vectors_above_exceptions(line: int)
    requires
        is_irq_line(line),
    ensures
        32 <= spec_irq_vector(line) < 256,
{
}

/// The named interrupts are served by the handlers of their IRQ lines, and a
/// tick is counted for the timer and for no other interrupt.
pub proof fn lemma_named_interrupts_served(index: InterruptIndex)
    ensures
        ({
            let line = index.vector() - PIC_1_OFFSET;
            &&& is_irq_line(line)
            &&& idt_plan(index.vector()) == Some(IdtHandler::Irq(line as u8))
            &&& spec_irq_response(line).end_of_interrupt == index.vector()
            &&& (spec_irq_response(line).count_tick <==> index is Timer)
        }),
{
}

/// Among all IRQ lines, only the timer's line counts ticks.
pub proof fn lemma_only_timer_counts(line: int)
    requires
        is_irq_line(line),
    ensures
        spec_irq_response(line).count_tick <==> spec_irq_vector(line) == InterruptIndex::Timer.vector(),
        spec_irq_response(line).count_tick <==> line == 0,
{
}

/// The report of a general protection fault, a missing segment, a stack
/// segment fault or an alignment check shows the error code that the CPU
/// pushed in hexadecimal, and that text reads back as the pushed code;
/// the other exceptions show their code otherwise or not at all.
pub proof fn lemma_pushed_code_reads_back(kind: ExceptionKind, raw: u64)
    ensures
        kind.spec_error_code(raw) matches Some(ExceptionErrorCode::Hex(v)) ==> {
            &&& v == raw
            &&& optional_code_text(kind.spec_error_code(raw)) == Some(hex_text(raw))
            &&& hex_text(raw) == seq!['0', 'x'] + hex_digits(raw as nat)
            &&& hex_value(hex_digits(raw as nat)) == raw
        },
        (kind.spec_error_code(raw) matches Some(ExceptionErrorCode::Hex(_))) <==> (
        kind is GeneralProtectionFault || kind is SegmentNotPresent || kind is StackSegmentFault
            || kind is AlignmentCheck),
{
    lemma_hex_digits_denote(raw as nat);
}

/// A sequence is a prefix of itself followed by anything.
proof fn lemma_prefix_of_concat(a: Seq<char>, b: Seq<char>)
    ensures
        a.is_prefix_of(a + b),
{
    assert((a + b).subrange(0, a.len() as int) =~= a);
}

/// Every report begins with the line that names its exception by the name
/// under which the kernel reports it: the breakpoint as `BREAKPOINT`, and so
/// on for each handled exception, whatever the frame and the error code.
pub proof fn lemma_reports_name_their_exception(
    kind: ExceptionKind,
    frame: StackFrameSnapshot,
    raw: u64,
)
    ensures
        kind is Breakpoint ==> "EXCEPTION: BREAKPOINT\n"@.is_prefix_of(
            exception_report_text(kind, frame, raw),
        ),
        kind is DoubleFault ==> "EXCEPTION: DOUBLE FAULT\n"@.is_prefix_of(
            exception_report_text(kind, frame, raw),
        ),
        kind is InvalidOpcode ==> "EXCEPTION: INVALID OPCODE (#UD)\n"@.is_prefix_of(
            exception_report_text(kind, frame, raw),
        ),
        kind is GeneralProtectionFault ==> "EXCEPTION: GENERAL PROTECTION FAULT (#GP)\n"@.is_prefix_of(
            exception_report_text(kind, frame, raw),
        ),
        kind is SegmentNotPresent ==> "EXCEPTION: SEGMENT NOT PRESENT (#NP)\n"@.is_prefix_of(
            exception_report_text(kind, frame, raw),
        ),
        kind is StackSegmentFault ==> "EXCEPTION: STACK SEGMENT FAULT (#SS)\n"@.is_prefix_of(
            exception_report_text(kind, frame, raw),
        ),
        kind is AlignmentCheck ==> "EXCEPTION: ALIGNMENT CHECK (#AC)\n"@.is_prefix_of(
            exception_report_text(kind, frame, raw),
        ),
        kind is PageFault ==> "EXCEPTION: PAGE FAULT (#PF)\n"@.is_prefix_of(
            exception_report_text(kind, frame, raw),
        ),
{
    let origin = spec_exception_origin(frame.code_segment);
    let code = optional_code_text(kind.spec_error_code(raw));
    let first = name_line(kind.spec_name());
    let rest = origin_line(origin) + code_line(code) + frame_line(frame);
    assert(exception_report_text(kind, frame, raw) =~= first + rest);
    lemma_prefix_of_concat(first, rest);
    reveal_strlit("EXCEPTION: ");
    reveal_strlit("\n");
    match kind {
        ExceptionKind::Breakpoint => {
            reveal_strlit("BREAKPOINT");
            reveal_strlit("EXCEPTION: BREAKPOINT\n");
            assert(first =~= "EXCEPTION: BREAKPOINT\n"@);
        },
        ExceptionKind::DoubleFault => {
            reveal_strlit("DOUBLE FAULT");
            reveal_strlit("EXCEPTION: DOUBLE FAULT\n");
            assert(first =~= "EXCEPTION: DOUBLE FAULT\n"@);
        },
        ExceptionKind::InvalidOpcode => {
            reveal_strlit("INVALID OPCODE (#UD)");
            reveal_strlit("EXCEPTION: INVALID OPCODE (#UD)\n");
            assert(first =~= "EXCEPTION: INVALID OPCODE (#UD)\n"@);
        },
        ExceptionKind::GeneralProtectionFault => {
            reveal_strlit("GENERAL PROTECTION FAULT (#GP)");
            reveal_strlit("EXCEPTION: GENERAL PROTECTION FAULT (#GP)\n");
            assert(first =~= "EXCEPTION: GENERAL PROTECTION FAULT (#GP)\n"@);
        },
        ExceptionKind::SegmentNotPresent => {
            reveal_strlit("SEGMENT NOT PRESENT (#NP)");
            reveal_strlit("EXCEPTION: SEGMENT NOT PRESENT (#NP)\n");
            assert(first =~= "EXCEPTION: SEGMENT NOT PRESENT (#NP)\n"@);
        },
        ExceptionKind::StackSegmentFault => {
            reveal_strlit("STACK SEGMENT FAULT (#SS)");
            reveal_strlit("EXCEPTION: STACK SEGMENT FAULT (#SS)\n");
            assert(first =~= "EXCEPTION: STACK SEGMENT FAULT (#SS)\n"@);
        },
        ExceptionKind::AlignmentCheck => {
            reveal_strlit("ALIGNMENT CHECK (#AC)");
            reveal_strlit("EXCEPTION: ALIGNMENT CHECK (#AC)\n");
            assert(first =~= "EXCEPTION: ALIGNMENT CHECK (#AC)\n"@);
        },
        ExceptionKind::PageFault => {
            reveal_strlit("PAGE FAULT (#PF)");
            reveal_strlit("EXCEPTION: PAGE FAULT (#PF)\n");
            assert(first =~= "EXCEPTION: PAGE FAULT (#PF)\n"@);
        },
    }
}

/// The origin of an exception depends on the requested privilege level of the
/// saved code segment selector alone, its two low bits: it is user mode
/// exactly when they are 3, whatever the other bits hold.
pub proof fn lemma_origin_is_requested_privilege_level(code_segment: u64)
    ensures
        (spec_exception_origin(code_segment) is User) <==> code_segment % 4 == 3,
        (spec_exception_origin(code_segment) is Kernel) <==> code_segment % 4 != 3,
{
    assert(code_segment & 3 == code_segment % 4) by (bit_vector);
}

/// The word that the decode line shows for bit `k` of `bits`.
pub open spec fn bit_word(bits: u64, k: u64) -> Seq<char> {
    if (bits >> k) & 1 == 1 {
        "true"@
    } else {
        "false"@
    }
}

/// Each value of the decode line of a page fault is exactly whether the bit of
/// its flag is set in the error code, whatever the other bits: bit 0 for
/// `protection_violation`, bit 1 for `write`, bit 2 for `user`, bit 3 for
/// `reserved_write`, bit 4 for `instruction_fetch`.
pub proof fn lemma_decode_line_reads_each_bit(bits: u64)
    ensures
        decode_line(bits) == ("PF_DECODE: protection_violation="@ + bit_word(bits, 0)) + (
        " write="@ + bit_word(bits, 1)) + (" user="@ + bit_word(bits, 2)) + (" reserved_write="@
            + bit_word(bits, 3)) + (" instruction_fetch="@ + bit_word(bits, 4)) + "\n"@,
{
    assert((bits & 1 == 1) <==> ((bits >> 0u64) & 1 == 1)) by (bit_vector);
    assert((bits & 2 == 2) <==> ((bits >> 1u64) & 1 == 1)) by (bit_vector);
    assert((bits & 4 == 4) <==> ((bits >> 2u64) & 1 == 1)) by (bit_vector);
    assert((bits & 8 == 8) <==> ((bits >> 3u64) & 1 == 1)) by (bit_vector);
    assert((bits & 16 == 16) <==> ((bits >> 4u64) & 1 == 1)) by (bit_vector);
    assert(bool_text(flag_set(bits, PageFaultFlag::ProtectionViolation)) == bit_word(bits, 0));
    assert(bool_text(flag_set(bits, PageFaultFlag::CausedByWrite)) == bit_word(bits, 1));
    assert(bool_text(flag_set(bits, PageFaultFlag::UserMode)) == bit_word(bits, 2));
    assert(bool_text(flag_set(bits, PageFaultFlag::MalformedTable)) == bit_word(bits, 3));
    assert(bool_text(flag_set(bits, PageFaultFlag::InstructionFetch)) == bit_word(bits, 4));
}

} // verus!
