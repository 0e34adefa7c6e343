use gear_os_interrupts::exceptions::{exception_report, page_fault_report, AfterReport, ExceptionKind};
use gear_os_interrupts::hex::push_hex;
use gear_os_interrupts::report::{
    exception_origin, write_exception_report, write_page_fault_details, write_report_lines,
    ExceptionErrorCode, ExceptionOrigin, StackFrameSnapshot,
};

fn sample_frame() -> StackFrameSnapshot {
    StackFrameSnapshot {
        instruction_pointer: 0x1111,
        code_segment: 0x8,
        cpu_flags: 0x202,
        stack_pointer: 0x2222,
        stack_segment: 0x0,
    }
}

fn idx(hay: &str, needle: &str) -> usize {
    hay.find(needle).unwrap_or(usize::MAX)
}

#[test]
fn exception_report_format() {
    let mut out = String::new();
    let frame = sample_frame();
    write_exception_report(
        &mut out,
        "GENERAL PROTECTION FAULT (#GP)",
        ExceptionOrigin::Kernel,
        Some(ExceptionErrorCode::Hex(0xdead)),
        &frame,
    );
    let s = out.as_str();
    let a = idx(s, "EXCEPTION:");
    let b = idx(s, "Origin:");
    let c = idx(s, "Error Code:");
    let d = idx(s, "Frame:");
    assert!(a < b && b < c && c < d, "unexpected report order:\n{}", s);
    assert!(s.contains("EXCEPTION: GENERAL PROTECTION FAULT (#GP)"));
    assert!(s.contains("Origin: kernel"));
    assert!(s.contains("Error Code: 0xdead"));
    assert_eq!(
        s,
        "EXCEPTION: GENERAL PROTECTION FAULT (#GP)\nOrigin: kernel\nError Code: 0xdead\n\
         Frame: rip=0x1111 cs=0x8 rflags=0x202 rsp=0x2222 ss=0x0\n"
    );
}

#[test]
fn report_without_error_code_has_no_code_line() {
    let mut out = String::from("previous\n");
    write_exception_report(&mut out, "BREAKPOINT", ExceptionOrigin::User, None, &sample_frame());
    assert_eq!(
        out,
        "previous\nEXCEPTION: BREAKPOINT\nOrigin: user\n\
         Frame: rip=0x1111 cs=0x8 rflags=0x202 rsp=0x2222 ss=0x0\n"
    );
}

#[test]
fn report_lines_take_code_text_as_given() {
    let mut out = String::new();
    write_report_lines(&mut out, "X", ExceptionOrigin::Kernel, Some("anything"), &sample_frame());
    assert_eq!(
        out,
        "EXCEPTION: X\nOrigin: kernel\nError Code: anything\n\
         Frame: rip=0x1111 cs=0x8 rflags=0x202 rsp=0x2222 ss=0x0\n"
    );
}

#[test]
fn page_fault_code_is_shown_by_flag_names() {
    let mut out = String::new();
    write_exception_report(
        &mut out,
        "PAGE FAULT (#PF)",
        ExceptionOrigin::Kernel,
        Some(ExceptionErrorCode::PageFault(0b11)),
        &sample_frame(),
    );
    assert!(
        out.contains("Error Code: PageFaultErrorCode(PROTECTION_VIOLATION | CAUSED_BY_WRITE)\n"),
        "{}",
        out
    );
    assert!(!out.contains("0x3\n"));
}

#[test]
fn empty_page_fault_code() {
    let mut out = String::new();
    write_exception_report(
        &mut out,
        "PAGE FAULT (#PF)",
        ExceptionOrigin::Kernel,
        Some(ExceptionErrorCode::PageFault(0)),
        &sample_frame(),
    );
    assert!(out.contains("Error Code: PageFaultErrorCode(0x0)\n"), "{}", out);
}

#[test]
fn hex_formatting_matches_alternate_hex() {
    for v in [0u64, 1, 9, 10, 15, 16, 0xff, 0x100, 0xdead, 0x1234_5678_9abc_def0, u64::MAX] {
        let mut out = String::new();
        push_hex(&mut out, v);
        assert_eq!(out, format!("{:#x}", v));
        let parsed = u64::from_str_radix(&out[2..], 16).unwrap();
        assert_eq!(parsed, v);
    }
}

#[test]
fn origin_follows_requested_privilege_level() {
    let mut frame = sample_frame();
    for (cs, user) in [(0x8u64, false), (0x1b, true), (0x23, true), (0x10, false), (0x2b, true), (0x1, false), (0x2, false), (0x3, true)] {
        frame.code_segment = cs;
        let origin = exception_origin(&frame);
        assert_eq!(matches!(origin, ExceptionOrigin::User), user, "cs={:#x}", cs);
    }
    assert_eq!(ExceptionOrigin::Kernel.as_str(), "kernel");
    assert_eq!(ExceptionOrigin::User.as_str(), "user");
}

#[test]
fn exception_reports_of_each_kind() {
    let frame = StackFrameSnapshot { code_segment: 0x1b, ..sample_frame() };
    let gp = exception_report(ExceptionKind::GeneralProtectionFault, &frame, 0x10);
    assert_eq!(
        gp,
        "EXCEPTION: GENERAL PROTECTION FAULT (#GP)\nOrigin: user\nError Code: 0x10\n\
         Frame: rip=0x1111 cs=0x1b rflags=0x202 rsp=0x2222 ss=0x0\n"
    );
    let df = exception_report(ExceptionKind::DoubleFault, &frame, 0);
    assert!(df.starts_with("EXCEPTION: DOUBLE FAULT\nOrigin: user\nFrame:"), "{}", df);
    let ud = exception_report(ExceptionKind::InvalidOpcode, &frame, 77);
    assert!(!ud.contains("Error Code"));
    for (kind, name) in [
        (ExceptionKind::SegmentNotPresent, "SEGMENT NOT PRESENT (#NP)"),
        (ExceptionKind::StackSegmentFault, "STACK SEGMENT FAULT (#SS)"),
        (ExceptionKind::AlignmentCheck, "ALIGNMENT CHECK (#AC)"),
    ] {
        let r = exception_report(kind, &frame, 0xabc);
        assert!(r.starts_with(&format!("EXCEPTION: {}\n", name)), "{}", r);
        assert!(r.contains("Error Code: 0xabc\n"));
    }
}

#[test]
fn after_report_policy() {
    assert_eq!(ExceptionKind::Breakpoint.after_report(), AfterReport::Resume);
    assert_eq!(ExceptionKind::PageFault.after_report(), AfterReport::Panic);
    for kind in [
        ExceptionKind::DoubleFault,
        ExceptionKind::InvalidOpcode,
        ExceptionKind::GeneralProtectionFault,
        ExceptionKind::SegmentNotPresent,
        ExceptionKind::StackSegmentFault,
        ExceptionKind::AlignmentCheck,
    ] {
        assert_eq!(kind.after_report(), AfterReport::Halt);
    }
    assert!(ExceptionKind::DoubleFault.uses_dedicated_stack());
    assert!(!ExceptionKind::PageFault.uses_dedicated_stack());
}

#[test]
fn page_fault_details_lines() {
    let mut out = String::new();
    write_page_fault_details(&mut out, "somewhere", 0b1_0110);
    assert_eq!(
        out,
        "CR2: somewhere\nPF_DECODE: protection_violation=false write=true user=true \
         reserved_write=false instruction_fetch=true\n"
    );
}

#[test]
fn page_fault_report_reads_address_and_flags() {
    let r = page_fault_report(&sample_frame(), 0b1001, 0xdead_beaf_000);
    assert_eq!(
        r,
        "EXCEPTION: PAGE FAULT (#PF)\nOrigin: kernel\n\
         Error Code: PageFaultErrorCode(PROTECTION_VIOLATION | MALFORMED_TABLE)\n\
         Frame: rip=0x1111 cs=0x8 rflags=0x202 rsp=0x2222 ss=0x0\n\
         CR2: VirtAddr(0xdeadbeaf000)\n\
         PF_DECODE: protection_violation=true write=false user=false reserved_write=true instruction_fetch=false\n"
    );
}
