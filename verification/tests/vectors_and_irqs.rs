use core::sync::atomic::AtomicU64;
use gear_os_interrupts::exceptions::ExceptionKind;
use gear_os_interrupts::idt::{idt_handler, IdtHandler};
use gear_os_interrupts::pic::{
    irq_line, irq_response, irq_vector, pic_masks, InterruptIndex, PIC_1_OFFSET, PIC_2_OFFSET,
    PIC_IRQ_COUNT,
};
use gear_os_interrupts::ticks::{serve_irq, timer_ticks};

#[test]
fn offsets_and_named_vectors() {
    assert_eq!(PIC_1_OFFSET, 32);
    assert_eq!(PIC_2_OFFSET, 40);
    assert_eq!(PIC_IRQ_COUNT, 16);
    assert_eq!(InterruptIndex::Timer.as_u8(), 32);
    assert_eq!(InterruptIndex::Keyboard.as_u8(), 33);
    assert_eq!(InterruptIndex::Pic2Start.as_u8(), 40);
    assert_eq!(InterruptIndex::Timer.as_usize(), 32usize);
    assert_eq!(InterruptIndex::Keyboard.as_usize(), 33usize);
    assert_eq!(InterruptIndex::Pic2Start.as_usize(), 40usize);
}

#[test]
fn pic_masks_leave_only_the_timer_enabled() {
    let masks = pic_masks();
    assert_eq!(masks.primary, 0xFE);
    assert_eq!(masks.secondary, 0xFF);
}

#[test]
fn idt_has_minimum_exception_handlers() {
    for (vector, kind) in [
        (6u8, ExceptionKind::InvalidOpcode),
        (11, ExceptionKind::SegmentNotPresent),
        (12, ExceptionKind::StackSegmentFault),
        (13, ExceptionKind::GeneralProtectionFault),
        (14, ExceptionKind::PageFault),
        (17, ExceptionKind::AlignmentCheck),
        (3, ExceptionKind::Breakpoint),
        (8, ExceptionKind::DoubleFault),
    ] {
        assert_eq!(idt_handler(vector), Some(IdtHandler::Exception(kind)), "vector {}", vector);
        assert_eq!(kind.vector(), vector);
    }
}

#[test]
fn every_pic_vector_has_a_handler_that_acknowledges_it() {
    for vector in 32u8..=47 {
        match idt_handler(vector) {
            Some(IdtHandler::Irq(line)) => {
                assert_eq!(line, vector - 32);
                assert_eq!(irq_vector(line), vector);
                assert_eq!(irq_response(line).end_of_interrupt, vector);
            }
            other => panic!("vector {} has {:?}", vector, other),
        }
    }
}

#[test]
fn other_vectors_stay_empty() {
    let installed = [3u8, 6, 8, 11, 12, 13, 14, 17];
    for vector in 0u8..=255 {
        if (32..48).contains(&vector) || installed.contains(&vector) {
            assert!(idt_handler(vector).is_some());
        } else {
            assert_eq!(idt_handler(vector), None, "vector {}", vector);
        }
    }
}

#[test]
fn irq_lines_and_vectors_round_trip() {
    for line in 0u8..16 {
        assert_eq!(irq_line(irq_vector(line)), Some(line));
    }
    assert_eq!(irq_vector(0), 32);
    assert_eq!(irq_vector(7), 39);
    assert_eq!(irq_vector(8), 40);
    assert_eq!(irq_vector(15), 47);
    assert_eq!(irq_line(31), None);
    assert_eq!(irq_line(48), None);
    assert_eq!(irq_line(0), None);
}

#[test]
fn only_the_timer_counts_ticks() {
    assert!(irq_response(0).count_tick);
    for line in 1u8..16 {
        assert!(!irq_response(line).count_tick, "line {}", line);
    }
}

#[test]
fn timer_ticks_progress() {
    let counter = AtomicU64::new(0);
    let start = timer_ticks(&counter);
    assert_eq!(serve_irq(0, &counter), 32);
    assert_eq!(serve_irq(0, &counter), 32);
    assert_eq!(serve_irq(1, &counter), 33);
    assert_eq!(serve_irq(8, &counter), 40);
    assert_eq!(serve_irq(15, &counter), 47);
    let end = timer_ticks(&counter);
    assert_eq!(end, start + 2);
}

#[test]
fn tick_count_wraps() {
    let counter = AtomicU64::new(u64::MAX);
    serve_irq(0, &counter);
    assert_eq!(timer_ticks(&counter), 0);
}
