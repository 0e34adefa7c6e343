//! What the library takes from the `x86_64` crate: the descriptor table type
//! and its `load`, and the text and flag tests of page fault error codes and
//! virtual addresses. The contracts here are believed, not proved.
use vstd::prelude::*;
use x86_64::structures::idt::{InterruptDescriptorTable, PageFaultErrorCode};
use x86_64::VirtAddr;
use crate::report::PageFaultFlag;

verus! {

#[verifier::external_type_specification]
#[verifier::external_body]
pub struct ExInterruptDescriptorTable(InterruptDescriptorTable);

/// Calls `InterruptDescriptorTable::load`, which makes `idt` the table that
/// the CPU consults (`lidt`). Its effect is on the machine, so no clause
/// states it.
#[verifier::external_body]
pub(crate) fn load_descriptor_table(idt: &'static InterruptDescriptorTable) {
    idt.load()
}

/// The `Debug` text of the page fault error code whose bits are `bits`, as
/// the `bitflags` crate writes it for `PageFaultErrorCode`.
pub uninterp spec fn page_fault_code_debug(bits: u64) -> Seq<char>;

/// Formats `PageFaultErrorCode::from_bits_retain(bits)` with `{:?}`; the text
/// is named, not spelled out, as it is a function of `bits` alone.
#[verifier::external_body]
pub(crate) fn page_fault_code_text(bits: u64) -> (text: String)
    ensures
        text@ == page_fault_code_debug(bits),
{
    format!("{:?}", PageFaultErrorCode::from_bits_retain(bits))
}

/// The bit that `x86_64` gives to each page fault flag that the kernel
/// decodes.
pub open spec fn page_fault_flag_bit(flag: PageFaultFlag) -> u64 {
    match flag {
        PageFaultFlag::ProtectionViolation => 1,
        PageFaultFlag::CausedByWrite => 2,
        PageFaultFlag::UserMode => 4,
        PageFaultFlag::MalformedTable => 8,
        PageFaultFlag::InstructionFetch => 16,
    }
}

/// Calls `PageFaultErrorCode::contains` on the code with bits `bits` and the
/// constant named by `flag`: true when every bit of the flag is set.
#[verifier::external_body]
pub(crate) fn page_fault_flag_set(bits: u64, flag: PageFaultFlag) -> (set: bool)
    ensures
        set == (bits & page_fault_flag_bit(flag) == page_fault_flag_bit(flag)),
{
    let flag = match flag {
        PageFaultFlag::ProtectionViolation => PageFaultErrorCode::PROTECTION_VIOLATION,
        PageFaultFlag::CausedByWrite => PageFaultErrorCode::CAUSED_BY_WRITE,
        PageFaultFlag::UserMode => PageFaultErrorCode::USER_MODE,
        PageFaultFlag::MalformedTable => PageFaultErrorCode::MALFORMED_TABLE,
        PageFaultFlag::InstructionFetch => PageFaultErrorCode::INSTRUCTION_FETCH,
    };
    PageFaultErrorCode::from_bits_retain(bits).contains(flag)
}

/// The `Debug` text of `VirtAddr::new_truncate(addr)`, which for a canonical
/// address is the address itself.
pub uninterp spec fn virt_addr_debug(addr: u64) -> Seq<char>;

/// Formats the virtual address `addr` with `{:?}`; the text is named, as it
/// is a function of `addr` alone.
#[verifier::external_body]
pub(crate) fn virt_addr_text(addr: u64) -> (text: String)
    ensures
        text@ == virt_addr_debug(addr),
{
    format!("{:?}", VirtAddr::new_truncate(addr))
}

} // verus!
