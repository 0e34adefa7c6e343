//! Interrupt handling for the gear_os kernel: the vector layout of the
//! interrupt descriptor table, the policy of the chained 8259 PICs, the
//! decisions of every exception and IRQ handler, and the text of the
//! exception reports that the handlers print.
pub mod pic;
pub mod hex;
pub mod arch;
pub mod report;
pub mod exceptions;
pub mod idt;
pub mod ticks;
pub mod laws;
