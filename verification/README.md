# gear_os_interrupts

Interrupt handling of the gear_os kernel, as a Verus-verified library.

- `src/pic.rs`: offsets of the two chained 8259 PICs, IRQ line and vector
  correspondence, the start-up interrupt masks (only the timer enabled) and
  what the handler of each IRQ line does.
- `src/idt.rs`: the handler at each vector of the descriptor table, and its
  loading.
- `src/exceptions.rs`: the handled CPU exceptions, their names, error codes,
  reports and what follows each report (resume, halt or panic).
- `src/report.rs`, `src/hex.rs`: the text of exception reports.
- `src/ticks.rs`: the timer tick counter.
- `src/arch.rs`: the items taken from the `x86_64` crate, with their
  contracts.
- `src/laws.rs`: properties that tie the pieces together.
- `app/`: the kernel side: the static descriptor table and PICs, the
  `x86-interrupt` handlers, serial output. It needs a nightly compiler for
  the `x86-interrupt` calling convention.
