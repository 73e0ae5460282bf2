# m6800

An emulator of the Motorola 6800 processor, verified with Verus.

- `src/memory.rs`: the `MemoryBus` trait, described by what a read returns
  at each address, where a write is kept and what the bus holds beyond the
  16-bit address space, and `FlatMemory`, a plain byte array, which is
  proved to be determined by those three.
- `src/opcodes.rs`: the instruction set as a table of 256 entries, and the
  decoder that is proved to follow it.
- `src/semantics.rs`: what each instruction and each step does, as functions
  on `CpuState`, the state of the processor seen through its bus, and on
  `Requests`, the pending reset and interrupt lines, which no instruction
  sees.
- `src/instructions.rs`: the instructions, executed on a processor, each
  proved to do what `semantics.rs` says.
- `src/cpu.rs`: registers, flags and the processor; `Cpu::step` is proved to
  perform one step of `semantics.rs`.
- `src/laws.rs`: properties that span operations: flag packing round trips,
  call and return, push and pull, interrupt stacking and RTI, halting, a
  masked interrupt request staying pending, and that no step writes where
  the bus does not keep writes.
