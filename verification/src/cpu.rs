use vstd::prelude::*;

use crate::instructions::Instructions;
use crate::memory::{bus_image, bus_stored, MemoryBus};
use crate::opcodes::{opcode_entry, Mnemonic, OpcodeEntry};
use crate::semantics::{
    decoded, executed, executed_cycles, fetched, halted_requests, halted_step, instruction_effect,
    interrupt, serviced, serviced_requests, step_cycles, step_requests, step_state,
};

verus! {

/// The programmer-visible registers.
pub struct Registers {
    pub a: u8,
    pub b: u8,
    pub ix: u16,
    pub sp: u16,
    pub pc: u16,
}

impl Registers {
    /// All registers cleared.
    pub fn new() -> (r: Self)
        ensures
            r == (Registers { a: 0, b: 0, ix: 0, sp: 0, pc: 0 }),
    {
        Self { a: 0, b: 0, ix: 0, sp: 0, pc: 0 }
    }
}

/// The condition code register: carry, overflow, zero, negative,
/// interrupt mask and half carry.
pub struct StatusFlags {
    pub c: bool,
    pub v: bool,
    pub z: bool,
    pub n: bool,
    pub i: bool,
    pub h: bool,
}

/// The flags packed in a byte: bit 0 is C, then V, Z, N, I, H; the top two
/// bits are ignored.
pub open spec fn flags_of_byte(val: u8) -> StatusFlags {
    StatusFlags {
        c: val & 0x01 != 0,
        v: val & 0x02 != 0,
        z: val & 0x04 != 0,
        n: val & 0x08 != 0,
        i: val & 0x10 != 0,
        h: val & 0x20 != 0,
    }
}

/// The byte of the flags: bit 0 is C, then V, Z, N, I, H; the top two bits
/// are set.
pub open spec fn byte_of_flags(f: StatusFlags) -> u8 {
    0xC0u8 | (if f.c { 0x01u8 } else { 0u8 }) | (if f.v { 0x02u8 } else { 0u8 }) | (if f.z {
        0x04u8
    } else {
        0u8
    }) | (if f.n { 0x08u8 } else { 0u8 }) | (if f.i { 0x10u8 } else { 0u8 }) | (if f.h {
        0x20u8
    } else {
        0u8
    })
}

impl StatusFlags {
    /// All flags clear but the interrupt mask.
    pub fn new() -> (f: Self)
        ensures
            f == (StatusFlags { c: false, v: false, z: false, n: false, i: true, h: false }),
    {
        Self { c: false, v: false, z: false, n: false, i: true, h: false }
    }

    /// Unpacks the flags from a byte.
    pub fn from_byte(val: u8) -> (f: Self)
        ensures
            f == flags_of_byte(val),
    {
        Self {
            c: (val & 0x01) != 0,
            v: (val & 0x02) != 0,
            z: (val & 0x04) != 0,
            n: (val & 0x08) != 0,
            i: (val & 0x10) != 0,
            h: (val & 0x20) != 0,
        }
    }

    /// Packs the flags in a byte.
    pub fn to_byte(&self) -> (b: u8)
        ensures
            b == byte_of_flags(*self),
    {
        let c = if self.c { 0x01u8 } else { 0u8 };
        let v = if self.v { 0x02u8 } else { 0u8 };
        let z = if self.z { 0x04u8 } else { 0u8 };
        let n = if self.n { 0x08u8 } else { 0u8 };
        let i = if self.i { 0x10u8 } else { 0u8 };
        let h = if self.h { 0x20u8 } else { 0u8 };
        let mut status: u8 = 0xC0;
        status = status | c;
        status = status | v;
        status = status | z;
        status = status | n;
        status = status | i;
        status = status | h;
        status
    }
}

/// `v` reduced to a byte.
pub open spec fn wrap8(v: int) -> u8 {
    (v % 256) as u8
}

/// `v` reduced to 16 bits.
pub open spec fn wrap16(v: int) -> u16 {
    (v % 65536) as u16
}

/// The 16-bit word with high byte `hi` and low byte `lo`.
pub open spec fn word(hi: u8, lo: u8) -> u16 {
    (hi * 256 + lo) as u16
}

/// What the processor is at a given moment: registers, flags, the bytes
/// that the bus reads at each address, the addresses where the bus keeps
/// writes, the bytes it holds where no address reaches, and whether it is
/// halted and has caught fire. The pending
/// requests are apart, in `Requests`: no instruction sees them.
pub struct CpuState {
    pub reg: Registers,
    pub status: StatusFlags,
    pub mem: Map<u16, u8>,
    pub stored: Set<u16>,
    pub beyond: Seq<u8>,
    pub halt: bool,
    pub catch_fire: bool,
}

/// The pending requests: non-maskable interrupt, interrupt request and
/// reset.
pub struct Requests {
    pub nmi: bool,
    pub irq: bool,
    pub reset: bool,
}

impl CpuState {
    /// The byte at `address`.
    pub open spec fn read8(self, address: u16) -> u8 {
        self.mem[address]
    }

    /// The big-endian word at `address` and the address after it.
    pub open spec fn read16(self, address: u16) -> u16 {
        word(self.mem[address], self.mem[wrap16(address + 1)])
    }

    /// The state after writing `value` at `address`.
    pub open spec fn write8(self, address: u16, value: u8) -> CpuState {
        CpuState {
            mem: if self.stored.contains(address) {
                self.mem.insert(address, value)
            } else {
                self.mem
            },
            ..self
        }
    }

    /// The state after writing the big-endian word `value` at `address`:
    /// the low byte first, at the next address, then the high byte.
    pub open spec fn write16(self, address: u16, value: u16) -> CpuState {
        self.write8(wrap16(address + 1), (value % 256) as u8).write8(address, (value / 256) as u8)
    }

    pub open spec fn with_reg(self, reg: Registers) -> CpuState {
        CpuState { reg, ..self }
    }

    pub open spec fn with_status(self, status: StatusFlags) -> CpuState {
        CpuState { status, ..self }
    }

    pub open spec fn with_pc(self, pc: u16) -> CpuState {
        self.with_reg(Registers { pc, ..self.reg })
    }

    pub open spec fn with_sp(self, sp: u16) -> CpuState {
        self.with_reg(Registers { sp, ..self.reg })
    }

    pub open spec fn with_ix(self, ix: u16) -> CpuState {
        self.with_reg(Registers { ix, ..self.reg })
    }

    pub open spec fn with_a(self, a: u8) -> CpuState {
        self.with_reg(Registers { a, ..self.reg })
    }

    pub open spec fn with_b(self, b: u8) -> CpuState {
        self.with_reg(Registers { b, ..self.reg })
    }

    /// The state after pushing the registers on the stack, from `sp` down:
    /// PC (low, high), IX (low, high), A, B and the flags; SP then points
    /// below them.
    pub open spec fn saved(self) -> CpuState {
        let sp = self.reg.sp;
        let s = self.write8(sp, (self.reg.pc % 256) as u8).write8(
            wrap16(sp - 1),
            (self.reg.pc / 256) as u8,
        ).write8(wrap16(sp - 2), (self.reg.ix % 256) as u8).write8(
            wrap16(sp - 3),
            (self.reg.ix / 256) as u8,
        ).write8(wrap16(sp - 4), self.reg.a).write8(wrap16(sp - 5), self.reg.b).write8(
            wrap16(sp - 6),
            byte_of_flags(self.status),
        );
        s.with_sp(wrap16(sp - 7))
    }

    /// The state after pulling the registers that `saved` pushed.
    pub open spec fn restored(self) -> CpuState {
        let sp = self.reg.sp;
        CpuState {
            status: flags_of_byte(self.read8(wrap16(sp + 1))),
            reg: Registers {
                b: self.read8(wrap16(sp + 2)),
                a: self.read8(wrap16(sp + 3)),
                ix: word(self.read8(wrap16(sp + 4)), self.read8(wrap16(sp + 5))),
                pc: word(self.read8(wrap16(sp + 6)), self.read8(wrap16(sp + 7))),
                sp: wrap16(sp + 7),
            },
            ..self
        }
    }
}

pub proof fn lemma_word_bits(hi: u8, lo: u8)
    ensures
        ((hi as u16) << 8u16 | lo as u16) == word(hi, lo),
{
    assert(((hi as u16) << 8u16 | lo as u16) == (hi * 256 + lo) as u16) by (bit_vector);
}

pub proof fn lemma_byte_bits(v: u16)
    ensures
        v as u8 == (v % 256) as u8,
        (v >> 8u16) as u8 == (v / 256) as u8,
{
    assert(v as u8 == (v % 256) as u8) by (bit_vector);
    assert((v >> 8u16) as u8 == (v / 256) as u8) by (bit_vector);
}

/// A processor on a memory bus.
pub struct Cpu<M: MemoryBus> {
    pub reg: Registers,
    pub status: StatusFlags,
    pub memory: M,
    pub halt: bool,
    pub catch_fire: bool,
    pub nmi: bool,
    pub irq: bool,
    pub reset: bool,
    pub(crate) total_cycles: u64,
}

impl<M: MemoryBus> Cpu<M> {
    /// The processor as a state.
    pub open(crate) spec fn state(&self) -> CpuState {
        CpuState {
            reg: self.reg,
            status: self.status,
            mem: bus_image(self.memory),
            stored: bus_stored(self.memory),
            beyond: self.memory.beyond(),
            halt: self.halt,
            catch_fire: self.catch_fire,
        }
    }

    /// The pending requests.
    pub open(crate) spec fn requests(&self) -> Requests {
        Requests { nmi: self.nmi, irq: self.irq, reset: self.reset }
    }

    /// The memory bus.
    pub open(crate) spec fn bus(&self) -> M {
        self.memory
    }

    /// The cycles that counted steps have taken.
    pub open(crate) spec fn cycle_count(&self) -> u64 {
        self.total_cycles
    }

    /// A processor on `memory`, with cleared registers, the interrupt mask
    /// set and a reset pending.
    pub fn new(memory: M) -> (cpu: Self)
        ensures
            cpu.bus() == memory,
            cpu.state() == (CpuState {
                reg: Registers { a: 0, b: 0, ix: 0, sp: 0, pc: 0 },
                status: StatusFlags { c: false, v: false, z: false, n: false, i: true, h: false },
                mem: bus_image(memory),
                stored: bus_stored(memory),
                beyond: memory.beyond(),
                halt: false,
                catch_fire: false,
            }),
            cpu.requests() == (Requests { nmi: false, irq: false, reset: true }),
            cpu.cycle_count() == 0,
    {
        Self {
            reg: Registers::new(),
            status: StatusFlags::new(),
            memory,
            halt: false,
            catch_fire: false,
            nmi: false,
            irq: false,
            reset: true,
            total_cycles: 0,
        }
    }

    /// Reads the byte at `address`.
    pub(crate) fn bus_read(&self, address: u16) -> (value: u8)
        ensures
            value == self.state().read8(address),
    {
        self.memory.read(address)
    }

    /// Writes `value` at `address`.
    pub(crate) fn bus_write(&mut self, address: u16, value: u8)
        ensures
            final(self).state() == old(self).state().write8(address, value),
            final(self).cycle_count() == old(self).cycle_count(),
            final(self).requests() == old(self).requests(),
    {
        let ghost s = self.state();
        self.memory.write(address, value);
        proof {
            let t = self.state();
            if s.stored.contains(address) {
                assert(t.mem =~= s.mem.insert(address, value));
            } else {
                assert(t.mem =~= s.mem);
            }
            assert(t.stored =~= s.stored);
        }
    }

    /// Reads the big-endian word at `address`.
    pub(crate) fn bus_read16(&self, address: u16) -> (value: u16)
        ensures
            value == self.state().read16(address),
    {
        let hi = self.bus_read(address);
        let lo = self.bus_read(address.wrapping_add(1));
        proof {
            lemma_word_bits(hi, lo);
        }
        (hi as u16) << 8 | lo as u16
    }

    /// Pushes the registers and flags on the stack.
    pub(crate) fn save_to_stack(&mut self)
        ensures
            final(self).state() == old(self).state().saved(),
            final(self).cycle_count() == old(self).cycle_count(),
            final(self).requests() == old(self).requests(),
    {
        let ghost s0 = self.state();
        let sp = self.reg.sp;
        let pc = self.reg.pc;
        let ix = self.reg.ix;
        let a = self.reg.a;
        let b = self.reg.b;
        let f = self.status.to_byte();
        proof {
            lemma_byte_bits(pc);
            lemma_byte_bits(ix);
        }
        let pc_lo = pc as u8;
        let pc_hi = (pc >> 8) as u8;
        let ix_lo = ix as u8;
        let ix_hi = (ix >> 8) as u8;
        let a1 = sp.wrapping_sub(1);
        let a2 = sp.wrapping_sub(2);
        let a3 = sp.wrapping_sub(3);
        let a4 = sp.wrapping_sub(4);
        let a5 = sp.wrapping_sub(5);
        let a6 = sp.wrapping_sub(6);
        assert(a1 == wrap16(sp - 1) && a2 == wrap16(sp - 2) && a3 == wrap16(sp - 3));
        assert(a4 == wrap16(sp - 4) && a5 == wrap16(sp - 5) && a6 == wrap16(sp - 6));
        self.bus_write(sp, pc_lo);
        self.bus_write(a1, pc_hi);
        self.bus_write(a2, ix_lo);
        self.bus_write(a3, ix_hi);
        self.bus_write(a4, a);
        self.bus_write(a5, b);
        self.bus_write(a6, f);
        let ghost s1 = self.state();
        let ghost pushed_pc = s0.write8(sp, pc_lo).write8(a1, pc_hi);
        let ghost pushed_ix = pushed_pc.write8(a2, ix_lo).write8(a3, ix_hi);
        assert(s1 == pushed_ix.write8(a4, a).write8(a5, b).write8(a6, f));
        self.reg.sp = sp.wrapping_sub(7);
    }

    /// Pulls the registers and flags from the stack.
    pub(crate) fn restore_from_stack(&mut self)
        ensures
            final(self).state() == old(self).state().restored(),
            final(self).cycle_count() == old(self).cycle_count(),
            final(self).requests() == old(self).requests(),
            final(self).bus() == old(self).bus(),
    {
        let sp = self.reg.sp;
        let f = self.bus_read(sp.wrapping_add(1));
        self.status = StatusFlags::from_byte(f);
        self.reg.b = self.bus_read(sp.wrapping_add(2));
        self.reg.a = self.bus_read(sp.wrapping_add(3));
        let ix_hi = self.bus_read(sp.wrapping_add(4));
        let ix_lo = self.bus_read(sp.wrapping_add(5));
        let pc_hi = self.bus_read(sp.wrapping_add(6));
        let pc_lo = self.bus_read(sp.wrapping_add(7));
        proof {
            lemma_word_bits(ix_hi, ix_lo);
            lemma_word_bits(pc_hi, pc_lo);
        }
        self.reg.ix = (ix_hi as u16) << 8 | ix_lo as u16;
        self.reg.pc = (pc_hi as u16) << 8 | pc_lo as u16;
        self.reg.sp = sp.wrapping_add(7);
    }

    /// Fetches the opcode at PC and moves past it.
    fn fetch(&mut self) -> (opcode: u8)
        ensures
            opcode == old(self).state().read8(old(self).reg.pc),
            final(self).state() == fetched(old(self).state()),
            final(self).cycle_count() == old(self).cycle_count(),
            final(self).requests() == old(self).requests(),
            final(self).bus() == old(self).bus(),
    {
        let opcode = self.bus_read(self.reg.pc);
        self.reg.pc = self.reg.pc.wrapping_add(1);
        opcode
    }

    /// The entry of `opcode`; that of opcode 0 once the processor has caught
    /// fire.
    fn decode(&self, opcode: u8) -> (e: OpcodeEntry)
        ensures
            e == decoded(self.state(), opcode),
    {
        if self.catch_fire {
            return opcode_entry(0x00);
        }
        opcode_entry(opcode)
    }

    /// Executes an entry; an opcode with no operation halts the processor
    /// and runs as NOP.
    fn execute(&mut self, entry: &OpcodeEntry) -> (cycles: u64)
        ensures
            final(self).state() == executed(old(self).state(), *entry),
            cycles == executed_cycles(*entry),
            final(self).cycle_count() == old(self).cycle_count(),
            final(self).requests() == old(self).requests(),
    {
        if matches!(entry.instruction, Mnemonic::Undefined) {
            self.halt = true;
            let nop = opcode_entry(0x01);
            self.execute_without_halt(&nop)
        } else {
            self.execute_without_halt(entry)
        }
    }

    fn execute_without_halt(&mut self, entry: &OpcodeEntry) -> (cycles: u64)
        ensures
            final(self).state() == instruction_effect(old(self).state(), *entry),
            cycles == entry.cycles as u64,
            final(self).cycle_count() == old(self).cycle_count(),
            final(self).requests() == old(self).requests(),
    {
        Instructions::call(self, entry);
        entry.cycles as u64
    }

    /// Reads the big-endian vector at `address`.
    fn vector(&self, address: u16) -> (v: u16)
        ensures
            v == word(self.state().read8(address), self.state().read8(wrap16(address + 1))),
    {
        let hi = self.bus_read(address);
        let lo = self.bus_read(address.wrapping_add(1));
        proof {
            lemma_word_bits(hi, lo);
        }
        (hi as u16) << 8 | lo as u16
    }

    /// Runs one step and returns the cycles it took. A halted processor
    /// takes one cycle, counted nowhere; a running one takes what is
    /// pending, then fetches, decodes and executes one instruction, and adds
    /// its cycles to the total.
    pub fn step(&mut self) -> (cycles: u64)
        requires
            !old(self).state().halt ==> old(self).cycle_count() + step_cycles(
                old(self).state(),
                old(self).requests(),
            ) <= u64::MAX,
        ensures
            final(self).state() == step_state(old(self).state(), old(self).requests()),
            final(self).requests() == step_requests(old(self).state(), old(self).requests()),
            old(self).state().halt ==> final(self).bus() == old(self).bus(),
            cycles == step_cycles(old(self).state(), old(self).requests()),
            final(self).cycle_count() == if old(self).state().halt {
                old(self).cycle_count() as int
            } else {
                old(self).cycle_count() + cycles
            },
    {
        let ghost s0 = self.state();
        if self.halt {
            self.halted_step();
            return 1;
        }
        self.service_pending();
        let opcode = self.fetch();
        let entry = self.decode(opcode);
        let cycles = self.execute(&entry);
        self.total_cycles = self.total_cycles + cycles;
        cycles
    }

    /// A step of a halted processor.
    fn halted_step(&mut self)
        ensures
            final(self).state() == halted_step(old(self).state(), old(self).requests()),
            final(self).requests() == halted_requests(old(self).state(), old(self).requests()),
            final(self).cycle_count() == old(self).cycle_count(),
            final(self).bus() == old(self).bus(),
    {
        if self.catch_fire {
            self.fetch();
        } else if self.nmi {
            self.nmi = false;
            self.status.i = true;
            let n: u16 = 0xFFFF;
            self.reg.pc = self.vector(n.wrapping_sub(3));
        } else if self.irq && !self.status.i {
            self.irq = false;
            self.status.i = true;
            let n: u16 = 0xFFFF;
            self.reg.pc = self.vector(n.wrapping_sub(7));
        }
    }

    /// Takes a pending reset or interrupt.
    fn service_pending(&mut self)
        ensures
            final(self).state() == serviced(old(self).state(), old(self).requests()),
            final(self).requests() == serviced_requests(old(self).state(), old(self).requests()),
            final(self).cycle_count() == old(self).cycle_count(),
    {
        let ghost s0 = self.state();
        if self.reset {
            self.reset = false;
            let n: u16 = 0xFFFF;
            self.reg.pc = self.vector(n.wrapping_sub(1));
        } else if self.nmi {
            self.nmi = false;
            self.save_to_stack();
            let ghost t = self.state();
            assert(t == s0.saved());
            let n: u16 = 0xFFFF;
            self.reg.pc = self.vector(n.wrapping_sub(3));
            assert(self.state() == t.with_pc(word(t.read8(0xFFFC), t.read8(0xFFFD))));
        } else if self.irq && !self.status.i {
            self.irq = false;
            self.save_to_stack();
            let ghost t = self.state();
            assert(t == s0.saved());
            self.status.i = true;
            let n: u16 = 0xFFFF;
            self.reg.pc = self.vector(n.wrapping_sub(7));
            assert(self.state() == interrupt(s0, 0xFFF8));
        }
    }

    /// The cycles that counted steps have taken.
    pub fn total_cycles(&self) -> (n: u64)
        ensures
            n == self.cycle_count(),
    {
        self.total_cycles
    }

    /// Lets a halted processor go on.
    pub fn run(&mut self)
        ensures
            final(self).state() == (CpuState { halt: false, ..old(self).state() }),
            final(self).bus() == old(self).bus(),
            final(self).cycle_count() == old(self).cycle_count(),
            final(self).requests() == old(self).requests(),
    {
        self.halt = false;
    }
}

} // verus!
