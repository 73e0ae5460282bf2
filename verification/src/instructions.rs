//! The instructions, executed on a processor.
use vstd::prelude::*;

use crate::cpu::{lemma_byte_bits, lemma_word_bits, wrap16, wrap8, Cpu, StatusFlags};
use crate::memory::MemoryBus;
use crate::opcodes::{Accumulator, AddrMode, Mnemonic, OpcodeEntry};
use crate::semantics::{
    aba_effect, acc_value, adc_effect, add_bytes, add_effect, advanced, alu_operand, and_effect,
    asl_byte, asl_effect, asr_byte, asr_effect, bit_effect, branch_effect, branch_instruction,
    branch_taken, branch_target, bsr_effect, call_to, cba_effect, clr_effect, com_byte, com_effect,
    compare_effect, control_effect, control_instruction, cpx_effect, dec_byte, dec_effect,
    eor_effect, flag_effect, flag_instruction, inc_byte, inc_effect, instruction_effect, jmp_effect,
    jsr_effect, lda_effect, lds_effect, ldx_effect, lsr_byte, lsr_effect, may_write_bus, nba_effect,
    neg_byte, neg_effect, operand, operand_effect, operand_instruction, operand_length, ora_effect,
    psh_effect, pul_effect, read_modify_write, read_modify_write_effect, register_effect,
    register_instruction, rmw_base, rmw_input, rmw_output, rol_byte, rol_effect, ror_byte,
    ror_effect, rts_effect, sba_effect, sbc_effect, sta_effect, store_address, stored, sts_effect,
    stx_effect, sub16_overflows, sub_bytes, sub_effect, sub_overflows, swi_effect, tab_effect,
    tap_effect, tba_effect, tpa_effect, tst_effect, with_acc, with_nz, with_nz16,
};

verus! {

/// The instruction executor.
pub struct Instructions;

impl Instructions {
    /// Prepares the executor for a processor; there is nothing to prepare.
    pub fn init<M: MemoryBus>(&self, _cpu: &Cpu<M>) {
    }

    /// Executes the entry's instruction, with PC at the byte after the
    /// opcode.
    pub fn call<M: MemoryBus>(cpu: &mut Cpu<M>, entry: &OpcodeEntry)
        ensures
            final(cpu).state() == instruction_effect(old(cpu).state(), *entry),
            final(cpu).cycle_count() == old(cpu).cycle_count(),
            final(cpu).requests() == old(cpu).requests(),
            !may_write_bus(*entry) ==> final(cpu).bus() == old(cpu).bus(),
    {
        match entry.instruction {
            Mnemonic::Clv | Mnemonic::Sev | Mnemonic::Clc | Mnemonic::Sec | Mnemonic::Cli
            | Mnemonic::Sei | Mnemonic::Tap | Mnemonic::Tpa => exec_flags(cpu, entry),
            Mnemonic::Nop | Mnemonic::Inx | Mnemonic::Dex | Mnemonic::Sba | Mnemonic::Cba
            | Mnemonic::Nba | Mnemonic::Tab | Mnemonic::Tba | Mnemonic::Daa | Mnemonic::Aba
            | Mnemonic::Tsx | Mnemonic::Ins | Mnemonic::Des | Mnemonic::Txs => {
                exec_registers(cpu, entry)
            },
            Mnemonic::Pul | Mnemonic::Psh | Mnemonic::Rts | Mnemonic::Rti | Mnemonic::Wai
            | Mnemonic::Swi | Mnemonic::Bsr | Mnemonic::Jsr | Mnemonic::Jmp | Mnemonic::Hcf
            | Mnemonic::Undefined => exec_control(cpu, entry),
            Mnemonic::Neg | Mnemonic::Com | Mnemonic::Lsr | Mnemonic::Ror | Mnemonic::Asr
            | Mnemonic::Asl | Mnemonic::Rol | Mnemonic::Dec | Mnemonic::Inc | Mnemonic::Tst
            | Mnemonic::Clr => exec_unary(cpu, entry),
            Mnemonic::Sub | Mnemonic::Cmp | Mnemonic::Sbc | Mnemonic::And | Mnemonic::Bit
            | Mnemonic::Lda | Mnemonic::Sta | Mnemonic::Eor | Mnemonic::Adc | Mnemonic::Ora
            | Mnemonic::Add | Mnemonic::Cpx | Mnemonic::Lds | Mnemonic::Sts | Mnemonic::Ldx
            | Mnemonic::Stx => exec_memory(cpu, entry),
            Mnemonic::Bra | Mnemonic::Bhi | Mnemonic::Bls | Mnemonic::Bcc | Mnemonic::Bcs
            | Mnemonic::Bne | Mnemonic::Beq | Mnemonic::Bvc | Mnemonic::Bvs | Mnemonic::Bpl
            | Mnemonic::Bmi | Mnemonic::Bge | Mnemonic::Blt | Mnemonic::Bgt | Mnemonic::Ble => {
                exec_branch(cpu, entry)
            },
        }
    }
}

/// Flag instructions.
fn exec_flags<M: MemoryBus>(cpu: &mut Cpu<M>, entry: &OpcodeEntry)
    requires
        flag_instruction(entry.instruction),
    ensures
        final(cpu).state() == flag_effect(old(cpu).state(), *entry),
        final(cpu).cycle_count() == old(cpu).cycle_count(),
        final(cpu).requests() == old(cpu).requests(),
        final(cpu).bus() == old(cpu).bus(),
{
    match entry.instruction {
        Mnemonic::Clv => {
            cpu.status.v = false;
        },
        Mnemonic::Sev => {
            cpu.status.v = true;
        },
        Mnemonic::Clc => {
            cpu.status.c = false;
        },
        Mnemonic::Sec => {
            cpu.status.c = true;
        },
        Mnemonic::Cli => {
            cpu.status.i = false;
        },
        Mnemonic::Sei => {
            cpu.status.i = true;
        },
        Mnemonic::Tap => tap(cpu),
        Mnemonic::Tpa => tpa(cpu),
        _ => {},
    }
}

/// Register instructions.
fn exec_registers<M: MemoryBus>(cpu: &mut Cpu<M>, entry: &OpcodeEntry)
    requires
        register_instruction(entry.instruction),
    ensures
        final(cpu).state() == register_effect(old(cpu).state(), *entry),
        final(cpu).cycle_count() == old(cpu).cycle_count(),
        final(cpu).requests() == old(cpu).requests(),
        final(cpu).bus() == old(cpu).bus(),
{
    match entry.instruction {
        Mnemonic::Nop => {},
        Mnemonic::Inx => ix_op(cpu, increment),
        Mnemonic::Dex => ix_op(cpu, decrement),
        Mnemonic::Sba => sba(cpu),
        Mnemonic::Cba => cba(cpu),
        Mnemonic::Nba => nba(cpu),
        Mnemonic::Tab => tab(cpu),
        Mnemonic::Tba => tba(cpu),
        Mnemonic::Daa => {},
        Mnemonic::Aba => aba(cpu),
        Mnemonic::Tsx => {
            cpu.reg.ix = cpu.reg.sp.wrapping_add(1);
        },
        Mnemonic::Ins => {
            cpu.reg.sp = cpu.reg.sp.wrapping_add(1);
        },
        Mnemonic::Des => {
            cpu.reg.sp = cpu.reg.sp.wrapping_sub(1);
        },
        Mnemonic::Txs => {
            cpu.reg.sp = cpu.reg.ix.wrapping_sub(1);
        },
        _ => {},
    }
}

/// Stack, jump and halt instructions.
fn exec_control<M: MemoryBus>(cpu: &mut Cpu<M>, entry: &OpcodeEntry)
    requires
        control_instruction(entry.instruction),
    ensures
        final(cpu).state() == control_effect(old(cpu).state(), *entry),
        final(cpu).cycle_count() == old(cpu).cycle_count(),
        final(cpu).requests() == old(cpu).requests(),
        !may_write_bus(*entry) ==> final(cpu).bus() == old(cpu).bus(),
{
    match entry.instruction {
        Mnemonic::Pul => pul(cpu, entry),
        Mnemonic::Psh => psh(cpu, entry),
        Mnemonic::Rts => rts(cpu),
        Mnemonic::Rti => {
            cpu.restore_from_stack();
        },
        Mnemonic::Wai => {
            cpu.save_to_stack();
            cpu.halt = true;
        },
        Mnemonic::Swi => swi(cpu),
        Mnemonic::Bsr => bsr(cpu),
        Mnemonic::Jsr => jsr(cpu, entry),
        Mnemonic::Jmp => jmp(cpu, entry),
        Mnemonic::Hcf => {
            cpu.halt = true;
            cpu.catch_fire = true;
        },
        Mnemonic::Undefined => {},

        _ => {},
    }
}

/// Read-modify-write instructions.
fn exec_unary<M: MemoryBus>(cpu: &mut Cpu<M>, entry: &OpcodeEntry)
    requires
        read_modify_write(entry.instruction),
    ensures
        final(cpu).state() == read_modify_write_effect(old(cpu).state(), *entry),
        final(cpu).cycle_count() == old(cpu).cycle_count(),
        final(cpu).requests() == old(cpu).requests(),
        !may_write_bus(*entry) ==> final(cpu).bus() == old(cpu).bus(),
{
    match entry.instruction {
        Mnemonic::Neg => neg(cpu, entry),
        Mnemonic::Com => com(cpu, entry),
        Mnemonic::Lsr => lsr(cpu, entry),
        Mnemonic::Ror => ror_op(cpu, entry),
        Mnemonic::Asr => asr_op(cpu, entry),
        Mnemonic::Asl => asl_op(cpu, entry),
        Mnemonic::Rol => rol_op(cpu, entry),
        Mnemonic::Dec => dec(cpu, entry),
        Mnemonic::Inc => inc(cpu, entry),
        Mnemonic::Tst => tst(cpu, entry),
        Mnemonic::Clr => clr_op(cpu, entry),
        _ => {},
    }
}

/// Accumulator, index and stack pointer instructions with an operand.
fn exec_memory<M: MemoryBus>(cpu: &mut Cpu<M>, entry: &OpcodeEntry)
    requires
        operand_instruction(entry.instruction),
    ensures
        final(cpu).state() == operand_effect(old(cpu).state(), *entry),
        final(cpu).cycle_count() == old(cpu).cycle_count(),
        final(cpu).requests() == old(cpu).requests(),
        !may_write_bus(*entry) ==> final(cpu).bus() == old(cpu).bus(),
{
    match entry.instruction {
        Mnemonic::Sub => self::sub(cpu, entry),
        Mnemonic::Cmp => compare(cpu, entry),
        Mnemonic::Sbc => sbc(cpu, entry),
        Mnemonic::And => and_op(cpu, entry),
        Mnemonic::Bit => bit_op(cpu, entry),
        Mnemonic::Lda => lda(cpu, entry),
        Mnemonic::Sta => sta(cpu, entry),
        Mnemonic::Eor => eor(cpu, entry),
        Mnemonic::Adc => adc(cpu, entry),
        Mnemonic::Ora => ora(cpu, entry),
        Mnemonic::Add => self::add(cpu, entry),
        Mnemonic::Cpx => cpx(cpu, entry),
        Mnemonic::Lds => lds(cpu, entry),
        Mnemonic::Sts => sts(cpu, entry),
        Mnemonic::Ldx => ldx(cpu, entry),
        Mnemonic::Stx => stx(cpu, entry),
        _ => {},
    }
}

/// Branches.
fn exec_branch<M: MemoryBus>(cpu: &mut Cpu<M>, entry: &OpcodeEntry)
    requires
        branch_instruction(entry.instruction),
    ensures
        final(cpu).state() == branch_effect(
            old(cpu).state(),
            branch_taken(entry.instruction, old(cpu).status),
        ),
        final(cpu).cycle_count() == old(cpu).cycle_count(),
        final(cpu).requests() == old(cpu).requests(),
        final(cpu).bus() == old(cpu).bus(),
{
    match entry.instruction {
        Mnemonic::Bra => branch(cpu, true),
        Mnemonic::Bhi => {
            let taken = !cpu.status.c && !cpu.status.z;
            branch(cpu, taken)
        },
        Mnemonic::Bls => {
            let taken = cpu.status.c || cpu.status.z;
            branch(cpu, taken)
        },
        Mnemonic::Bcc => {
            let taken = !cpu.status.c;
            branch(cpu, taken)
        },
        Mnemonic::Bcs => {
            let taken = cpu.status.c;
            branch(cpu, taken)
        },
        Mnemonic::Bne => {
            let taken = !cpu.status.z;
            branch(cpu, taken)
        },
        Mnemonic::Beq => {
            let taken = cpu.status.z;
            branch(cpu, taken)
        },
        Mnemonic::Bvc => {
            let taken = !cpu.status.v;
            branch(cpu, taken)
        },
        Mnemonic::Bvs => {
            let taken = cpu.status.v;
            branch(cpu, taken)
        },
        Mnemonic::Bpl => {
            let taken = !cpu.status.n;
            branch(cpu, taken)
        },
        Mnemonic::Bmi => {
            let taken = cpu.status.n;
            branch(cpu, taken)
        },
        Mnemonic::Bge => {
            let taken = cpu.status.n == cpu.status.v;
            branch(cpu, taken)
        },
        Mnemonic::Blt => {
            let taken = cpu.status.n != cpu.status.v;
            branch(cpu, taken)
        },
        Mnemonic::Bgt => {
            let taken = !cpu.status.z && cpu.status.n == cpu.status.v;
            branch(cpu, taken)
        },
        Mnemonic::Ble => {
            let taken = cpu.status.z || cpu.status.n != cpu.status.v;
            branch(cpu, taken)
        },
        _ => {},
    }
}

// ---------------------------------------------------------------------
// Bit-level facts
// ---------------------------------------------------------------------

proof fn lemma_bit7(r: u8)
    ensures
        (r & 0x80 != 0) == (r >= 128),
        (r & 0x01 != 0) == (r % 2 == 1),
        r >> 1u8 == r / 2,
        !r == 255 - r,
        (r >> 1u8) | 0x80 == r / 2 + 128,
{
    assert((r & 0x80 != 0) == (r >= 128)) by (bit_vector);
    assert((r & 0x01 != 0) == (r % 2 == 1)) by (bit_vector);
    assert(r >> 1u8 == r / 2) by (bit_vector);
    assert(!r == 255 - r) by (bit_vector);
    assert((r >> 1u8) | 0x80 == r / 2 + 128) by (bit_vector);
}

proof fn lemma_bit15(r: u16)
    ensures
        (r & 0x8000 != 0) == (r >= 0x8000),
        (r & 0x80 != 0) == (r % 256 >= 128),
        (r & 0xFF == 0) == (r % 256 == 0),
{
    assert((r & 0x8000 != 0) == (r >= 0x8000)) by (bit_vector);
    assert((r & 0x80 != 0) == (r % 256 >= 128)) by (bit_vector);
    assert((r & 0xFF == 0) == (r % 256 == 0)) by (bit_vector);
}

proof fn lemma_low_byte(r: u16)
    requires
        r < 512,
    ensures
        r as u8 == wrap8(r as int),
        ((r & 0xFF) == 0) == (r as u8 == 0),
        ((r & 0x80) != 0) == (r as u8 >= 128),
{
    lemma_wrap8(r as int);
    assert(r > 255 ==> r as u8 == (r - 256) as u8) by (bit_vector);
    assert(((r & 0xFF) == 0) == (r as u8 == 0)) by (bit_vector);
    assert(((r & 0x80) != 0) == (r as u8 >= 128)) by (bit_vector);
}

proof fn lemma_wrap8(v: int)
    requires
        -512 <= v < 512,
    ensures
        wrap8(v) == if v < -256 {
            (v + 512) as u8
        } else if v < 0 {
            (v + 256) as u8
        } else if v > 255 {
            (v - 256) as u8
        } else {
            v as u8
        },
{
}

/// The flag formulas of a subtraction give its signed overflow and its
/// borrow.
pub proof fn lemma_sub_flags(x: u8, m: u8, borrow: int)
    requires
        borrow == 0 || borrow == 1,
    ensures
        ({
            let r = wrap8(x - m - borrow);
            &&& ((x >= 128 && m < 128 && r < 128) || (x < 128 && m >= 128 && r >= 128))
                == sub_overflows(x, m, borrow)
            &&& ((x < 128 && m >= 128) || (m >= 128 && r >= 128) || (r >= 128 && x < 128)) == (x
                < m + borrow)
        }),
{
}

/// The flag formula of a word subtraction gives its signed overflow.
pub proof fn lemma_sub16_flags(x: u16, m: u16)
    ensures
        ({
            let r = wrap16(x - m);
            ((x >= 0x8000 && m < 0x8000 && r < 0x8000) || (x < 0x8000 && m >= 0x8000 && r
                >= 0x8000)) == sub16_overflows(x, m)
        }),
{
}

// ---------------------------------------------------------------------
// Bus access and addressing
// ---------------------------------------------------------------------

fn st<M: MemoryBus>(cpu: &mut Cpu<M>, addr: u16, val: u16)
    ensures
        final(cpu).state() == old(cpu).state().write8(addr, wrap8(val as int)),
        final(cpu).cycle_count() == old(cpu).cycle_count(),
        final(cpu).requests() == old(cpu).requests(),
{
    proof {
        lemma_byte_bits(val);
    }
    cpu.bus_write(addr, val as u8);
}

fn ld8<M: MemoryBus>(cpu: &Cpu<M>, addr: u16) -> (v: u8)
    ensures
        v == cpu.state().read8(addr),
{
    cpu.bus_read(addr)
}

fn ld16<M: MemoryBus>(cpu: &Cpu<M>, addr: u16) -> (v: u16)
    ensures
        v == cpu.state().read16(addr),
{
    cpu.bus_read16(addr)
}

fn st16<M: MemoryBus>(cpu: &mut Cpu<M>, addr: u16, val: u16)
    ensures
        final(cpu).state() == old(cpu).state().write16(addr, val),
        final(cpu).cycle_count() == old(cpu).cycle_count(),
        final(cpu).requests() == old(cpu).requests(),
{
    proof {
        lemma_byte_bits(val);
    }
    cpu.bus_write(addr.wrapping_add(1), val as u8);
    cpu.bus_write(addr, (val >> 8) as u8);
}

/// PC plus the signed displacement at PC.
fn rel_offset<M: MemoryBus>(cpu: &Cpu<M>) -> (t: u16)
    ensures
        t == branch_target(cpu.reg.pc, cpu.state().read8(cpu.reg.pc)),
{
    let offset = cpu.bus_read(cpu.reg.pc);
    relative(cpu.reg.pc, offset)
}

/// `from` moved by the signed displacement `offset`.
fn relative(from: u16, offset: u8) -> (t: u16)
    ensures
        t == branch_target(from, offset),
{
    proof {
        lemma_bit7(offset);
    }
    if offset & 0x80 == 0 {
        from.wrapping_add(offset as u16)
    } else {
        from.wrapping_sub(((!offset).wrapping_add(1)) as u16)
    }
}

fn read_disp<M: MemoryBus>(cpu: &Cpu<M>) -> (d: u16)
    ensures
        d == cpu.state().read8(cpu.reg.pc) as u16,
{
    cpu.bus_read(cpu.reg.pc) as u16
}

fn read_imm<M: MemoryBus>(cpu: &Cpu<M>) -> (v: u16)
    ensures
        v == cpu.state().read8(cpu.reg.pc) as u16,
{
    cpu.bus_read(cpu.reg.pc) as u16
}

fn read_imm16<M: MemoryBus>(cpu: &Cpu<M>) -> (v: u16)
    ensures
        v == cpu.state().read16(cpu.reg.pc),
{
    ld16(cpu, cpu.reg.pc)
}

fn read_dir_addr<M: MemoryBus>(cpu: &Cpu<M>) -> (a: u16)
    ensures
        a == cpu.state().read8(cpu.reg.pc) as u16,
{
    cpu.bus_read(cpu.reg.pc) as u16
}

fn read_ext_addr<M: MemoryBus>(cpu: &Cpu<M>) -> (a: u16)
    ensures
        a == cpu.state().read16(cpu.reg.pc),
{
    ld16(cpu, cpu.reg.pc)
}

fn consumed_bytes(entry: &OpcodeEntry) -> (n: u16)
    ensures
        n == operand_length(entry.addr_mode),
{
    match entry.addr_mode {
        AddrMode::Inh | AddrMode::Acc => 0,
        AddrMode::Rel | AddrMode::Imm | AddrMode::Dir | AddrMode::Idx | AddrMode::Immx => 1,
        AddrMode::Imm16 | AddrMode::Ext | AddrMode::Ext16 | AddrMode::Idx16 | AddrMode::Dir16 => 2,
    }
}

fn reg_value<M: MemoryBus>(cpu: &Cpu<M>, acc: Option<Accumulator>) -> (v: u8)
    ensures
        v == acc_value(cpu.state(), acc),
{
    match acc {
        Some(Accumulator::A) => cpu.reg.a,
        Some(Accumulator::B) => cpu.reg.b,
        None => 0,
    }
}

fn reg_set<M: MemoryBus>(cpu: &mut Cpu<M>, acc: Option<Accumulator>, val: u8)
    ensures
        final(cpu).state() == with_acc(old(cpu).state(), acc, val),
        final(cpu).cycle_count() == old(cpu).cycle_count(),
        final(cpu).requests() == old(cpu).requests(),
        final(cpu).bus() == old(cpu).bus(),
{
    match acc {
        Some(Accumulator::A) => cpu.reg.a = val,
        Some(Accumulator::B) => cpu.reg.b = val,
        None => {},
    }
}

fn read_operand<M: MemoryBus>(cpu: &Cpu<M>, entry: &OpcodeEntry) -> (v: u16)
    ensures
        v == operand(cpu.state(), *entry),
{
    reveal(operand);
    match entry.addr_mode {
        AddrMode::Inh => 0,
        AddrMode::Acc => reg_value(cpu, entry.acc) as u16,
        AddrMode::Imm => read_imm(cpu),
        AddrMode::Imm16 => read_imm16(cpu),
        AddrMode::Dir => ld8(cpu, read_dir_addr(cpu)) as u16,
        AddrMode::Dir16 => ld16(cpu, read_dir_addr(cpu)),
        AddrMode::Ext => ld8(cpu, read_ext_addr(cpu)) as u16,
        AddrMode::Ext16 => ld16(cpu, read_ext_addr(cpu)),
        AddrMode::Idx => {
            let disp = read_disp(cpu);
            ld8(cpu, cpu.reg.ix.wrapping_add(disp)) as u16
        },
        AddrMode::Idx16 => {
            let disp = read_disp(cpu);
            ld16(cpu, cpu.reg.ix.wrapping_add(disp))
        },
        AddrMode::Immx => {
            let disp = read_disp(cpu);
            cpu.reg.ix.wrapping_add(disp)
        },
        AddrMode::Rel => rel_offset(cpu),
    }
}

fn target_addr<M: MemoryBus>(cpu: &Cpu<M>, entry: &OpcodeEntry) -> (t: Option<u16>)
    ensures
        t == store_address(cpu.state(), *entry),
{
    match entry.addr_mode {
        AddrMode::Dir | AddrMode::Dir16 => Some(read_dir_addr(cpu)),
        AddrMode::Ext | AddrMode::Ext16 => Some(read_ext_addr(cpu)),
        AddrMode::Idx | AddrMode::Idx16 => {
            let disp = read_disp(cpu);
            Some(cpu.reg.ix.wrapping_add(disp))
        },
        AddrMode::Imm => {
            if matches!(entry.instruction, Mnemonic::Sta | Mnemonic::Sts | Mnemonic::Stx) {
                Some(read_imm(cpu))
            } else {
                None
            }
        },
        _ => None,
    }
}

fn advance_pc<M: MemoryBus>(cpu: &mut Cpu<M>, entry: &OpcodeEntry)
    ensures
        final(cpu).state() == advanced(old(cpu).state(), *entry),
        final(cpu).cycle_count() == old(cpu).cycle_count(),
        final(cpu).requests() == old(cpu).requests(),
        final(cpu).bus() == old(cpu).bus(),
{
    cpu.reg.pc = cpu.reg.pc.wrapping_add(consumed_bytes(entry));
}

fn read_advance<M: MemoryBus>(cpu: &mut Cpu<M>, entry: &OpcodeEntry) -> (v: u16)
    ensures
        v == operand(old(cpu).state(), *entry),
        final(cpu).state() == advanced(old(cpu).state(), *entry),
        final(cpu).cycle_count() == old(cpu).cycle_count(),
        final(cpu).requests() == old(cpu).requests(),
        final(cpu).bus() == old(cpu).bus(),
{
    let val = read_operand(cpu, entry);
    advance_pc(cpu, entry);
    val
}

fn write_advance<M: MemoryBus>(cpu: &mut Cpu<M>, entry: &OpcodeEntry, val: u16)
    ensures
        final(cpu).state() == stored(old(cpu).state(), *entry, val),
        final(cpu).cycle_count() == old(cpu).cycle_count(),
        final(cpu).requests() == old(cpu).requests(),
{
    let addr = target_addr(cpu, entry);
    advance_pc(cpu, entry);
    if let Some(a) = addr {
        match entry.addr_mode {
            AddrMode::Dir | AddrMode::Ext | AddrMode::Idx => st(cpu, a, val),
            AddrMode::Dir16 | AddrMode::Ext16 | AddrMode::Idx16 => st16(cpu, a, val),
            AddrMode::Imm => st(cpu, a, val),
            _ => {},
        }
    }
    if matches!(entry.addr_mode, AddrMode::Acc) {
        proof {
            lemma_byte_bits(val);
        }
        reg_set(cpu, entry.acc, val as u8);
    }
}

// ---------------------------------------------------------------------
// Flags
// ---------------------------------------------------------------------

fn set_nz<M: MemoryBus>(cpu: &mut Cpu<M>, result: u8)
    ensures
        final(cpu).state() == old(cpu).state().with_status(with_nz(old(cpu).status, result)),
        final(cpu).cycle_count() == old(cpu).cycle_count(),
        final(cpu).requests() == old(cpu).requests(),
        final(cpu).bus() == old(cpu).bus(),
{
    proof {
        lemma_bit7(result);
    }
    cpu.status.n = (result & 0x80) != 0;
    cpu.status.z = result == 0;
}

fn set_nz16<M: MemoryBus>(cpu: &mut Cpu<M>, result: u16)
    ensures
        final(cpu).state() == old(cpu).state().with_status(with_nz16(old(cpu).status, result)),
        final(cpu).cycle_count() == old(cpu).cycle_count(),
        final(cpu).requests() == old(cpu).requests(),
        final(cpu).bus() == old(cpu).bus(),
{
    proof {
        lemma_bit15(result);
    }
    cpu.status.n = (result & 0x8000) != 0;
    cpu.status.z = result == 0;
}

/// The overflow of `x - m`, from the sign bits of the operands and of the
/// result.
fn overflow_sub(x: u8, m: u8, result: u8) -> (v: bool)
    ensures
        v == ((x >= 128 && m < 128 && result < 128) || (x < 128 && m >= 128 && result >= 128)),
{
    proof {
        lemma_bit7(x);
        lemma_bit7(m);
        lemma_bit7(result);
    }
    ((x & 0x80) != 0 && (m & 0x80) == 0 && (result & 0x80) == 0) || ((x & 0x80) == 0 && (m
        & 0x80) != 0 && (result & 0x80) != 0)
}

/// The borrow of `x - m`, from the sign bits of the operands and of the
/// result.
fn carry_sub(x: u8, m: u8, result: u8) -> (c: bool)
    ensures
        c == ((x < 128 && m >= 128) || (m >= 128 && result >= 128) || (result >= 128 && x < 128)),
{
    proof {
        lemma_bit7(x);
        lemma_bit7(m);
        lemma_bit7(result);
    }
    ((x & 0x80) == 0 && (m & 0x80) != 0) || ((m & 0x80) != 0 && (result & 0x80) != 0) || ((result
        & 0x80) != 0 && (x & 0x80) == 0)
}

/// The overflow of `x - m` on words, from the sign bits.
fn overflow_sub16(x: u16, m: u16, result: u16) -> (v: bool)
    ensures
        v == ((x >= 0x8000 && m < 0x8000 && result < 0x8000) || (x < 0x8000 && m >= 0x8000
            && result >= 0x8000)),
{
    proof {
        lemma_bit15(x);
        lemma_bit15(m);
        lemma_bit15(result);
    }
    ((x & 0x8000) != 0 && (m & 0x8000) == 0 && (result & 0x8000) == 0) || ((x & 0x8000) == 0 && (m
        & 0x8000) != 0 && (result & 0x8000) != 0)
}

// ---------------------------------------------------------------------
// Byte arithmetic
// ---------------------------------------------------------------------

/// `x + m + carry` and the flags it leaves.
fn add_kernel(x: u8, m: u8, carry: bool, status: &StatusFlags) -> (k: (u8, StatusFlags))
    ensures
        k == add_bytes(x, m, carry, *status),
{
    let sum = x as u16 + m as u16 + carry as u16;
    proof {
        lemma_low_byte(sum);
    }
    let result = sum as u8;
    let flags = StatusFlags {
        c: sum > 0xFF,
        v: status.v,
        z: (sum & 0xFF) == 0,
        n: (sum & 0x80) != 0,
        i: status.i,
        h: status.h,
    };
    (result, flags)
}

/// `x - m - borrow` and the flags it leaves.
fn sub_kernel(x: u8, m: u8, borrow: bool, status: &StatusFlags) -> (k: (u8, StatusFlags))
    ensures
        k == sub_bytes(x, m, borrow, *status),
{
    let b = borrow as u8;
    let result = x.wrapping_sub(m).wrapping_sub(b);
    proof {
        lemma_wrap8(x - m);
        lemma_wrap8(x - m - b);
        lemma_bit7(result);
        lemma_sub_flags(x, m, b as int);
    }
    let flags = StatusFlags {
        c: carry_sub(x, m, result),
        v: overflow_sub(x, m, result),
        z: result == 0,
        n: (result & 0x80) != 0,
        i: status.i,
        h: status.h,
    };
    (result, flags)
}

fn neg_kernel(val: u8, status: &StatusFlags) -> (k: (u16, StatusFlags))
    ensures
        k == neg_byte(val, *status),
{
    let result = 0u8.wrapping_sub(val);
    proof {
        lemma_wrap8(-val);
        lemma_bit7(result);
    }
    let flags = StatusFlags {
        c: val != 0,
        v: val == 0x80,
        z: result == 0,
        n: (result & 0x80) != 0,
        i: status.i,
        h: status.h,
    };
    (result as u16, flags)
}

fn com_kernel(val: u8, status: &StatusFlags) -> (k: (u16, StatusFlags))
    ensures
        k == com_byte(val, *status),
{
    let result = !val;
    proof {
        lemma_bit7(val);
        lemma_bit7(result);
    }
    let flags = StatusFlags {
        c: true,
        v: false,
        z: result == 0,
        n: (result & 0x80) != 0,
        i: status.i,
        h: status.h,
    };
    (result as u16, flags)
}

fn lsr_kernel(val: u8, status: &StatusFlags) -> (k: (u16, StatusFlags))
    ensures
        k == lsr_byte(val, *status),
{
    let result = val >> 1;
    proof {
        lemma_bit7(val);
    }
    let n = false;
    let c = (val & 0x01) != 0;
    let flags = StatusFlags { c, v: n != c, z: result == 0, n, i: status.i, h: status.h };
    (result as u16, flags)
}

fn ror_kernel(val: u8, status: &StatusFlags) -> (k: (u16, StatusFlags))
    ensures
        k == ror_byte(val, *status),
{
    let top: u8 = if status.c {
        0x80
    } else {
        0
    };
    let result = (val >> 1) | top;
    proof {
        lemma_bit7(val);
        assert((val >> 1u8) | 0u8 == val >> 1u8) by (bit_vector);
        lemma_bit7(result);
    }
    let n = (result & 0x80) != 0;
    let c = (val & 0x01) != 0;
    let flags = StatusFlags { c, v: n != c, z: result == 0, n, i: status.i, h: status.h };
    (result as u16, flags)
}

fn asr_kernel(val: u8, status: &StatusFlags) -> (k: (u16, StatusFlags))
    ensures
        k == asr_byte(val, *status),
{
    let result = (val >> 1) | 0x80;
    proof {
        lemma_bit7(val);
        lemma_bit7(result);
    }
    let n = (result & 0x80) != 0;
    let c = (val & 0x01) != 0;
    let flags = StatusFlags { c, v: n != c, z: result == 0, n, i: status.i, h: status.h };
    (result as u16, flags)
}

fn asl_kernel(val: u8, status: &StatusFlags) -> (k: (u16, StatusFlags))
    ensures
        k == asl_byte(val, *status),
{
    let result = (val as u16) << 1;
    proof {
        assert((val as u16) << 1u16 == val * 2) by (bit_vector);
        lemma_bit15(result);
    }
    let n = (result & 0x80) != 0;
    let c = result > 0xFF;
    let flags = StatusFlags {
        c,
        v: c != n,
        z: (result & 0xFF) == 0,
        n,
        i: status.i,
        h: status.h,
    };
    (result, flags)
}

fn rol_kernel(val: u8, status: &StatusFlags) -> (k: (u16, StatusFlags))
    ensures
        k == rol_byte(val, *status),
{
    let result = ((val as u16) << 1) | (status.c as u16);
    proof {
        let low = status.c as u16;
        assert(low <= 1 ==> ((val as u16) << 1u16) | low == val * 2 + low) by (bit_vector);
        lemma_bit15(result);
    }
    let n = (result & 0x80) != 0;
    let c = result > 0xFF;
    let flags = StatusFlags {
        c,
        v: n != c,
        z: (result & 0xFF) == 0,
        n,
        i: status.i,
        h: status.h,
    };
    (result, flags)
}

fn dec_kernel(val: u8, status: &StatusFlags) -> (k: (u16, StatusFlags))
    ensures
        k == dec_byte(val, *status),
{
    let result = val.wrapping_sub(1);
    proof {
        lemma_wrap8(val - 1);
        lemma_bit7(result);
    }
    let flags = StatusFlags {
        c: status.c,
        v: val == 0x80,
        z: result == 0,
        n: (result & 0x80) != 0,
        i: status.i,
        h: status.h,
    };
    (result as u16, flags)
}

fn inc_kernel(val: u8, status: &StatusFlags) -> (k: (u16, StatusFlags))
    ensures
        k == inc_byte(val, *status),
{
    let result = val.wrapping_add(1);
    proof {
        lemma_wrap8(val + 1);
        lemma_bit7(result);
    }
    let z = result == 0;
    let flags = StatusFlags {
        c: z,
        v: val == 0x7F,
        z,
        n: (result & 0x80) != 0,
        i: status.i,
        h: status.h,
    };
    (result as u16, flags)
}

// ---------------------------------------------------------------------
// Register instructions
// ---------------------------------------------------------------------

fn tap<M: MemoryBus>(cpu: &mut Cpu<M>)
    ensures
        final(cpu).state() == tap_effect(old(cpu).state()),
        final(cpu).cycle_count() == old(cpu).cycle_count(),
        final(cpu).requests() == old(cpu).requests(),
        final(cpu).bus() == old(cpu).bus(),
{
    let a = cpu.reg.a;
    cpu.status = StatusFlags::from_byte(a);
}

fn tpa<M: MemoryBus>(cpu: &mut Cpu<M>)
    ensures
        final(cpu).state() == tpa_effect(old(cpu).state()),
        final(cpu).cycle_count() == old(cpu).cycle_count(),
        final(cpu).requests() == old(cpu).requests(),
        final(cpu).bus() == old(cpu).bus(),
{
    cpu.reg.a = cpu.status.to_byte();
}

fn increment(x: u16) -> (r: u16)
    ensures
        r == wrap16(x + 1),
{
    x.wrapping_add(1)
}

fn decrement(x: u16) -> (r: u16)
    ensures
        r == wrap16(x - 1),
{
    x.wrapping_sub(1)
}

/// Replaces IX by what `op` makes of it, and sets Z from the result.
fn ix_op<M: MemoryBus, F>(cpu: &mut Cpu<M>, op: F)
    where
        F: Fn(u16) -> u16,
    requires
        forall|x: u16| op.requires((x,)),
    ensures
        op.ensures((old(cpu).reg.ix,), final(cpu).reg.ix),
        final(cpu).state() == old(cpu).state().with_ix(final(cpu).reg.ix).with_status(
            StatusFlags { z: final(cpu).reg.ix == 0, ..old(cpu).status },
        ),
        final(cpu).cycle_count() == old(cpu).cycle_count(),
        final(cpu).requests() == old(cpu).requests(),
        final(cpu).bus() == old(cpu).bus(),
{
    let result = op(cpu.reg.ix);
    proof {
        assert((result & 0xFFFF == 0) == (result == 0)) by (bit_vector);
    }
    cpu.status.z = (result & 0xFFFF) == 0;
    cpu.reg.ix = result;
}

fn aba<M: MemoryBus>(cpu: &mut Cpu<M>)
    ensures
        final(cpu).state() == aba_effect(old(cpu).state()),
        final(cpu).cycle_count() == old(cpu).cycle_count(),
        final(cpu).requests() == old(cpu).requests(),
        final(cpu).bus() == old(cpu).bus(),
{
    let (result, flags) = add_kernel(cpu.reg.a, cpu.reg.b, false, &cpu.status);
    cpu.status = flags;
    cpu.reg.a = result;
}

fn sba<M: MemoryBus>(cpu: &mut Cpu<M>)
    ensures
        final(cpu).state() == sba_effect(old(cpu).state()),
        final(cpu).cycle_count() == old(cpu).cycle_count(),
        final(cpu).requests() == old(cpu).requests(),
        final(cpu).bus() == old(cpu).bus(),
{
    let (result, flags) = sub_kernel(cpu.reg.a, cpu.reg.b, false, &cpu.status);
    cpu.status = flags;
    cpu.reg.a = result;
}

fn cba<M: MemoryBus>(cpu: &mut Cpu<M>)
    ensures
        final(cpu).state() == cba_effect(old(cpu).state()),
        final(cpu).cycle_count() == old(cpu).cycle_count(),
        final(cpu).requests() == old(cpu).requests(),
        final(cpu).bus() == old(cpu).bus(),
{
    let (_result, flags) = sub_kernel(cpu.reg.a, cpu.reg.b, false, &cpu.status);
    cpu.status = flags;
}

fn nba<M: MemoryBus>(cpu: &mut Cpu<M>)
    ensures
        final(cpu).state() == nba_effect(old(cpu).state()),
        final(cpu).cycle_count() == old(cpu).cycle_count(),
        final(cpu).requests() == old(cpu).requests(),
        final(cpu).bus() == old(cpu).bus(),
{
    let result = cpu.reg.a & cpu.reg.b;
    set_nz(cpu, result);
    cpu.status.v = false;
    cpu.reg.a = result;
}

fn tab<M: MemoryBus>(cpu: &mut Cpu<M>)
    ensures
        final(cpu).state() == tab_effect(old(cpu).state()),
        final(cpu).cycle_count() == old(cpu).cycle_count(),
        final(cpu).requests() == old(cpu).requests(),
        final(cpu).bus() == old(cpu).bus(),
{
    cpu.status.v = false;
    let a = cpu.reg.a;
    set_nz(cpu, a);
    cpu.reg.b = cpu.reg.a;
}

fn tba<M: MemoryBus>(cpu: &mut Cpu<M>)
    ensures
        final(cpu).state() == tba_effect(old(cpu).state()),
        final(cpu).cycle_count() == old(cpu).cycle_count(),
        final(cpu).requests() == old(cpu).requests(),
        final(cpu).bus() == old(cpu).bus(),
{
    cpu.status.v = false;
    let b = cpu.reg.b;
    set_nz(cpu, b);
    cpu.reg.a = cpu.reg.b;
}

// ---------------------------------------------------------------------
// Stack instructions
// ---------------------------------------------------------------------

fn psh<M: MemoryBus>(cpu: &mut Cpu<M>, entry: &OpcodeEntry)
    ensures
        final(cpu).state() == psh_effect(old(cpu).state(), *entry),
        final(cpu).cycle_count() == old(cpu).cycle_count(),
        final(cpu).requests() == old(cpu).requests(),
{
    let val = reg_value(cpu, entry.acc);
    let sp = cpu.reg.sp;
    cpu.bus_write(sp, val);
    cpu.reg.sp = cpu.reg.sp.wrapping_sub(1);
}

fn pul<M: MemoryBus>(cpu: &mut Cpu<M>, entry: &OpcodeEntry)
    ensures
        final(cpu).state() == pul_effect(old(cpu).state(), *entry),
        final(cpu).cycle_count() == old(cpu).cycle_count(),
        final(cpu).requests() == old(cpu).requests(),
        final(cpu).bus() == old(cpu).bus(),
{
    cpu.reg.sp = cpu.reg.sp.wrapping_add(1);
    let val = cpu.bus_read(cpu.reg.sp);
    reg_set(cpu, entry.acc, val);
}

fn rts<M: MemoryBus>(cpu: &mut Cpu<M>)
    ensures
        final(cpu).state() == rts_effect(old(cpu).state()),
        final(cpu).cycle_count() == old(cpu).cycle_count(),
        final(cpu).requests() == old(cpu).requests(),
        final(cpu).bus() == old(cpu).bus(),
{
    let hi = cpu.bus_read(cpu.reg.sp.wrapping_add(1));
    let lo = cpu.bus_read(cpu.reg.sp.wrapping_add(2));
    proof {
        lemma_word_bits(hi, lo);
    }
    cpu.reg.pc = (hi as u16) << 8 | lo as u16;
    cpu.reg.sp = cpu.reg.sp.wrapping_add(2);
}

fn swi<M: MemoryBus>(cpu: &mut Cpu<M>)
    ensures
        final(cpu).state() == swi_effect(old(cpu).state()),
        final(cpu).cycle_count() == old(cpu).cycle_count(),
        final(cpu).requests() == old(cpu).requests(),
{
    cpu.save_to_stack();
    cpu.status.i = true;
    let n: u16 = 0xFFFF;
    let hi = cpu.bus_read(n.wrapping_sub(5));
    let lo = cpu.bus_read(n.wrapping_sub(4));
    proof {
        lemma_word_bits(hi, lo);
    }
    cpu.reg.pc = (hi as u16) << 8 | lo as u16;
}

// ---------------------------------------------------------------------
// Accumulator and memory instructions
// ---------------------------------------------------------------------

/// Reads the operand of an accumulator instruction and moves past it.
fn read_alu_operand<M: MemoryBus>(cpu: &mut Cpu<M>, entry: &OpcodeEntry) -> (m: u8)
    ensures
        m == alu_operand(old(cpu).state(), *entry),
        final(cpu).state() == advanced(old(cpu).state(), *entry),
        final(cpu).cycle_count() == old(cpu).cycle_count(),
        final(cpu).requests() == old(cpu).requests(),
        final(cpu).bus() == old(cpu).bus(),
{
    let m16 = read_advance(cpu, entry);
    proof {
        lemma_byte_bits(m16);
    }
    m16 as u8
}

fn add<M: MemoryBus>(cpu: &mut Cpu<M>, entry: &OpcodeEntry)
    ensures
        final(cpu).state() == add_effect(old(cpu).state(), *entry),
        final(cpu).cycle_count() == old(cpu).cycle_count(),
        final(cpu).requests() == old(cpu).requests(),
        final(cpu).bus() == old(cpu).bus(),
{
    let m = read_alu_operand(cpu, entry);
    let x = reg_value(cpu, entry.acc);
    let (result, flags) = add_kernel(x, m, false, &cpu.status);
    cpu.status = flags;
    reg_set(cpu, entry.acc, result);
}

fn adc<M: MemoryBus>(cpu: &mut Cpu<M>, entry: &OpcodeEntry)
    ensures
        final(cpu).state() == adc_effect(old(cpu).state(), *entry),
        final(cpu).cycle_count() == old(cpu).cycle_count(),
        final(cpu).requests() == old(cpu).requests(),
        final(cpu).bus() == old(cpu).bus(),
{
    let m = read_alu_operand(cpu, entry);
    let x = reg_value(cpu, entry.acc);
    let (result, flags) = add_kernel(x, m, cpu.status.c, &cpu.status);
    cpu.status = flags;
    reg_set(cpu, entry.acc, result);
}

fn sub<M: MemoryBus>(cpu: &mut Cpu<M>, entry: &OpcodeEntry)
    ensures
        final(cpu).state() == sub_effect(old(cpu).state(), *entry),
        final(cpu).cycle_count() == old(cpu).cycle_count(),
        final(cpu).requests() == old(cpu).requests(),
        final(cpu).bus() == old(cpu).bus(),
{
    let m = read_alu_operand(cpu, entry);
    let x = reg_value(cpu, entry.acc);
    let (result, flags) = sub_kernel(x, m, false, &cpu.status);
    cpu.status = flags;
    reg_set(cpu, entry.acc, result);
}

fn sbc<M: MemoryBus>(cpu: &mut Cpu<M>, entry: &OpcodeEntry)
    ensures
        final(cpu).state() == sbc_effect(old(cpu).state(), *entry),
        final(cpu).cycle_count() == old(cpu).cycle_count(),
        final(cpu).requests() == old(cpu).requests(),
        final(cpu).bus() == old(cpu).bus(),
{
    let m = read_alu_operand(cpu, entry);
    let x = reg_value(cpu, entry.acc);
    let (result, flags) = sub_kernel(x, m, cpu.status.c, &cpu.status);
    cpu.status = flags;
    reg_set(cpu, entry.acc, result);
}

fn compare<M: MemoryBus>(cpu: &mut Cpu<M>, entry: &OpcodeEntry)
    ensures
        final(cpu).state() == compare_effect(old(cpu).state(), *entry),
        final(cpu).cycle_count() == old(cpu).cycle_count(),
        final(cpu).requests() == old(cpu).requests(),
        final(cpu).bus() == old(cpu).bus(),
{
    let m = read_alu_operand(cpu, entry);
    let x = reg_value(cpu, entry.acc);
    let (_result, flags) = sub_kernel(x, m, false, &cpu.status);
    cpu.status = flags;
}

fn and_op<M: MemoryBus>(cpu: &mut Cpu<M>, entry: &OpcodeEntry)
    ensures
        final(cpu).state() == and_effect(old(cpu).state(), *entry),
        final(cpu).cycle_count() == old(cpu).cycle_count(),
        final(cpu).requests() == old(cpu).requests(),
        final(cpu).bus() == old(cpu).bus(),
{
    let m = read_alu_operand(cpu, entry);
    let x = reg_value(cpu, entry.acc);
    let result = x & m;
    set_nz(cpu, result);
    cpu.status.v = false;
    reg_set(cpu, entry.acc, result);
}

fn bit_op<M: MemoryBus>(cpu: &mut Cpu<M>, entry: &OpcodeEntry)
    ensures
        final(cpu).state() == bit_effect(old(cpu).state(), *entry),
        final(cpu).cycle_count() == old(cpu).cycle_count(),
        final(cpu).requests() == old(cpu).requests(),
        final(cpu).bus() == old(cpu).bus(),
{
    let m = read_alu_operand(cpu, entry);
    let x = reg_value(cpu, entry.acc);
    let result = x & m;
    cpu.status.z = result == 0;
    cpu.status.n = false;
    cpu.status.v = false;
}

fn eor<M: MemoryBus>(cpu: &mut Cpu<M>, entry: &OpcodeEntry)
    ensures
        final(cpu).state() == eor_effect(old(cpu).state(), *entry),
        final(cpu).cycle_count() == old(cpu).cycle_count(),
        final(cpu).requests() == old(cpu).requests(),
        final(cpu).bus() == old(cpu).bus(),
{
    let m = read_alu_operand(cpu, entry);
    let x = reg_value(cpu, entry.acc);
    let result = x ^ m;
    set_nz(cpu, result);
    cpu.status.v = false;
    reg_set(cpu, entry.acc, result);
}

fn ora<M: MemoryBus>(cpu: &mut Cpu<M>, entry: &OpcodeEntry)
    ensures
        final(cpu).state() == ora_effect(old(cpu).state(), *entry),
        final(cpu).cycle_count() == old(cpu).cycle_count(),
        final(cpu).requests() == old(cpu).requests(),
        final(cpu).bus() == old(cpu).bus(),
{
    let m = read_alu_operand(cpu, entry);
    let x = reg_value(cpu, entry.acc);
    let result = x | m;
    set_nz(cpu, result);
    reg_set(cpu, entry.acc, result);
}

fn lda<M: MemoryBus>(cpu: &mut Cpu<M>, entry: &OpcodeEntry)
    ensures
        final(cpu).state() == lda_effect(old(cpu).state(), *entry),
        final(cpu).cycle_count() == old(cpu).cycle_count(),
        final(cpu).requests() == old(cpu).requests(),
        final(cpu).bus() == old(cpu).bus(),
{
    let val = read_alu_operand(cpu, entry);
    cpu.status.v = false;
    set_nz(cpu, val);
    reg_set(cpu, entry.acc, val);
}

fn sta<M: MemoryBus>(cpu: &mut Cpu<M>, entry: &OpcodeEntry)
    ensures
        final(cpu).state() == sta_effect(old(cpu).state(), *entry),
        final(cpu).cycle_count() == old(cpu).cycle_count(),
        final(cpu).requests() == old(cpu).requests(),
{
    let val = reg_value(cpu, entry.acc);
    cpu.status.v = false;
    set_nz(cpu, val);
    write_advance(cpu, entry, val as u16);
}

fn lds<M: MemoryBus>(cpu: &mut Cpu<M>, entry: &OpcodeEntry)
    ensures
        final(cpu).state() == lds_effect(old(cpu).state(), *entry),
        final(cpu).cycle_count() == old(cpu).cycle_count(),
        final(cpu).requests() == old(cpu).requests(),
        final(cpu).bus() == old(cpu).bus(),
{
    let val = read_advance(cpu, entry);
    cpu.status.v = false;
    cpu.reg.sp = val;
}

fn sts<M: MemoryBus>(cpu: &mut Cpu<M>, entry: &OpcodeEntry)
    ensures
        final(cpu).state() == sts_effect(old(cpu).state(), *entry),
        final(cpu).cycle_count() == old(cpu).cycle_count(),
        final(cpu).requests() == old(cpu).requests(),
{
    let val = cpu.reg.sp;
    proof {
        lemma_bit15(val);
    }
    cpu.status.n = (val & 0x8000) != 0;
    cpu.status.z = val == 0;
    cpu.status.v = false;
    write_advance(cpu, entry, val);
}

fn ldx<M: MemoryBus>(cpu: &mut Cpu<M>, entry: &OpcodeEntry)
    ensures
        final(cpu).state() == ldx_effect(old(cpu).state(), *entry),
        final(cpu).cycle_count() == old(cpu).cycle_count(),
        final(cpu).requests() == old(cpu).requests(),
        final(cpu).bus() == old(cpu).bus(),
{
    let val = read_advance(cpu, entry);
    set_nz16(cpu, val);
    cpu.status.v = false;
    cpu.reg.ix = val;
}

fn stx<M: MemoryBus>(cpu: &mut Cpu<M>, entry: &OpcodeEntry)
    ensures
        final(cpu).state() == stx_effect(old(cpu).state(), *entry),
        final(cpu).cycle_count() == old(cpu).cycle_count(),
        final(cpu).requests() == old(cpu).requests(),
{
    let val = cpu.reg.ix;
    proof {
        lemma_bit15(val);
    }
    cpu.status.n = (val & 0x8000) != 0;
    cpu.status.z = val == 0;
    cpu.status.v = false;
    write_advance(cpu, entry, val);
}

fn cpx<M: MemoryBus>(cpu: &mut Cpu<M>, entry: &OpcodeEntry)
    ensures
        final(cpu).state() == cpx_effect(old(cpu).state(), *entry),
        final(cpu).cycle_count() == old(cpu).cycle_count(),
        final(cpu).requests() == old(cpu).requests(),
        final(cpu).bus() == old(cpu).bus(),
{
    let m = read_advance(cpu, entry);
    let x = cpu.reg.ix;
    let result = x.wrapping_sub(m);
    let v = overflow_sub16(x, m, result);
    proof {
        lemma_sub16_flags(x, m);
    }
    set_nz16(cpu, result);
    cpu.status.v = v;
}

// ---------------------------------------------------------------------
// Read-modify-write instructions
// ---------------------------------------------------------------------

/// Reads the byte a read-modify-write instruction works on: the
/// accumulator, or the operand, moving past it.
fn rmw_read<M: MemoryBus>(cpu: &mut Cpu<M>, entry: &OpcodeEntry) -> (v: u8)
    ensures
        v == rmw_input(old(cpu).state(), *entry),
        final(cpu).state() == rmw_base(old(cpu).state(), *entry),
        final(cpu).cycle_count() == old(cpu).cycle_count(),
        final(cpu).requests() == old(cpu).requests(),
        final(cpu).bus() == old(cpu).bus(),
{
    if matches!(entry.addr_mode, AddrMode::Acc) {
        reg_value(cpu, entry.acc)
    } else {
        let val = read_advance(cpu, entry);
        proof {
            lemma_byte_bits(val);
        }
        val as u8
    }
}

/// Puts back the result of a read-modify-write instruction.
fn rmw_write<M: MemoryBus>(cpu: &mut Cpu<M>, entry: &OpcodeEntry, result: u16)
    ensures
        final(cpu).state() == rmw_output(old(cpu).state(), *entry, result),
        final(cpu).cycle_count() == old(cpu).cycle_count(),
        final(cpu).requests() == old(cpu).requests(),
        entry.addr_mode == AddrMode::Acc ==> final(cpu).bus() == old(cpu).bus(),
{
    if matches!(entry.addr_mode, AddrMode::Acc) {
        proof {
            lemma_byte_bits(result);
        }
        reg_set(cpu, entry.acc, result as u8);
    } else {
        write_advance(cpu, entry, result);
    }
}

fn neg<M: MemoryBus>(cpu: &mut Cpu<M>, entry: &OpcodeEntry)
    ensures
        final(cpu).state() == neg_effect(old(cpu).state(), *entry),
        final(cpu).cycle_count() == old(cpu).cycle_count(),
        final(cpu).requests() == old(cpu).requests(),
        entry.addr_mode == AddrMode::Acc ==> final(cpu).bus() == old(cpu).bus(),
{
    let val = rmw_read(cpu, entry);
    let (result, flags) = neg_kernel(val, &cpu.status);
    cpu.status = flags;
    rmw_write(cpu, entry, result);
}

fn com<M: MemoryBus>(cpu: &mut Cpu<M>, entry: &OpcodeEntry)
    ensures
        final(cpu).state() == com_effect(old(cpu).state(), *entry),
        final(cpu).cycle_count() == old(cpu).cycle_count(),
        final(cpu).requests() == old(cpu).requests(),
        entry.addr_mode == AddrMode::Acc ==> final(cpu).bus() == old(cpu).bus(),
{
    let val = rmw_read(cpu, entry);
    let (result, flags) = com_kernel(val, &cpu.status);
    cpu.status = flags;
    rmw_write(cpu, entry, result);
}

fn lsr<M: MemoryBus>(cpu: &mut Cpu<M>, entry: &OpcodeEntry)
    ensures
        final(cpu).state() == lsr_effect(old(cpu).state(), *entry),
        final(cpu).cycle_count() == old(cpu).cycle_count(),
        final(cpu).requests() == old(cpu).requests(),
        entry.addr_mode == AddrMode::Acc ==> final(cpu).bus() == old(cpu).bus(),
{
    let val = rmw_read(cpu, entry);
    let (result, flags) = lsr_kernel(val, &cpu.status);
    cpu.status = flags;
    rmw_write(cpu, entry, result);
}

fn ror_op<M: MemoryBus>(cpu: &mut Cpu<M>, entry: &OpcodeEntry)
    ensures
        final(cpu).state() == ror_effect(old(cpu).state(), *entry),
        final(cpu).cycle_count() == old(cpu).cycle_count(),
        final(cpu).requests() == old(cpu).requests(),
        entry.addr_mode == AddrMode::Acc ==> final(cpu).bus() == old(cpu).bus(),
{
    let val = rmw_read(cpu, entry);
    let (result, flags) = ror_kernel(val, &cpu.status);
    cpu.status = flags;
    rmw_write(cpu, entry, result);
}

fn asr_op<M: MemoryBus>(cpu: &mut Cpu<M>, entry: &OpcodeEntry)
    ensures
        final(cpu).state() == asr_effect(old(cpu).state(), *entry),
        final(cpu).cycle_count() == old(cpu).cycle_count(),
        final(cpu).requests() == old(cpu).requests(),
        entry.addr_mode == AddrMode::Acc ==> final(cpu).bus() == old(cpu).bus(),
{
    let val = rmw_read(cpu, entry);
    let (result, flags) = asr_kernel(val, &cpu.status);
    cpu.status = flags;
    rmw_write(cpu, entry, result);
}

fn asl_op<M: MemoryBus>(cpu: &mut Cpu<M>, entry: &OpcodeEntry)
    ensures
        final(cpu).state() == asl_effect(old(cpu).state(), *entry),
        final(cpu).cycle_count() == old(cpu).cycle_count(),
        final(cpu).requests() == old(cpu).requests(),
        entry.addr_mode == AddrMode::Acc ==> final(cpu).bus() == old(cpu).bus(),
{
    let val = rmw_read(cpu, entry);
    let (result, flags) = asl_kernel(val, &cpu.status);
    cpu.status = flags;
    rmw_write(cpu, entry, result);
}

fn rol_op<M: MemoryBus>(cpu: &mut Cpu<M>, entry: &OpcodeEntry)
    ensures
        final(cpu).state() == rol_effect(old(cpu).state(), *entry),
        final(cpu).cycle_count() == old(cpu).cycle_count(),
        final(cpu).requests() == old(cpu).requests(),
        entry.addr_mode == AddrMode::Acc ==> final(cpu).bus() == old(cpu).bus(),
{
    let val = rmw_read(cpu, entry);
    let (result, flags) = rol_kernel(val, &cpu.status);
    cpu.status = flags;
    rmw_write(cpu, entry, result);
}

fn dec<M: MemoryBus>(cpu: &mut Cpu<M>, entry: &OpcodeEntry)
    ensures
        final(cpu).state() == dec_effect(old(cpu).state(), *entry),
        final(cpu).cycle_count() == old(cpu).cycle_count(),
        final(cpu).requests() == old(cpu).requests(),
        entry.addr_mode == AddrMode::Acc ==> final(cpu).bus() == old(cpu).bus(),
{
    let val = rmw_read(cpu, entry);
    let (result, flags) = dec_kernel(val, &cpu.status);
    cpu.status = flags;
    rmw_write(cpu, entry, result);
}

fn inc<M: MemoryBus>(cpu: &mut Cpu<M>, entry: &OpcodeEntry)
    ensures
        final(cpu).state() == inc_effect(old(cpu).state(), *entry),
        final(cpu).cycle_count() == old(cpu).cycle_count(),
        final(cpu).requests() == old(cpu).requests(),
        entry.addr_mode == AddrMode::Acc ==> final(cpu).bus() == old(cpu).bus(),
{
    let val = rmw_read(cpu, entry);
    let (result, flags) = inc_kernel(val, &cpu.status);
    cpu.status = flags;
    rmw_write(cpu, entry, result);
}

fn tst<M: MemoryBus>(cpu: &mut Cpu<M>, entry: &OpcodeEntry)
    ensures
        final(cpu).state() == tst_effect(old(cpu).state(), *entry),
        final(cpu).cycle_count() == old(cpu).cycle_count(),
        final(cpu).requests() == old(cpu).requests(),
        final(cpu).bus() == old(cpu).bus(),
{
    let val = rmw_read(cpu, entry);
    set_nz(cpu, val);
    cpu.status.v = false;
    cpu.status.c = false;
}

fn clr_op<M: MemoryBus>(cpu: &mut Cpu<M>, entry: &OpcodeEntry)
    ensures
        final(cpu).state() == clr_effect(old(cpu).state(), *entry),
        final(cpu).cycle_count() == old(cpu).cycle_count(),
        final(cpu).requests() == old(cpu).requests(),
        entry.addr_mode == AddrMode::Acc ==> final(cpu).bus() == old(cpu).bus(),
{
    if matches!(entry.addr_mode, AddrMode::Acc) {
        reg_set(cpu, entry.acc, 0);
    } else {
        write_advance(cpu, entry, 0);
    }
    cpu.status.n = false;
    cpu.status.z = true;
    cpu.status.v = false;
    cpu.status.c = false;
}

// ---------------------------------------------------------------------
// Jumps and branches
// ---------------------------------------------------------------------

fn jmp<M: MemoryBus>(cpu: &mut Cpu<M>, entry: &OpcodeEntry)
    ensures
        final(cpu).state() == jmp_effect(old(cpu).state(), *entry),
        final(cpu).cycle_count() == old(cpu).cycle_count(),
        final(cpu).requests() == old(cpu).requests(),
        final(cpu).bus() == old(cpu).bus(),
{
    let target = read_advance(cpu, entry);
    cpu.reg.pc = target;
}

/// Moves past the displacement byte and, when `taken`, branches by it.
fn branch<M: MemoryBus>(cpu: &mut Cpu<M>, taken: bool)
    ensures
        final(cpu).state() == branch_effect(old(cpu).state(), taken),
        final(cpu).cycle_count() == old(cpu).cycle_count(),
        final(cpu).requests() == old(cpu).requests(),
        final(cpu).bus() == old(cpu).bus(),
{
    let offset = cpu.bus_read(cpu.reg.pc);
    cpu.reg.pc = cpu.reg.pc.wrapping_add(1);
    if taken {
        cpu.reg.pc = relative(cpu.reg.pc, offset);
    }
}

/// Pushes `ret`, low byte at SP, and goes to `target`.
fn push_return<M: MemoryBus>(cpu: &mut Cpu<M>, ret: u16, target: u16)
    ensures
        final(cpu).state() == call_to(old(cpu).state(), ret, target),
        final(cpu).cycle_count() == old(cpu).cycle_count(),
        final(cpu).requests() == old(cpu).requests(),
{
    proof {
        lemma_byte_bits(ret);
    }
    let sp = cpu.reg.sp;
    cpu.bus_write(sp, ret as u8);
    cpu.bus_write(sp.wrapping_sub(1), (ret >> 8) as u8);
    cpu.reg.sp = sp.wrapping_sub(2);
    cpu.reg.pc = target;
}

fn bsr<M: MemoryBus>(cpu: &mut Cpu<M>)
    ensures
        final(cpu).state() == bsr_effect(old(cpu).state()),
        final(cpu).cycle_count() == old(cpu).cycle_count(),
        final(cpu).requests() == old(cpu).requests(),
{
    let offset = cpu.bus_read(cpu.reg.pc);
    cpu.reg.pc = cpu.reg.pc.wrapping_add(1);
    let target = relative(cpu.reg.pc, offset);
    let ret = cpu.reg.pc;
    push_return(cpu, ret, target);
}

fn jsr<M: MemoryBus>(cpu: &mut Cpu<M>, entry: &OpcodeEntry)
    ensures
        final(cpu).state() == jsr_effect(old(cpu).state(), *entry),
        final(cpu).cycle_count() == old(cpu).cycle_count(),
        final(cpu).requests() == old(cpu).requests(),
{
    let target = read_advance(cpu, entry);
    let ret = cpu.reg.pc;
    push_return(cpu, ret, target);
}

} // verus!
