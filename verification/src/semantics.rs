//! What each instruction does to the processor, as functions on `CpuState`.
use vstd::prelude::*;

use crate::cpu::{
    byte_of_flags, flags_of_byte, word, wrap16, wrap8, CpuState, Requests, StatusFlags,
};
use crate::opcodes::{opcode_table, Accumulator, AddrMode, Mnemonic, OpcodeEntry};

verus! {

/// `v` read as a two's complement byte.
pub open spec fn signed8(v: u8) -> int {
    if v < 128 {
        v as int
    } else {
        v - 256
    }
}

/// `v` read as a two's complement word.
pub open spec fn signed16(v: u16) -> int {
    if v < 0x8000 {
        v as int
    } else {
        v - 0x10000
    }
}

/// Whether `x - m - borrow` leaves the range of a signed byte.
pub open spec fn sub_overflows(x: u8, m: u8, borrow: int) -> bool {
    !(-128 <= signed8(x) - signed8(m) - borrow <= 127)
}

/// Whether `x - m` leaves the range of a signed word.
pub open spec fn sub16_overflows(x: u16, m: u16) -> bool {
    !(-0x8000 <= signed16(x) - signed16(m) <= 0x7FFF)
}

/// Where a branch with displacement `offset` goes from `from`.
pub open spec fn branch_target(from: u16, offset: u8) -> u16 {
    wrap16(from + signed8(offset))
}

/// The value of the accumulator that `acc` names, zero for none.
pub open spec fn acc_value(s: CpuState, acc: Option<Accumulator>) -> u8 {
    match acc {
        Some(Accumulator::A) => s.reg.a,
        Some(Accumulator::B) => s.reg.b,
        None => 0,
    }
}

/// The state with the accumulator that `acc` names set to `v`; unchanged
/// for none.
pub open spec fn with_acc(s: CpuState, acc: Option<Accumulator>, v: u8) -> CpuState {
    match acc {
        Some(Accumulator::A) => s.with_a(v),
        Some(Accumulator::B) => s.with_b(v),
        None => s,
    }
}

/// The flags with N and Z set from a byte result.
pub open spec fn with_nz(f: StatusFlags, r: u8) -> StatusFlags {
    StatusFlags { n: r >= 128, z: r == 0, ..f }
}

/// The flags with N and Z set from a word result.
pub open spec fn with_nz16(f: StatusFlags, r: u16) -> StatusFlags {
    StatusFlags { n: r >= 0x8000, z: r == 0, ..f }
}

/// The operand bytes that follow an opcode in the given mode.
pub open spec fn operand_length(mode: AddrMode) -> int {
    match mode {
        AddrMode::Inh | AddrMode::Acc => 0,
        AddrMode::Rel | AddrMode::Imm | AddrMode::Dir | AddrMode::Idx | AddrMode::Immx => 1,
        AddrMode::Imm16 | AddrMode::Ext | AddrMode::Ext16 | AddrMode::Idx16 | AddrMode::Dir16 => 2,
    }
}

/// The address IX plus the displacement byte at PC.
pub open spec fn indexed_address(s: CpuState) -> u16 {
    wrap16(s.reg.ix + s.read8(s.reg.pc))
}

/// The operand that an instruction in the entry's mode reads, with PC at
/// its first operand byte.
#[verifier::opaque]
pub open spec fn operand(s: CpuState, e: OpcodeEntry) -> u16 {
    let pc = s.reg.pc;
    match e.addr_mode {
        AddrMode::Inh => 0,
        AddrMode::Acc => acc_value(s, e.acc) as u16,
        AddrMode::Imm => s.read8(pc) as u16,
        AddrMode::Imm16 => s.read16(pc),
        AddrMode::Dir => s.read8(s.read8(pc) as u16) as u16,
        AddrMode::Dir16 => s.read16(s.read8(pc) as u16),
        AddrMode::Ext => s.read8(s.read16(pc)) as u16,
        AddrMode::Ext16 => s.read16(s.read16(pc)),
        AddrMode::Idx => s.read8(indexed_address(s)) as u16,
        AddrMode::Idx16 => s.read16(indexed_address(s)),
        AddrMode::Immx => indexed_address(s),
        AddrMode::Rel => branch_target(pc, s.read8(pc)),
    }
}

/// The address that a store in the entry's mode writes to, if any.
pub open spec fn store_address(s: CpuState, e: OpcodeEntry) -> Option<u16> {
    let pc = s.reg.pc;
    match e.addr_mode {
        AddrMode::Dir | AddrMode::Dir16 => Some(s.read8(pc) as u16),
        AddrMode::Ext | AddrMode::Ext16 => Some(s.read16(pc)),
        AddrMode::Idx | AddrMode::Idx16 => Some(indexed_address(s)),
        AddrMode::Imm => if e.instruction == Mnemonic::Sta || e.instruction == Mnemonic::Sts
            || e.instruction == Mnemonic::Stx {
            Some(s.read8(pc) as u16)
        } else {
            None
        },
        _ => None,
    }
}

/// The state with PC moved past the operand bytes.
pub open spec fn advanced(s: CpuState, e: OpcodeEntry) -> CpuState {
    s.with_pc(wrap16(s.reg.pc + operand_length(e.addr_mode)))
}

/// The state after storing `val` in the entry's mode: PC moves past the
/// operand, a byte or a word is written at the store address, and in
/// accumulator mode the accumulator takes the low byte. The store address
/// is read at PC as it stands on entry, so a caller that has already moved
/// PC past the operand stores at the address that the bytes after the
/// operand name, and PC moves past the operand length a second time.
pub open spec fn stored(s: CpuState, e: OpcodeEntry, val: u16) -> CpuState {
    let s1 = advanced(s, e);
    let s2 = match store_address(s, e) {
        Some(a) => match e.addr_mode {
            AddrMode::Dir | AddrMode::Ext | AddrMode::Idx | AddrMode::Imm => s1.write8(
                a,
                wrap8(val as int),
            ),
            AddrMode::Dir16 | AddrMode::Ext16 | AddrMode::Idx16 => s1.write16(a, val),
            _ => s1,
        },
        None => s1,
    };
    if e.addr_mode == AddrMode::Acc {
        with_acc(s2, e.acc, wrap8(val as int))
    } else {
        s2
    }
}

/// The byte a read-modify-write instruction works on: the accumulator in
/// accumulator mode, else the low byte of the operand.
pub open spec fn rmw_input(s: CpuState, e: OpcodeEntry) -> u8 {
    if e.addr_mode == AddrMode::Acc {
        acc_value(s, e.acc)
    } else {
        wrap8(operand(s, e) as int)
    }
}

/// The state after a read-modify-write instruction has read its input.
pub open spec fn rmw_base(s: CpuState, e: OpcodeEntry) -> CpuState {
    if e.addr_mode == AddrMode::Acc {
        s
    } else {
        advanced(s, e)
    }
}

/// The state after a read-modify-write instruction hands on its result: in
/// accumulator mode the accumulator takes its low byte; in a memory mode it
/// goes through `stored` from the state after the operand, so it is written
/// at the address that the bytes after the operand name (not at the address
/// it was read from), and PC moves past the operand length a second time.
pub open spec fn rmw_output(s: CpuState, e: OpcodeEntry, r: u16) -> CpuState {
    if e.addr_mode == AddrMode::Acc {
        with_acc(s, e.acc, wrap8(r as int))
    } else {
        stored(s, e, r)
    }
}

// ---------------------------------------------------------------------
// Register and flag instructions
// ---------------------------------------------------------------------

pub open spec fn tap_effect(s: CpuState) -> CpuState {
    s.with_status(flags_of_byte(s.reg.a))
}

pub open spec fn tpa_effect(s: CpuState) -> CpuState {
    s.with_a(byte_of_flags(s.status))
}

/// IX moved by `delta`, Z set when it becomes zero.
pub open spec fn ix_step_effect(s: CpuState, delta: int) -> CpuState {
    let r = wrap16(s.reg.ix + delta);
    s.with_ix(r).with_status(StatusFlags { z: r == 0, ..s.status })
}

pub open spec fn sba_effect(s: CpuState) -> CpuState {
    let k = sub_bytes(s.reg.a, s.reg.b, false, s.status);
    s.with_status(k.1).with_a(k.0)
}

pub open spec fn cba_effect(s: CpuState) -> CpuState {
    s.with_status(sub_bytes(s.reg.a, s.reg.b, false, s.status).1)
}

pub open spec fn nba_effect(s: CpuState) -> CpuState {
    let r = s.reg.a & s.reg.b;
    s.with_status(StatusFlags { v: false, ..with_nz(s.status, r) }).with_a(r)
}

pub open spec fn tab_effect(s: CpuState) -> CpuState {
    s.with_status(StatusFlags { v: false, ..with_nz(s.status, s.reg.a) }).with_b(s.reg.a)
}

pub open spec fn tba_effect(s: CpuState) -> CpuState {
    s.with_status(StatusFlags { v: false, ..with_nz(s.status, s.reg.b) }).with_a(s.reg.b)
}

pub open spec fn aba_effect(s: CpuState) -> CpuState {
    let k = add_bytes(s.reg.a, s.reg.b, false, s.status);
    s.with_status(k.1).with_a(k.0)
}

// ---------------------------------------------------------------------
// Stack instructions
// ---------------------------------------------------------------------

pub open spec fn pul_effect(s: CpuState, e: OpcodeEntry) -> CpuState {
    let sp = wrap16(s.reg.sp + 1);
    with_acc(s.with_sp(sp), e.acc, s.read8(sp))
}

pub open spec fn psh_effect(s: CpuState, e: OpcodeEntry) -> CpuState {
    s.write8(s.reg.sp, acc_value(s, e.acc)).with_sp(wrap16(s.reg.sp - 1))
}

pub open spec fn rts_effect(s: CpuState) -> CpuState {
    let sp = s.reg.sp;
    s.with_pc(word(s.read8(wrap16(sp + 1)), s.read8(wrap16(sp + 2)))).with_sp(wrap16(sp + 2))
}

pub open spec fn wai_effect(s: CpuState) -> CpuState {
    CpuState { halt: true, ..s.saved() }
}

/// The state after pushing the registers, masking interrupts and loading
/// PC from the vector at `vector`.
pub open spec fn interrupt(s: CpuState, vector: u16) -> CpuState {
    let t = s.saved();
    t.with_status(StatusFlags { i: true, ..t.status }).with_pc(
        word(t.read8(vector), t.read8(wrap16(vector + 1))),
    )
}

pub open spec fn swi_effect(s: CpuState) -> CpuState {
    interrupt(s, 0xFFFA)
}

/// Pushes `ret` as a return address, low byte at SP, and goes to `target`.
pub open spec fn call_to(s: CpuState, ret: u16, target: u16) -> CpuState {
    let sp = s.reg.sp;
    s.write8(sp, (ret % 256) as u8).write8(wrap16(sp - 1), (ret / 256) as u8).with_sp(
        wrap16(sp - 2),
    ).with_pc(target)
}

pub open spec fn bsr_effect(s: CpuState) -> CpuState {
    let offset = s.read8(s.reg.pc);
    let ret = wrap16(s.reg.pc + 1);
    call_to(s.with_pc(ret), ret, branch_target(ret, offset))
}

pub open spec fn jsr_effect(s: CpuState, e: OpcodeEntry) -> CpuState {
    let s1 = advanced(s, e);
    call_to(s1, s1.reg.pc, operand(s, e))
}

pub open spec fn jmp_effect(s: CpuState, e: OpcodeEntry) -> CpuState {
    advanced(s, e).with_pc(operand(s, e))
}

/// Whether a branch instruction branches, given the flags.
pub open spec fn branch_taken(mn: Mnemonic, f: StatusFlags) -> bool {
    match mn {
        Mnemonic::Bhi => !f.c && !f.z,
        Mnemonic::Bls => f.c || f.z,
        Mnemonic::Bcc => !f.c,
        Mnemonic::Bcs => f.c,
        Mnemonic::Bne => !f.z,
        Mnemonic::Beq => f.z,
        Mnemonic::Bvc => !f.v,
        Mnemonic::Bvs => f.v,
        Mnemonic::Bpl => !f.n,
        Mnemonic::Bmi => f.n,
        Mnemonic::Bge => f.n == f.v,
        Mnemonic::Blt => f.n != f.v,
        Mnemonic::Bgt => !f.z && f.n == f.v,
        Mnemonic::Ble => f.z || f.n != f.v,
        _ => true,
    }
}

/// A branch: PC moves past the displacement, then by it when taken.
pub open spec fn branch_effect(s: CpuState, taken: bool) -> CpuState {
    let offset = s.read8(s.reg.pc);
    let next = wrap16(s.reg.pc + 1);
    s.with_pc(
        if taken {
            branch_target(next, offset)
        } else {
            next
        },
    )
}

// ---------------------------------------------------------------------
// Byte arithmetic: each returns the result and the new flags
// ---------------------------------------------------------------------

/// `x + m + carry`: N and Z from the low byte, C when it leaves a byte.
pub open spec fn add_bytes(x: u8, m: u8, carry: bool, f: StatusFlags) -> (u8, StatusFlags) {
    let sum = x + m + if carry {
        1int
    } else {
        0int
    };
    (wrap8(sum), StatusFlags { c: sum > 255, ..with_nz(f, wrap8(sum)) })
}

/// `x - m - borrow`: N and Z from the low byte, V on signed overflow, C
/// on borrow.
pub open spec fn sub_bytes(x: u8, m: u8, borrow: bool, f: StatusFlags) -> (u8, StatusFlags) {
    let b: int = if borrow {
        1
    } else {
        0
    };
    let r = wrap8(x - m - b);
    (r, StatusFlags { v: sub_overflows(x, m, b), c: x < m + b, ..with_nz(f, r) })
}

pub open spec fn neg_byte(v: u8, f: StatusFlags) -> (u16, StatusFlags) {
    let r = wrap8(-v);
    (r as u16, StatusFlags { v: v == 128, c: v != 0, ..with_nz(f, r) })
}

pub open spec fn com_byte(v: u8, f: StatusFlags) -> (u16, StatusFlags) {
    let r = (255 - v) as u8;
    (r as u16, StatusFlags { c: true, v: false, ..with_nz(f, r) })
}

pub open spec fn lsr_byte(v: u8, f: StatusFlags) -> (u16, StatusFlags) {
    let r = v / 2;
    let c = v % 2 == 1;
    (r as u16, StatusFlags { n: false, z: r == 0, c, v: c, ..f })
}

pub open spec fn ror_byte(v: u8, f: StatusFlags) -> (u16, StatusFlags) {
    let r = (v / 2 + if f.c {
        128int
    } else {
        0int
    }) as u8;
    let c = v % 2 == 1;
    (r as u16, StatusFlags { c, v: (r >= 128) != c, ..with_nz(f, r) })
}

pub open spec fn asr_byte(v: u8, f: StatusFlags) -> (u16, StatusFlags) {
    let r = (v / 2 + 128) as u8;
    let c = v % 2 == 1;
    (r as u16, StatusFlags { c, v: !c, ..with_nz(f, r) })
}

/// The shifted value keeps its ninth bit; the flags come from it.
pub open spec fn asl_byte(v: u8, f: StatusFlags) -> (u16, StatusFlags) {
    let r = (v * 2) as u16;
    let n = r % 256 >= 128;
    let c = r > 255;
    (r, StatusFlags { n, z: r % 256 == 0, c, v: c != n, ..f })
}

/// The rotated value keeps its ninth bit; the flags come from it.
pub open spec fn rol_byte(v: u8, f: StatusFlags) -> (u16, StatusFlags) {
    let r = (v * 2 + if f.c {
        1int
    } else {
        0int
    }) as u16;
    let n = r % 256 >= 128;
    let c = r > 255;
    (r, StatusFlags { n, z: r % 256 == 0, c, v: n != c, ..f })
}

pub open spec fn dec_byte(v: u8, f: StatusFlags) -> (u16, StatusFlags) {
    let r = wrap8(v - 1);
    (r as u16, StatusFlags { v: v == 128, ..with_nz(f, r) })
}

pub open spec fn inc_byte(v: u8, f: StatusFlags) -> (u16, StatusFlags) {
    let r = wrap8(v + 1);
    (r as u16, StatusFlags { v: v == 127, c: r == 0, ..with_nz(f, r) })
}

// ---------------------------------------------------------------------
// Read-modify-write instructions
// ---------------------------------------------------------------------

/// A read-modify-write instruction whose result and flags are `k`.
pub open spec fn rmw_result(s: CpuState, e: OpcodeEntry, k: (u16, StatusFlags)) -> CpuState {
    rmw_output(rmw_base(s, e).with_status(k.1), e, k.0)
}

pub open spec fn neg_effect(s: CpuState, e: OpcodeEntry) -> CpuState {
    rmw_result(s, e, neg_byte(rmw_input(s, e), s.status))
}

pub open spec fn com_effect(s: CpuState, e: OpcodeEntry) -> CpuState {
    rmw_result(s, e, com_byte(rmw_input(s, e), s.status))
}

pub open spec fn lsr_effect(s: CpuState, e: OpcodeEntry) -> CpuState {
    rmw_result(s, e, lsr_byte(rmw_input(s, e), s.status))
}

pub open spec fn ror_effect(s: CpuState, e: OpcodeEntry) -> CpuState {
    rmw_result(s, e, ror_byte(rmw_input(s, e), s.status))
}

pub open spec fn asr_effect(s: CpuState, e: OpcodeEntry) -> CpuState {
    rmw_result(s, e, asr_byte(rmw_input(s, e), s.status))
}

pub open spec fn asl_effect(s: CpuState, e: OpcodeEntry) -> CpuState {
    rmw_result(s, e, asl_byte(rmw_input(s, e), s.status))
}

pub open spec fn rol_effect(s: CpuState, e: OpcodeEntry) -> CpuState {
    rmw_result(s, e, rol_byte(rmw_input(s, e), s.status))
}

pub open spec fn dec_effect(s: CpuState, e: OpcodeEntry) -> CpuState {
    rmw_result(s, e, dec_byte(rmw_input(s, e), s.status))
}

pub open spec fn inc_effect(s: CpuState, e: OpcodeEntry) -> CpuState {
    rmw_result(s, e, inc_byte(rmw_input(s, e), s.status))
}

pub open spec fn tst_effect(s: CpuState, e: OpcodeEntry) -> CpuState {
    let v = rmw_input(s, e);
    rmw_base(s, e).with_status(StatusFlags { v: false, c: false, ..with_nz(s.status, v) })
}

pub open spec fn clr_effect(s: CpuState, e: OpcodeEntry) -> CpuState {
    let t = if e.addr_mode == AddrMode::Acc {
        with_acc(s, e.acc, 0)
    } else {
        stored(s, e, 0)
    };
    t.with_status(StatusFlags { n: false, z: true, v: false, c: false, ..t.status })
}

// ---------------------------------------------------------------------
// Accumulator and memory instructions
// ---------------------------------------------------------------------

/// The low byte of the operand of an accumulator instruction.
pub open spec fn alu_operand(s: CpuState, e: OpcodeEntry) -> u8 {
    wrap8(operand(s, e) as int)
}

/// An accumulator instruction: PC moves past the operand, the flags become
/// `f` and the accumulator `r`.
pub open spec fn alu_result(s: CpuState, e: OpcodeEntry, r: u8, f: StatusFlags) -> CpuState {
    with_acc(advanced(s, e).with_status(f), e.acc, r)
}

pub open spec fn add_effect(s: CpuState, e: OpcodeEntry) -> CpuState {
    let k = add_bytes(acc_value(s, e.acc), alu_operand(s, e), false, s.status);
    alu_result(s, e, k.0, k.1)
}

pub open spec fn adc_effect(s: CpuState, e: OpcodeEntry) -> CpuState {
    let k = add_bytes(acc_value(s, e.acc), alu_operand(s, e), s.status.c, s.status);
    alu_result(s, e, k.0, k.1)
}

pub open spec fn sub_effect(s: CpuState, e: OpcodeEntry) -> CpuState {
    let k = sub_bytes(acc_value(s, e.acc), alu_operand(s, e), false, s.status);
    alu_result(s, e, k.0, k.1)
}

pub open spec fn sbc_effect(s: CpuState, e: OpcodeEntry) -> CpuState {
    let k = sub_bytes(acc_value(s, e.acc), alu_operand(s, e), s.status.c, s.status);
    alu_result(s, e, k.0, k.1)
}

pub open spec fn compare_effect(s: CpuState, e: OpcodeEntry) -> CpuState {
    advanced(s, e).with_status(
        sub_bytes(acc_value(s, e.acc), alu_operand(s, e), false, s.status).1,
    )
}

pub open spec fn and_effect(s: CpuState, e: OpcodeEntry) -> CpuState {
    let r = acc_value(s, e.acc) & alu_operand(s, e);
    alu_result(s, e, r, StatusFlags { v: false, ..with_nz(s.status, r) })
}

pub open spec fn bit_effect(s: CpuState, e: OpcodeEntry) -> CpuState {
    let r = acc_value(s, e.acc) & alu_operand(s, e);
    advanced(s, e).with_status(StatusFlags { z: r == 0, n: false, v: false, ..s.status })
}

pub open spec fn eor_effect(s: CpuState, e: OpcodeEntry) -> CpuState {
    let r = acc_value(s, e.acc) ^ alu_operand(s, e);
    alu_result(s, e, r, StatusFlags { v: false, ..with_nz(s.status, r) })
}

pub open spec fn ora_effect(s: CpuState, e: OpcodeEntry) -> CpuState {
    let r = acc_value(s, e.acc) | alu_operand(s, e);
    alu_result(s, e, r, with_nz(s.status, r))
}

pub open spec fn lda_effect(s: CpuState, e: OpcodeEntry) -> CpuState {
    let m = alu_operand(s, e);
    alu_result(s, e, m, StatusFlags { v: false, ..with_nz(s.status, m) })
}

pub open spec fn sta_effect(s: CpuState, e: OpcodeEntry) -> CpuState {
    let x = acc_value(s, e.acc);
    stored(s.with_status(StatusFlags { v: false, ..with_nz(s.status, x) }), e, x as u16)
}

pub open spec fn lds_effect(s: CpuState, e: OpcodeEntry) -> CpuState {
    advanced(s, e).with_status(StatusFlags { v: false, ..s.status }).with_sp(operand(s, e))
}

pub open spec fn sts_effect(s: CpuState, e: OpcodeEntry) -> CpuState {
    let x = s.reg.sp;
    stored(s.with_status(StatusFlags { v: false, ..with_nz16(s.status, x) }), e, x)
}

pub open spec fn ldx_effect(s: CpuState, e: OpcodeEntry) -> CpuState {
    let m = operand(s, e);
    advanced(s, e).with_status(StatusFlags { v: false, ..with_nz16(s.status, m) }).with_ix(m)
}

pub open spec fn stx_effect(s: CpuState, e: OpcodeEntry) -> CpuState {
    let x = s.reg.ix;
    stored(s.with_status(StatusFlags { v: false, ..with_nz16(s.status, x) }), e, x)
}

pub open spec fn cpx_effect(s: CpuState, e: OpcodeEntry) -> CpuState {
    let m = operand(s, e);
    let x = s.reg.ix;
    let r = wrap16(x - m);
    advanced(s, e).with_status(StatusFlags { v: sub16_overflows(x, m), ..with_nz16(s.status, r) })
}

// ---------------------------------------------------------------------
// The instruction set
// ---------------------------------------------------------------------

/// An instruction on the flags alone.
pub open spec fn flag_instruction(m: Mnemonic) -> bool {
    match m {
        Mnemonic::Clv | Mnemonic::Sev | Mnemonic::Clc | Mnemonic::Sec | Mnemonic::Cli
        | Mnemonic::Sei | Mnemonic::Tap | Mnemonic::Tpa => true,
        _ => false,
    }
}

/// An instruction on the registers, with no operand.
pub open spec fn register_instruction(m: Mnemonic) -> bool {
    match m {
        Mnemonic::Nop | Mnemonic::Inx | Mnemonic::Dex | Mnemonic::Sba | Mnemonic::Cba
        | Mnemonic::Nba | Mnemonic::Tab | Mnemonic::Tba | Mnemonic::Daa | Mnemonic::Aba
        | Mnemonic::Tsx | Mnemonic::Ins | Mnemonic::Des | Mnemonic::Txs => true,
        _ => false,
    }
}

/// A stack, jump or halt instruction, or none.
pub open spec fn control_instruction(m: Mnemonic) -> bool {
    match m {
        Mnemonic::Pul | Mnemonic::Psh | Mnemonic::Rts | Mnemonic::Rti | Mnemonic::Wai
        | Mnemonic::Swi | Mnemonic::Bsr | Mnemonic::Jsr | Mnemonic::Jmp | Mnemonic::Hcf
        | Mnemonic::Undefined => true,
        _ => false,
    }
}

/// A read-modify-write instruction.
pub open spec fn read_modify_write(m: Mnemonic) -> bool {
    match m {
        Mnemonic::Neg | Mnemonic::Com | Mnemonic::Lsr | Mnemonic::Ror | Mnemonic::Asr
        | Mnemonic::Asl | Mnemonic::Rol | Mnemonic::Dec | Mnemonic::Inc | Mnemonic::Tst
        | Mnemonic::Clr => true,
        _ => false,
    }
}

/// An instruction that loads, stores or combines an operand.
pub open spec fn operand_instruction(m: Mnemonic) -> bool {
    match m {
        Mnemonic::Sub | Mnemonic::Cmp | Mnemonic::Sbc | Mnemonic::And | Mnemonic::Bit
        | Mnemonic::Lda | Mnemonic::Sta | Mnemonic::Eor | Mnemonic::Adc | Mnemonic::Ora
        | Mnemonic::Add | Mnemonic::Cpx | Mnemonic::Lds | Mnemonic::Sts | Mnemonic::Ldx
        | Mnemonic::Stx => true,
        _ => false,
    }
}

/// A conditional or unconditional branch.
pub open spec fn branch_instruction(m: Mnemonic) -> bool {
    match m {
        Mnemonic::Bra | Mnemonic::Bhi | Mnemonic::Bls | Mnemonic::Bcc | Mnemonic::Bcs
        | Mnemonic::Bne | Mnemonic::Beq | Mnemonic::Bvc | Mnemonic::Bvs | Mnemonic::Bpl
        | Mnemonic::Bmi | Mnemonic::Bge | Mnemonic::Blt | Mnemonic::Bgt | Mnemonic::Ble => true,
        _ => false,
    }
}

/// What an instruction on the flags does.
pub open spec fn flag_effect(s: CpuState, e: OpcodeEntry) -> CpuState {
    let f = s.status;
    match e.instruction {
        Mnemonic::Clv => s.with_status(StatusFlags { v: false, ..f }),
        Mnemonic::Sev => s.with_status(StatusFlags { v: true, ..f }),
        Mnemonic::Clc => s.with_status(StatusFlags { c: false, ..f }),
        Mnemonic::Sec => s.with_status(StatusFlags { c: true, ..f }),
        Mnemonic::Cli => s.with_status(StatusFlags { i: false, ..f }),
        Mnemonic::Sei => s.with_status(StatusFlags { i: true, ..f }),
        Mnemonic::Tap => tap_effect(s),
        Mnemonic::Tpa => tpa_effect(s),
        _ => s,
    }
}

/// What an instruction on the registers does.
pub open spec fn register_effect(s: CpuState, e: OpcodeEntry) -> CpuState {
    match e.instruction {
        Mnemonic::Nop => s,
        Mnemonic::Inx => ix_step_effect(s, 1),
        Mnemonic::Dex => ix_step_effect(s, -1),
        Mnemonic::Sba => sba_effect(s),
        Mnemonic::Cba => cba_effect(s),
        Mnemonic::Nba => nba_effect(s),
        Mnemonic::Tab => tab_effect(s),
        Mnemonic::Tba => tba_effect(s),
        Mnemonic::Daa => s,
        Mnemonic::Aba => aba_effect(s),
        Mnemonic::Tsx => s.with_ix(wrap16(s.reg.sp + 1)),
        Mnemonic::Ins => s.with_sp(wrap16(s.reg.sp + 1)),
        Mnemonic::Des => s.with_sp(wrap16(s.reg.sp - 1)),
        Mnemonic::Txs => s.with_sp(wrap16(s.reg.ix - 1)),
        _ => s,
    }
}

/// What a stack, jump or halt instruction does; an entry with no operation
/// does nothing.
pub open spec fn control_effect(s: CpuState, e: OpcodeEntry) -> CpuState {
    match e.instruction {
        Mnemonic::Pul => pul_effect(s, e),
        Mnemonic::Psh => psh_effect(s, e),
        Mnemonic::Rts => rts_effect(s),
        Mnemonic::Rti => s.restored(),
        Mnemonic::Wai => wai_effect(s),
        Mnemonic::Swi => swi_effect(s),
        Mnemonic::Bsr => bsr_effect(s),
        Mnemonic::Jsr => jsr_effect(s, e),
        Mnemonic::Jmp => jmp_effect(s, e),
        Mnemonic::Hcf => CpuState { halt: true, catch_fire: true, ..s },
        _ => s,
    }
}

/// What a read-modify-write instruction does.
pub open spec fn read_modify_write_effect(s: CpuState, e: OpcodeEntry) -> CpuState {
    match e.instruction {
        Mnemonic::Neg => neg_effect(s, e),
        Mnemonic::Com => com_effect(s, e),
        Mnemonic::Lsr => lsr_effect(s, e),
        Mnemonic::Ror => ror_effect(s, e),
        Mnemonic::Asr => asr_effect(s, e),
        Mnemonic::Asl => asl_effect(s, e),
        Mnemonic::Rol => rol_effect(s, e),
        Mnemonic::Dec => dec_effect(s, e),
        Mnemonic::Inc => inc_effect(s, e),
        Mnemonic::Tst => tst_effect(s, e),
        Mnemonic::Clr => clr_effect(s, e),
        _ => s,
    }
}

/// What an instruction that loads, stores or combines an operand does.
pub open spec fn operand_effect(s: CpuState, e: OpcodeEntry) -> CpuState {
    match e.instruction {
        Mnemonic::Sub => sub_effect(s, e),
        Mnemonic::Cmp => compare_effect(s, e),
        Mnemonic::Sbc => sbc_effect(s, e),
        Mnemonic::And => and_effect(s, e),
        Mnemonic::Bit => bit_effect(s, e),
        Mnemonic::Lda => lda_effect(s, e),
        Mnemonic::Sta => sta_effect(s, e),
        Mnemonic::Eor => eor_effect(s, e),
        Mnemonic::Adc => adc_effect(s, e),
        Mnemonic::Ora => ora_effect(s, e),
        Mnemonic::Add => add_effect(s, e),
        Mnemonic::Cpx => cpx_effect(s, e),
        Mnemonic::Lds => lds_effect(s, e),
        Mnemonic::Sts => sts_effect(s, e),
        Mnemonic::Ldx => ldx_effect(s, e),
        Mnemonic::Stx => stx_effect(s, e),
        _ => s,
    }
}

/// Whether executing the entry may write to the bus: only pushes, calls,
/// interrupts, stores, and read-modify-write instructions in a memory mode
/// do.
pub open spec fn may_write_bus(e: OpcodeEntry) -> bool {
    match e.instruction {
        Mnemonic::Psh | Mnemonic::Wai | Mnemonic::Swi | Mnemonic::Bsr | Mnemonic::Jsr
        | Mnemonic::Sta | Mnemonic::Sts | Mnemonic::Stx => true,
        Mnemonic::Neg | Mnemonic::Com | Mnemonic::Lsr | Mnemonic::Ror | Mnemonic::Asr
        | Mnemonic::Asl | Mnemonic::Rol | Mnemonic::Dec | Mnemonic::Inc | Mnemonic::Clr => {
            e.addr_mode != AddrMode::Acc
        },
        _ => false,
    }
}

/// What executing the entry's instruction does, with PC at the byte after
/// the opcode.
pub open spec fn instruction_effect(s: CpuState, e: OpcodeEntry) -> CpuState {
    let m = e.instruction;
    if flag_instruction(m) {
        flag_effect(s, e)
    } else if register_instruction(m) {
        register_effect(s, e)
    } else if control_instruction(m) {
        control_effect(s, e)
    } else if read_modify_write(m) {
        read_modify_write_effect(s, e)
    } else if operand_instruction(m) {
        operand_effect(s, e)
    } else {
        branch_effect(s, branch_taken(m, s.status))
    }
}

// ---------------------------------------------------------------------
// Steps
// ---------------------------------------------------------------------

/// A step of a halted processor: one that caught fire goes on fetching;
/// else a non-maskable interrupt, then an unmasked interrupt request, wakes
/// it with the interrupt mask set and PC loaded from its vector, without
/// stacking anything.
pub open spec fn halted_step(s: CpuState, r: Requests) -> CpuState {
    if s.catch_fire {
        s.with_pc(wrap16(s.reg.pc + 1))
    } else if r.nmi {
        s.with_status(StatusFlags { i: true, ..s.status }).with_pc(
            word(s.read8(0xFFFC), s.read8(0xFFFD)),
        )
    } else if r.irq && !s.status.i {
        s.with_status(StatusFlags { i: true, ..s.status }).with_pc(
            word(s.read8(0xFFF8), s.read8(0xFFF9)),
        )
    } else {
        s
    }
}

/// The requests left after a step of a halted processor: the one that
/// woke it is cleared.
pub open spec fn halted_requests(s: CpuState, r: Requests) -> Requests {
    if s.catch_fire {
        r
    } else if r.nmi {
        Requests { nmi: false, ..r }
    } else if r.irq && !s.status.i {
        Requests { irq: false, ..r }
    } else {
        r
    }
}

/// The state after a running processor takes what is pending: a reset
/// loads PC from its vector; else a non-maskable interrupt stacks the
/// registers and loads PC from its vector; else an unmasked interrupt
/// request stacks the registers, sets the mask and loads PC from its
/// vector.
pub open spec fn serviced(s: CpuState, r: Requests) -> CpuState {
    if r.reset {
        s.with_pc(word(s.read8(0xFFFE), s.read8(0xFFFF)))
    } else if r.nmi {
        let t = s.saved();
        t.with_pc(word(t.read8(0xFFFC), t.read8(0xFFFD)))
    } else if r.irq && !s.status.i {
        interrupt(s, 0xFFF8)
    } else {
        s
    }
}

/// The requests left after a running processor takes what is pending: the
/// one taken is cleared.
pub open spec fn serviced_requests(s: CpuState, r: Requests) -> Requests {
    if r.reset {
        Requests { reset: false, ..r }
    } else if r.nmi {
        Requests { nmi: false, ..r }
    } else if r.irq && !s.status.i {
        Requests { irq: false, ..r }
    } else {
        r
    }
}

/// The state after fetching the opcode at PC.
pub open spec fn fetched(s: CpuState) -> CpuState {
    s.with_pc(wrap16(s.reg.pc + 1))
}

/// The entry that the decoder gives for `opcode`: that of opcode 0 once
/// the processor has caught fire.
pub open spec fn decoded(s: CpuState, opcode: u8) -> OpcodeEntry {
    if s.catch_fire {
        opcode_table(0)
    } else {
        opcode_table(opcode)
    }
}

/// The entry that a running processor executes next, once it has taken
/// what is pending.
pub open spec fn next_entry(s: CpuState, r: Requests) -> OpcodeEntry {
    let t = serviced(s, r);
    decoded(t, t.read8(t.reg.pc))
}

/// What executing an entry does: an opcode with no operation halts the
/// processor and runs as NOP.
pub open spec fn executed(s: CpuState, e: OpcodeEntry) -> CpuState {
    if e.instruction == Mnemonic::Undefined {
        instruction_effect(CpuState { halt: true, ..s }, opcode_table(1))
    } else {
        instruction_effect(s, e)
    }
}

/// The cycles that executing an entry takes: those of NOP for an opcode
/// with no operation.
pub open spec fn executed_cycles(e: OpcodeEntry) -> u64 {
    if e.instruction == Mnemonic::Undefined {
        opcode_table(1).cycles as u64
    } else {
        e.cycles as u64
    }
}

/// One step of the processor.
pub open spec fn step_state(s: CpuState, r: Requests) -> CpuState {
    if s.halt {
        halted_step(s, r)
    } else {
        executed(fetched(serviced(s, r)), next_entry(s, r))
    }
}

/// The requests left pending after one step.
pub open spec fn step_requests(s: CpuState, r: Requests) -> Requests {
    if s.halt {
        halted_requests(s, r)
    } else {
        serviced_requests(s, r)
    }
}

/// The cycles that one step reports: one for a halted processor.
pub open spec fn step_cycles(s: CpuState, r: Requests) -> u64 {
    if s.halt {
        1
    } else {
        executed_cycles(next_entry(s, r))
    }
}

} // verus!
