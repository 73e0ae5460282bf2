//! What each instruction does, stated with its arithmetic written out over
//! the registers, the flags and the bytes of the state, apart from the
//! definitions in `semantics`: each law checks those definitions, and so the
//! code that follows them, against a second statement of the instruction.
use vstd::prelude::*;

use crate::cpu::{byte_of_flags, wrap16, CpuState, Registers, StatusFlags};
use crate::laws::{flags_byte_round_trip, save_then_restore};
use crate::opcodes::{opcode_table, Accumulator, AddrMode, Mnemonic, OpcodeEntry};
use crate::semantics::{
    advanced, alu_operand, asl_effect, branch_effect, branch_instruction, branch_taken,
    instruction_effect, operand, rol_effect, signed8,
};

verus! {

/// `v` read as a two's complement byte.
pub open spec fn as_signed(v: u8) -> int {
    if v < 128 {
        v as int
    } else {
        v - 256
    }
}

/// The accumulator `k` among the registers.
pub open spec fn acc_of(r: Registers, k: Accumulator) -> u8 {
    match k {
        Accumulator::A => r.a,
        Accumulator::B => r.b,
    }
}

/// The big-endian word at `address` and the address after it, wrapping at
/// 64 KiB.
pub open spec fn word_at(s: CpuState, address: u16) -> u16 {
    (s.mem[address] * 256 + s.mem[((address + 1) % 65536) as u16]) as u16
}

/// `v` read as a two's complement word.
pub open spec fn as_signed16(v: u16) -> int {
    if v < 0x8000 {
        v as int
    } else {
        v - 0x10000
    }
}

/// Whether `mode` gives a byte operand in the operand bytes: immediate,
/// direct, extended or indexed.
pub open spec fn byte_operand_mode(mode: AddrMode) -> bool {
    mode == AddrMode::Imm || mode == AddrMode::Dir || mode == AddrMode::Ext || mode == AddrMode::Idx
}

/// The byte operand of an instruction in `mode` whose operand bytes start
/// at PC: in immediate mode the byte at PC itself; in direct mode the byte
/// at the address that the byte at PC names; in extended mode the byte at
/// the address that the word at PC names; in indexed mode the byte at IX
/// plus the byte at PC, wrapping at 64 KiB.
pub open spec fn operand_byte(s: CpuState, mode: AddrMode) -> u8 {
    let pc = s.reg.pc;
    if mode == AddrMode::Dir {
        s.mem[s.mem[pc] as u16]
    } else if mode == AddrMode::Ext {
        s.mem[word_at(s, pc)]
    } else if mode == AddrMode::Idx {
        s.mem[((s.reg.ix + s.mem[pc]) % 65536) as u16]
    } else {
        s.mem[pc]
    }
}

/// The number of operand bytes after the opcode: two in extended mode,
/// else one.
pub open spec fn operand_bytes(mode: AddrMode) -> int {
    if mode == AddrMode::Ext {
        2
    } else {
        1
    }
}

proof fn lemma_operand_byte(s: CpuState, e: OpcodeEntry)
    requires
        byte_operand_mode(e.addr_mode),
    ensures
        alu_operand(s, e) == operand_byte(s, e.addr_mode),
        advanced(s, e).reg.pc == ((s.reg.pc + operand_bytes(e.addr_mode)) % 65536) as u16,
{
    reveal(operand);
    assert(word_at(s, s.reg.pc) == s.read16(s.reg.pc));
}

/// Where a branch at `s` lands: PC moves past the displacement byte it
/// points at, and then, when `taken`, by that byte read as a signed number,
/// wrapping at 64 KiB. Nothing else changes.
pub open spec fn branched(s: CpuState, taken: bool) -> CpuState {
    let d = as_signed(s.mem[s.reg.pc]);
    let next = if taken {
        s.reg.pc + 1 + d
    } else {
        s.reg.pc + 1
    };
    CpuState { reg: Registers { pc: (next % 65536) as u16, ..s.reg }, ..s }
}

proof fn lemma_branch_arithmetic(s: CpuState, taken: bool)
    ensures
        branch_effect(s, taken) == branched(s, taken),
{
    let pc = s.reg.pc as int;
    let d = as_signed(s.mem[s.reg.pc]);
    assert(signed8(s.mem[s.reg.pc]) == d);
    let next = wrap16(pc + 1);
    assert(next == (if pc + 1 == 65536 { 0 } else { pc + 1 }));
    assert(wrap16(next + d) == ((pc + 1 + d) % 65536) as u16);
}

/// Each branch instruction moves PC past its displacement, and on by the
/// displacement exactly when its condition on the flags holds: always for
/// BRA; C and Z both clear for BHI, one of them set for BLS; C clear for
/// BCC, set for BCS; Z clear for BNE, set for BEQ; V clear for BVC, set
/// for BVS; N clear for BPL, set for BMI; N equal to V for BGE, unequal for
/// BLT; Z clear and N equal to V for BGT, Z set or N unequal to V for BLE.
/// It changes nothing else.
pub proof fn branch_conditions(s: CpuState, e: OpcodeEntry)
    ensures
        ({
            let t = instruction_effect(s, e);
            let f = s.status;
            &&& e.instruction == Mnemonic::Bra ==> t == branched(s, true)
            &&& e.instruction == Mnemonic::Bhi ==> t == branched(s, !f.c && !f.z)
            &&& e.instruction == Mnemonic::Bls ==> t == branched(s, f.c || f.z)
            &&& e.instruction == Mnemonic::Bcc ==> t == branched(s, !f.c)
            &&& e.instruction == Mnemonic::Bcs ==> t == branched(s, f.c)
            &&& e.instruction == Mnemonic::Bne ==> t == branched(s, !f.z)
            &&& e.instruction == Mnemonic::Beq ==> t == branched(s, f.z)
            &&& e.instruction == Mnemonic::Bvc ==> t == branched(s, !f.v)
            &&& e.instruction == Mnemonic::Bvs ==> t == branched(s, f.v)
            &&& e.instruction == Mnemonic::Bpl ==> t == branched(s, !f.n)
            &&& e.instruction == Mnemonic::Bmi ==> t == branched(s, f.n)
            &&& e.instruction == Mnemonic::Bge ==> t == branched(s, f.n == f.v)
            &&& e.instruction == Mnemonic::Blt ==> t == branched(s, f.n != f.v)
            &&& e.instruction == Mnemonic::Bgt ==> t == branched(s, !f.z && f.n == f.v)
            &&& e.instruction == Mnemonic::Ble ==> t == branched(s, f.z || f.n != f.v)
        }),
{
    if branch_instruction(e.instruction) {
        lemma_branch_arithmetic(s, branch_taken(e.instruction, s.status));
    }
}

/// The registers with accumulator `k` set to `v`.
pub open spec fn with_acc_of(r: Registers, k: Accumulator, v: u8) -> Registers {
    match k {
        Accumulator::A => Registers { a: v, ..r },
        Accumulator::B => Registers { b: v, ..r },
    }
}

/// `s` with PC moved on by `len` bytes, accumulator `k` set to `r` and the
/// flags set to `f`; nothing else changed.
pub open spec fn acc_updated(
    s: CpuState,
    len: int,
    k: Accumulator,
    r: u8,
    f: StatusFlags,
) -> CpuState {
    CpuState {
        reg: with_acc_of(Registers { pc: ((s.reg.pc + len) % 65536) as u16, ..s.reg }, k, r),
        status: f,
        ..s
    }
}

/// Whether `x - y`, both read as signed bytes, leaves the signed byte range.
pub open spec fn signed_overflow(x: u8, y: u8, borrow: int) -> bool {
    as_signed(x) - as_signed(y) - borrow > 127 || as_signed(x) - as_signed(y) - borrow < -128
}

/// ADD leaves in the accumulator the sum of it and the byte operand modulo
/// 256, whatever the carry flag held: C tells whether the sum left a byte,
/// N and Z come from the result, and no other flag or register changes but
/// PC, which moves past the operand bytes.
pub proof fn addition(s: CpuState, e: OpcodeEntry, k: Accumulator)
    requires
        e.instruction == Mnemonic::Add,
        byte_operand_mode(e.addr_mode),
        e.acc == Some(k),
    ensures
        ({
            let sum = acc_of(s.reg, k) + operand_byte(s, e.addr_mode);
            let r = (sum % 256) as u8;
            instruction_effect(s, e) == acc_updated(
                s,
                operand_bytes(e.addr_mode),
                k,
                r,
                StatusFlags { n: r >= 128, z: r == 0, c: sum > 255, ..s.status },
            )
        }),
{
    lemma_operand_byte(s, e);
}

/// ADC adds the byte operand and the carry flag: the accumulator takes
/// the sum modulo 256, C tells whether the sum left a
/// byte, N and Z come from the result.
pub proof fn addition_with_carry(s: CpuState, e: OpcodeEntry, k: Accumulator)
    requires
        e.instruction == Mnemonic::Adc,
        byte_operand_mode(e.addr_mode),
        e.acc == Some(k),
    ensures
        ({
            let sum = acc_of(s.reg, k) + operand_byte(s, e.addr_mode) + if s.status.c {
                1int
            } else {
                0int
            };
            let r = (sum % 256) as u8;
            instruction_effect(s, e) == acc_updated(
                s,
                operand_bytes(e.addr_mode),
                k,
                r,
                StatusFlags { n: r >= 128, z: r == 0, c: sum > 255, ..s.status },
            )
        }),
{
    lemma_operand_byte(s, e);
}

/// SUB leaves the accumulator less the byte operand modulo 256, whatever
/// the carry flag held: C is set when the operand exceeds the accumulator, V
/// when the signed difference leaves the signed byte range, N and Z come
/// from the result.
pub proof fn subtraction(s: CpuState, e: OpcodeEntry, k: Accumulator)
    requires
        e.instruction == Mnemonic::Sub,
        byte_operand_mode(e.addr_mode),
        e.acc == Some(k),
    ensures
        ({
            let x = acc_of(s.reg, k);
            let m = operand_byte(s, e.addr_mode);
            let r = ((x - m) % 256) as u8;
            instruction_effect(s, e) == acc_updated(
                s,
                operand_bytes(e.addr_mode),
                k,
                r,
                StatusFlags {
                    n: r >= 128,
                    z: r == 0,
                    c: x < m,
                    v: signed_overflow(x, m, 0),
                    ..s.status
                },
            )
        }),
{
    lemma_operand_byte(s, e);
}

/// SBC subtracts the byte operand and the carry flag: C is set when the
/// two exceed the accumulator, V when the signed difference
/// leaves the signed byte range.
pub proof fn subtraction_with_carry(s: CpuState, e: OpcodeEntry, k: Accumulator)
    requires
        e.instruction == Mnemonic::Sbc,
        byte_operand_mode(e.addr_mode),
        e.acc == Some(k),
    ensures
        ({
            let x = acc_of(s.reg, k);
            let m = operand_byte(s, e.addr_mode);
            let b: int = if s.status.c {
                1
            } else {
                0
            };
            let r = ((x - m - b) % 256) as u8;
            instruction_effect(s, e) == acc_updated(
                s,
                operand_bytes(e.addr_mode),
                k,
                r,
                StatusFlags {
                    n: r >= 128,
                    z: r == 0,
                    c: x < m + b,
                    v: signed_overflow(x, m, b),
                    ..s.status
                },
            )
        }),
{
    lemma_operand_byte(s, e);
}

/// CMP sets the flags as SUB would and keeps the accumulator.
pub proof fn comparison(s: CpuState, e: OpcodeEntry, k: Accumulator)
    requires
        e.instruction == Mnemonic::Cmp,
        byte_operand_mode(e.addr_mode),
        e.acc == Some(k),
    ensures
        ({
            let x = acc_of(s.reg, k);
            let m = operand_byte(s, e.addr_mode);
            let r = ((x - m) % 256) as u8;
            instruction_effect(s, e) == acc_updated(
                s,
                operand_bytes(e.addr_mode),
                k,
                x,
                StatusFlags {
                    n: r >= 128,
                    z: r == 0,
                    c: x < m,
                    v: signed_overflow(x, m, 0),
                    ..s.status
                },
            )
        }),
{
    lemma_operand_byte(s, e);
}

/// The flags that comparing `x` with `m` leaves order the two: Z tells
/// them equal, and N differing from V tells `x` below `m` as signed bytes.
proof fn lemma_compare_orders(x: u8, m: u8)
    ensures
        ({
            let r = ((x - m) % 256) as u8;
            let n = r >= 128;
            let v = signed_overflow(x, m, 0);
            &&& (r == 0) == (x == m)
            &&& (n != v) == (as_signed(x) < as_signed(m))
        }),
{
    let d = as_signed(x) - as_signed(m);
    let r = ((x - m) % 256) as u8;
    assert((x - m) % 256 == (d + 512) % 256);
    if d < 0 {
        assert(r == d + 256);
    } else {
        assert(r == d);
    }
}

/// After CMP of accumulator `k` with a byte operand, a conditional branch
/// branches exactly when the comparison that it names holds of the
/// accumulator and the operand: BGT, BGE, BLT and BLE compare them as signed
/// bytes, BHI, BLS, BCC and BCS as unsigned bytes, BEQ and BNE test them
/// equal. So after comparing two equal values BGT does not branch.
pub proof fn compare_then_branch(s: CpuState, c: OpcodeEntry, k: Accumulator, br: OpcodeEntry)
    requires
        c.instruction == Mnemonic::Cmp,
        byte_operand_mode(c.addr_mode),
        c.acc == Some(k),
    ensures
        ({
            let x = acc_of(s.reg, k);
            let m = operand_byte(s, c.addr_mode);
            let u = instruction_effect(s, c);
            let t = instruction_effect(u, br);
            &&& br.instruction == Mnemonic::Bgt ==> t == branched(u, as_signed(x) > as_signed(m))
            &&& br.instruction == Mnemonic::Bge ==> t == branched(u, as_signed(x) >= as_signed(m))
            &&& br.instruction == Mnemonic::Blt ==> t == branched(u, as_signed(x) < as_signed(m))
            &&& br.instruction == Mnemonic::Ble ==> t == branched(u, as_signed(x) <= as_signed(m))
            &&& br.instruction == Mnemonic::Bhi ==> t == branched(u, x > m)
            &&& br.instruction == Mnemonic::Bls ==> t == branched(u, x <= m)
            &&& br.instruction == Mnemonic::Bcc ==> t == branched(u, x >= m)
            &&& br.instruction == Mnemonic::Bcs ==> t == branched(u, x < m)
            &&& br.instruction == Mnemonic::Beq ==> t == branched(u, x == m)
            &&& br.instruction == Mnemonic::Bne ==> t == branched(u, x != m)
        }),
{
    comparison(s, c, k);
    lemma_compare_orders(acc_of(s.reg, k), operand_byte(s, c.addr_mode));
    branch_conditions(instruction_effect(s, c), br);
}

proof fn lemma_rotate_left(s: CpuState, e: OpcodeEntry, k: Accumulator)
    requires
        e.instruction == Mnemonic::Rol,
        e.addr_mode == AddrMode::Acc,
        e.acc == Some(k),
    ensures
        ({
            let v = acc_of(s.reg, k);
            let c: int = if s.status.c {
                1
            } else {
                0
            };
            let r = ((2 * v + c) % 256) as u8;
            instruction_effect(s, e) == acc_updated(
                s,
                0,
                k,
                r,
                StatusFlags {
                    n: r >= 128,
                    z: r == 0,
                    c: v >= 128,
                    v: (r >= 128) != (v >= 128),
                    ..s.status
                },
            )
        }),
{
    let v = acc_of(s.reg, k);
    assert(rol_effect(s, e) == instruction_effect(s, e));
    let w = (2 * v + if s.status.c { 1int } else { 0int }) as u16;
    assert(w == 2 * v + if s.status.c { 1int } else { 0int });
    assert((w > 255) == (v >= 128));
}

proof fn lemma_shift_left(s: CpuState, e: OpcodeEntry, k: Accumulator)
    requires
        e.instruction == Mnemonic::Asl,
        e.addr_mode == AddrMode::Acc,
        e.acc == Some(k),
    ensures
        ({
            let v = acc_of(s.reg, k);
            let r = ((2 * v) % 256) as u8;
            instruction_effect(s, e) == acc_updated(
                s,
                0,
                k,
                r,
                StatusFlags {
                    n: r >= 128,
                    z: r == 0,
                    c: v >= 128,
                    v: (r >= 128) != (v >= 128),
                    ..s.status
                },
            )
        }),
{
    let v = acc_of(s.reg, k);
    assert(asl_effect(s, e) == instruction_effect(s, e));
    let w = (2 * v) as u16;
    assert(w == 2 * v);
    assert((w > 255) == (v >= 128));
}

proof fn lemma_shift_right(s: CpuState, e: OpcodeEntry, k: Accumulator)
    requires
        e.addr_mode == AddrMode::Acc,
        e.acc == Some(k),
    ensures
        ({
            let v = acc_of(s.reg, k);
            let c: int = if s.status.c {
                1
            } else {
                0
            };
            let t = instruction_effect(s, e);
            let f = s.status;
            &&& e.instruction == Mnemonic::Lsr ==> {
                let r = v / 2;
                t == acc_updated(
                    s,
                    0,
                    k,
                    r,
                    StatusFlags { n: false, z: r == 0, c: v % 2 == 1, v: v % 2 == 1, ..f },
                )
            }
            &&& e.instruction == Mnemonic::Ror ==> {
                let r = (v / 2 + 128 * c) as u8;
                t == acc_updated(
                    s,
                    0,
                    k,
                    r,
                    StatusFlags {
                        n: r >= 128,
                        z: r == 0,
                        c: v % 2 == 1,
                        v: (r >= 128) != (v % 2 == 1),
                        ..f
                    },
                )
            }
            &&& e.instruction == Mnemonic::Asr ==> {
                let r = (v / 2 + 128) as u8;
                t == acc_updated(
                    s,
                    0,
                    k,
                    r,
                    StatusFlags { n: true, z: false, c: v % 2 == 1, v: v % 2 == 0, ..f },
                )
            }
        }),
{
}

/// The shifts and rotates on accumulator `k`: ASL doubles it modulo 256,
/// ROL doubles it and adds the old carry in bit 0, modulo 256, LSR halves
/// it, ROR halves it and puts the old carry in bit 7, ASR halves it and
/// sets bit 7. The bit shifted out becomes the carry; N and Z come from the result, V is N
/// differing from the new carry, except after LSR, where N is clear and V
/// is the new carry. PC does not move.
pub proof fn shifts_on_accumulator(s: CpuState, e: OpcodeEntry, k: Accumulator)
    requires
        e.addr_mode == AddrMode::Acc,
        e.acc == Some(k),
    ensures
        ({
            let v = acc_of(s.reg, k);
            let c: int = if s.status.c {
                1
            } else {
                0
            };
            let t = instruction_effect(s, e);
            let f = s.status;
            &&& e.instruction == Mnemonic::Asl ==> {
                let r = ((2 * v) % 256) as u8;
                t == acc_updated(
                    s,
                    0,
                    k,
                    r,
                    StatusFlags {
                        n: r >= 128,
                        z: r == 0,
                        c: v >= 128,
                        v: (r >= 128) != (v >= 128),
                        ..f
                    },
                )
            }
            &&& e.instruction == Mnemonic::Rol ==> {
                let r = ((2 * v + c) % 256) as u8;
                t == acc_updated(
                    s,
                    0,
                    k,
                    r,
                    StatusFlags {
                        n: r >= 128,
                        z: r == 0,
                        c: v >= 128,
                        v: (r >= 128) != (v >= 128),
                        ..f
                    },
                )
            }
            &&& e.instruction == Mnemonic::Lsr ==> {
                let r = v / 2;
                t == acc_updated(
                    s,
                    0,
                    k,
                    r,
                    StatusFlags { n: false, z: r == 0, c: v % 2 == 1, v: v % 2 == 1, ..f },
                )
            }
            &&& e.instruction == Mnemonic::Ror ==> {
                let r = (v / 2 + 128 * c) as u8;
                t == acc_updated(
                    s,
                    0,
                    k,
                    r,
                    StatusFlags {
                        n: r >= 128,
                        z: r == 0,
                        c: v % 2 == 1,
                        v: (r >= 128) != (v % 2 == 1),
                        ..f
                    },
                )
            }
            &&& e.instruction == Mnemonic::Asr ==> {
                let r = (v / 2 + 128) as u8;
                t == acc_updated(
                    s,
                    0,
                    k,
                    r,
                    StatusFlags { n: true, z: false, c: v % 2 == 1, v: v % 2 == 0, ..f },
                )
            }
        }),
{
    if e.instruction == Mnemonic::Rol {
        lemma_rotate_left(s, e, k);
    } else if e.instruction == Mnemonic::Asl {
        lemma_shift_left(s, e, k);
    } else {
        lemma_shift_right(s, e, k);
    }
}

proof fn lemma_negate(s: CpuState, e: OpcodeEntry, k: Accumulator)
    requires
        e.instruction == Mnemonic::Neg,
        e.addr_mode == AddrMode::Acc,
        e.acc == Some(k),
    ensures
        ({
            let v = acc_of(s.reg, k);
            let r = ((256 - v) % 256) as u8;
            instruction_effect(s, e) == acc_updated(
                s,
                0,
                k,
                r,
                StatusFlags { n: r >= 128, z: r == 0, v: v == 128, c: v != 0, ..s.status },
            )
        }),
{
}

proof fn lemma_complement(s: CpuState, e: OpcodeEntry, k: Accumulator)
    requires
        e.instruction == Mnemonic::Com,
        e.addr_mode == AddrMode::Acc,
        e.acc == Some(k),
    ensures
        ({
            let v = acc_of(s.reg, k);
            let r = (255 - v) as u8;
            instruction_effect(s, e) == acc_updated(
                s,
                0,
                k,
                r,
                StatusFlags { n: r >= 128, z: r == 0, v: false, c: true, ..s.status },
            )
        }),
{
}

proof fn lemma_increment(s: CpuState, e: OpcodeEntry, k: Accumulator)
    requires
        e.instruction == Mnemonic::Inc,
        e.addr_mode == AddrMode::Acc,
        e.acc == Some(k),
    ensures
        ({
            let v = acc_of(s.reg, k);
            let r = ((v + 1) % 256) as u8;
            instruction_effect(s, e) == acc_updated(
                s,
                0,
                k,
                r,
                StatusFlags { n: r >= 128, z: r == 0, v: v == 127, c: r == 0, ..s.status },
            )
        }),
{
}

proof fn lemma_decrement(s: CpuState, e: OpcodeEntry, k: Accumulator)
    requires
        e.instruction == Mnemonic::Dec,
        e.addr_mode == AddrMode::Acc,
        e.acc == Some(k),
    ensures
        ({
            let v = acc_of(s.reg, k);
            let r = ((v + 255) % 256) as u8;
            instruction_effect(s, e) == acc_updated(
                s,
                0,
                k,
                r,
                StatusFlags { n: r >= 128, z: r == 0, v: v == 128, ..s.status },
            )
        }),
{
}

/// The arithmetic on accumulator `k`: NEG takes it from zero, COM from 255,
/// INC adds one and DEC takes one, each modulo 256. N and Z come from the
/// result; NEG sets V for 128 alone and C for all but zero, COM clears V
/// and sets C, INC sets V for 127 alone and C when the result is zero, DEC
/// sets V for 128 alone and keeps C. PC does not move.
pub proof fn arithmetic_on_accumulator(s: CpuState, e: OpcodeEntry, k: Accumulator)
    requires
        e.addr_mode == AddrMode::Acc,
        e.acc == Some(k),
    ensures
        ({
            let v = acc_of(s.reg, k);
            let t = instruction_effect(s, e);
            let f = s.status;
            &&& e.instruction == Mnemonic::Neg ==> {
                let r = ((256 - v) % 256) as u8;
                t == acc_updated(
                    s,
                    0,
                    k,
                    r,
                    StatusFlags { n: r >= 128, z: r == 0, v: v == 128, c: v != 0, ..f },
                )
            }
            &&& e.instruction == Mnemonic::Com ==> {
                let r = (255 - v) as u8;
                t == acc_updated(
                    s,
                    0,
                    k,
                    r,
                    StatusFlags { n: r >= 128, z: r == 0, v: false, c: true, ..f },
                )
            }
            &&& e.instruction == Mnemonic::Inc ==> {
                let r = ((v + 1) % 256) as u8;
                t == acc_updated(
                    s,
                    0,
                    k,
                    r,
                    StatusFlags { n: r >= 128, z: r == 0, v: v == 127, c: r == 0, ..f },
                )
            }
            &&& e.instruction == Mnemonic::Dec ==> {
                let r = ((v + 255) % 256) as u8;
                t == acc_updated(
                    s,
                    0,
                    k,
                    r,
                    StatusFlags { n: r >= 128, z: r == 0, v: v == 128, ..f },
                )
            }
        }),
{
    if e.instruction == Mnemonic::Neg {
        lemma_negate(s, e, k);
    } else if e.instruction == Mnemonic::Com {
        lemma_complement(s, e, k);
    } else if e.instruction == Mnemonic::Inc {
        lemma_increment(s, e, k);
    } else if e.instruction == Mnemonic::Dec {
        lemma_decrement(s, e, k);
    }
}

/// TST on accumulator `k` sets N and Z from it and clears V and C; CLR
/// clears it, sets Z and clears N, V and C. Neither moves PC.
pub proof fn test_and_clear_accumulator(s: CpuState, e: OpcodeEntry, k: Accumulator)
    requires
        e.addr_mode == AddrMode::Acc,
        e.acc == Some(k),
    ensures
        ({
            let v = acc_of(s.reg, k);
            let t = instruction_effect(s, e);
            let f = s.status;
            &&& e.instruction == Mnemonic::Tst ==> t == acc_updated(
                s,
                0,
                k,
                v,
                StatusFlags { n: v >= 128, z: v == 0, v: false, c: false, ..f },
            )
            &&& e.instruction == Mnemonic::Clr ==> t == acc_updated(
                s,
                0,
                k,
                0,
                StatusFlags { n: false, z: true, v: false, c: false, ..f },
            )
        }),
{
}

proof fn lemma_and(s: CpuState, e: OpcodeEntry, k: Accumulator)
    requires
        e.instruction == Mnemonic::And,
        byte_operand_mode(e.addr_mode),
        e.acc == Some(k),
    ensures
        ({
            let x = acc_of(s.reg, k);
            let m = operand_byte(s, e.addr_mode);
            let r = x & m;
            instruction_effect(s, e) == acc_updated(
                s,
                operand_bytes(e.addr_mode),
                k,
                r,
                StatusFlags {
                    n: r >= 128,
                    z: r == 0,
                    v: false,
                    ..s.status
                },
            )
        }),
{
    lemma_operand_byte(s, e);
}

proof fn lemma_or(s: CpuState, e: OpcodeEntry, k: Accumulator)
    requires
        e.instruction == Mnemonic::Ora,
        byte_operand_mode(e.addr_mode),
        e.acc == Some(k),
    ensures
        ({
            let x = acc_of(s.reg, k);
            let m = operand_byte(s, e.addr_mode);
            let r = x | m;
            instruction_effect(s, e) == acc_updated(
                s,
                operand_bytes(e.addr_mode),
                k,
                r,
                StatusFlags {
                    n: r >= 128,
                    z: r == 0,
                    ..s.status
                },
            )
        }),
{
    lemma_operand_byte(s, e);
}

proof fn lemma_xor(s: CpuState, e: OpcodeEntry, k: Accumulator)
    requires
        e.instruction == Mnemonic::Eor,
        byte_operand_mode(e.addr_mode),
        e.acc == Some(k),
    ensures
        ({
            let x = acc_of(s.reg, k);
            let m = operand_byte(s, e.addr_mode);
            let r = x ^ m;
            instruction_effect(s, e) == acc_updated(
                s,
                operand_bytes(e.addr_mode),
                k,
                r,
                StatusFlags {
                    n: r >= 128,
                    z: r == 0,
                    v: false,
                    ..s.status
                },
            )
        }),
{
    lemma_operand_byte(s, e);
}

proof fn lemma_bit_test(s: CpuState, e: OpcodeEntry, k: Accumulator)
    requires
        e.instruction == Mnemonic::Bit,
        byte_operand_mode(e.addr_mode),
        e.acc == Some(k),
    ensures
        ({
            let x = acc_of(s.reg, k);
            let m = operand_byte(s, e.addr_mode);
            instruction_effect(s, e) == acc_updated(
                s,
                operand_bytes(e.addr_mode),
                k,
                x,
                StatusFlags {
                    n: false,
                    z: x & m == 0,
                    v: false,
                    ..s.status
                },
            )
        }),
{
    lemma_operand_byte(s, e);
}


/// The logical instructions on accumulator `k` and a byte operand: AND,
/// ORA and EOR leave the bitwise and, or and exclusive or of the two; BIT
/// keeps the accumulator and sets Z when the and of the two is zero. N and
/// Z come from the result, N is cleared by BIT; V is cleared by all but
/// ORA, which keeps it. PC moves past the operand bytes.
pub proof fn logic_operations(s: CpuState, e: OpcodeEntry, k: Accumulator)
    requires
        byte_operand_mode(e.addr_mode),
        e.acc == Some(k),
    ensures
        ({
            let x = acc_of(s.reg, k);
            let m = operand_byte(s, e.addr_mode);
            let t = instruction_effect(s, e);
            &&& e.instruction == Mnemonic::And ==> {
                let r = x & m;
                t == acc_updated(
                    s,
                    operand_bytes(e.addr_mode),
                    k,
                    r,
                    StatusFlags {
                        n: r >= 128,
                        z: r == 0,
                        v: false,
                        ..s.status
                    },
                )
            }
            &&& e.instruction == Mnemonic::Ora ==> {
                let r = x | m;
                t == acc_updated(
                    s,
                    operand_bytes(e.addr_mode),
                    k,
                    r,
                    StatusFlags {
                        n: r >= 128,
                        z: r == 0,
                        ..s.status
                    },
                )
            }
            &&& e.instruction == Mnemonic::Eor ==> {
                let r = x ^ m;
                t == acc_updated(
                    s,
                    operand_bytes(e.addr_mode),
                    k,
                    r,
                    StatusFlags {
                        n: r >= 128,
                        z: r == 0,
                        v: false,
                        ..s.status
                    },
                )
            }
            &&& e.instruction == Mnemonic::Bit ==> t == acc_updated(
                s,
                operand_bytes(e.addr_mode),
                k,
                x,
                StatusFlags {
                    n: false,
                    z: x & m == 0,
                    v: false,
                    ..s.status
                },
            )
        }),
{
    if e.instruction == Mnemonic::And {
        lemma_and(s, e, k);
    } else if e.instruction == Mnemonic::Ora {
        lemma_or(s, e, k);
    } else if e.instruction == Mnemonic::Eor {
        lemma_xor(s, e, k);
    } else if e.instruction == Mnemonic::Bit {
        lemma_bit_test(s, e, k);
    }
}

/// The accumulator-to-accumulator arithmetic: ABA adds B to A and SBA
/// takes B from A, modulo 256, with the flags of ADD and SUB; CBA sets the
/// flags of SUB and keeps A. B and PC stay.
pub proof fn accumulator_arithmetic(s: CpuState, e: OpcodeEntry)
    ensures
        ({
            let a = s.reg.a;
            let b = s.reg.b;
            let d = ((a - b) % 256) as u8;
            let t = instruction_effect(s, e);
            &&& e.instruction == Mnemonic::Aba ==> {
                let r = ((a + b) % 256) as u8;
                t == acc_updated(
                    s,
                    0,
                    Accumulator::A,
                    r,
                    StatusFlags { n: r >= 128, z: r == 0, c: a + b > 255, ..s.status },
                )
            }
            &&& e.instruction == Mnemonic::Sba ==> t == acc_updated(
                s,
                0,
                Accumulator::A,
                d,
                StatusFlags {
                    n: d >= 128,
                    z: d == 0,
                    c: a < b,
                    v: signed_overflow(a, b, 0),
                    ..s.status
                },
            )
            &&& e.instruction == Mnemonic::Cba ==> t == acc_updated(
                s,
                0,
                Accumulator::A,
                a,
                StatusFlags {
                    n: d >= 128,
                    z: d == 0,
                    c: a < b,
                    v: signed_overflow(a, b, 0),
                    ..s.status
                },
            )
        }),
{
}

/// The index register and stack pointer instructions with an immediate
/// word: LDX loads IX and sets N and Z from it, LDS loads SP; both clear V.
/// CPX sets N and Z from IX minus the word modulo 64 KiB and V when the
/// signed difference leaves the signed word range. STX and STS write
/// nothing: they set N and Z from IX or SP and clear V. PC moves past the
/// word.
pub proof fn index_immediate(s: CpuState, e: OpcodeEntry)
    requires
        e.addr_mode == AddrMode::Imm16,
    ensures
        ({
            let m = word_at(s, s.reg.pc);
            let pc = ((s.reg.pc + 2) % 65536) as u16;
            let t = instruction_effect(s, e);
            let f = s.status;
            &&& e.instruction == Mnemonic::Ldx ==> t == CpuState {
                reg: Registers { ix: m, pc, ..s.reg },
                status: StatusFlags { n: m >= 0x8000, z: m == 0, v: false, ..f },
                ..s
            }
            &&& e.instruction == Mnemonic::Lds ==> t == CpuState {
                reg: Registers { sp: m, pc, ..s.reg },
                status: StatusFlags { v: false, ..f },
                ..s
            }
            &&& e.instruction == Mnemonic::Cpx ==> {
                let r = ((s.reg.ix - m) % 65536) as u16;
                let d = as_signed16(s.reg.ix) - as_signed16(m);
                t == CpuState {
                    reg: Registers { pc, ..s.reg },
                    status: StatusFlags {
                        n: r >= 0x8000,
                        z: r == 0,
                        v: d > 0x7FFF || d < -0x8000,
                        ..f
                    },
                    ..s
                }
            }
            &&& e.instruction == Mnemonic::Stx ==> t == CpuState {
                reg: Registers { pc, ..s.reg },
                status: StatusFlags { n: s.reg.ix >= 0x8000, z: s.reg.ix == 0, v: false, ..f },
                ..s
            }
            &&& e.instruction == Mnemonic::Sts ==> t == CpuState {
                reg: Registers { pc, ..s.reg },
                status: StatusFlags { n: s.reg.sp >= 0x8000, z: s.reg.sp == 0, v: false, ..f },
                ..s
            }
        }),
{
    reveal(operand);
}

/// `s` with PC set to `pc`, the flags to `f`, and `value` written at
/// `address` where the bus keeps writes; nothing else changed.
pub open spec fn byte_stored(
    s: CpuState,
    pc: u16,
    f: StatusFlags,
    address: u16,
    value: u8,
) -> CpuState {
    CpuState {
        reg: Registers { pc, ..s.reg },
        status: f,
        mem: if s.stored.contains(address) {
            s.mem.insert(address, value)
        } else {
            s.mem
        },
        ..s
    }
}

/// LDA into accumulator `k` loads the byte at PC in immediate mode, and
/// else the byte at the address that its operand names: the byte at PC in
/// direct mode, the word at PC in
/// extended mode, and in indexed mode IX plus the byte at PC, wrapping at
/// 64 KiB. N and Z come from the byte, V is cleared, and PC moves past the
/// operand.
pub proof fn load_addressing(s: CpuState, e: OpcodeEntry, k: Accumulator)
    requires
        e.instruction == Mnemonic::Lda,
        e.acc == Some(k),
    ensures
        ({
            let pc = s.reg.pc;
            let t = instruction_effect(s, e);
            let loaded = |m: u8, len: int|
                acc_updated(s, len, k, m, StatusFlags {
                    n: m >= 128,
                    z: m == 0,
                    v: false,
                    ..s.status
                });
            &&& e.addr_mode == AddrMode::Imm ==> t == loaded(s.mem[pc], 1)
            &&& e.addr_mode == AddrMode::Dir ==> t == loaded(s.mem[s.mem[pc] as u16], 1)
            &&& e.addr_mode == AddrMode::Ext ==> t == loaded(s.mem[word_at(s, pc)], 2)
            &&& e.addr_mode == AddrMode::Idx ==> t == loaded(
                s.mem[((s.reg.ix + s.mem[pc]) % 65536) as u16],
                1,
            )
        }),
{
    reveal(operand);
}

/// STA from accumulator `k` writes it at the address that its operand
/// names: the byte at PC in immediate and in direct mode, the word at PC in extended mode,
/// and in indexed mode IX plus the byte at PC, wrapping at 64 KiB, the
/// address an indexed load reads. N and Z come from the accumulator, V is
/// cleared, and PC moves past the operand.
pub proof fn store_addressing(s: CpuState, e: OpcodeEntry, k: Accumulator)
    requires
        e.instruction == Mnemonic::Sta,
        e.acc == Some(k),
    ensures
        ({
            let pc = s.reg.pc;
            let x = acc_of(s.reg, k);
            let f = StatusFlags { n: x >= 128, z: x == 0, v: false, ..s.status };
            let t = instruction_effect(s, e);
            &&& e.addr_mode == AddrMode::Imm ==> t == byte_stored(
                s,
                ((pc + 1) % 65536) as u16,
                f,
                s.mem[pc] as u16,
                x,
            )
            &&& e.addr_mode == AddrMode::Dir ==> t == byte_stored(
                s,
                ((pc + 1) % 65536) as u16,
                f,
                s.mem[pc] as u16,
                x,
            )
            &&& e.addr_mode == AddrMode::Ext ==> t == byte_stored(
                s,
                ((pc + 2) % 65536) as u16,
                f,
                word_at(s, pc),
                x,
            )
            &&& e.addr_mode == AddrMode::Idx ==> t == byte_stored(
                s,
                ((pc + 1) % 65536) as u16,
                f,
                ((s.reg.ix + s.mem[pc]) % 65536) as u16,
                x,
            )
        }),
{
}

/// What LDA reads back of what STA wrote: after a store from accumulator
/// `k` in direct, extended or indexed mode, a load into accumulator `j` in
/// the same mode, from the same operand bytes and with the same IX, gives
/// back the stored byte, where the bus keeps writes at the address and the
/// store left the operand bytes as they were.
pub proof fn store_then_load(
    s: CpuState,
    st: OpcodeEntry,
    ld: OpcodeEntry,
    k: Accumulator,
    j: Accumulator,
)
    requires
        st.instruction == Mnemonic::Sta,
        st.acc == Some(k),
        ld.instruction == Mnemonic::Lda,
        ld.acc == Some(j),
        ld.addr_mode == st.addr_mode,
        st.addr_mode == AddrMode::Dir || st.addr_mode == AddrMode::Ext || st.addr_mode
            == AddrMode::Idx,
        st.addr_mode == AddrMode::Dir ==> s.stored.contains(s.mem[s.reg.pc] as u16),
        st.addr_mode == AddrMode::Ext ==> s.stored.contains(word_at(s, s.reg.pc)),
        st.addr_mode == AddrMode::Idx ==> s.stored.contains(
            ((s.reg.ix + s.mem[s.reg.pc]) % 65536) as u16,
        ),
        instruction_effect(s, st).mem[s.reg.pc] == s.mem[s.reg.pc],
        instruction_effect(s, st).mem[((s.reg.pc + 1) % 65536) as u16] == s.mem[((s.reg.pc + 1)
            % 65536) as u16],
    ensures
        ({
            let u = instruction_effect(s, st);
            let back = CpuState { reg: Registers { pc: s.reg.pc, ..u.reg }, ..u };
            acc_of(instruction_effect(back, ld).reg, j) == acc_of(s.reg, k)
        }),
{
    let u = instruction_effect(s, st);
    let back = CpuState { reg: Registers { pc: s.reg.pc, ..u.reg }, ..u };
    store_addressing(s, st, k);
    load_addressing(back, ld, j);
    assert(word_at(back, s.reg.pc) == word_at(s, s.reg.pc));
}

/// The instructions on the flags alone: CLV, SEV, CLC, SEC, CLI and SEI
/// clear or set V, C or I; TAP loads the flags from the low six bits of A
/// (C, V, Z, N, I and H from bit 0 up); NOP and DAA change nothing. None
/// moves PC.
pub proof fn flag_operations(s: CpuState, e: OpcodeEntry)
    ensures
        ({
            let t = instruction_effect(s, e);
            let f = s.status;
            let a = s.reg.a;
            &&& e.instruction == Mnemonic::Clv ==> t == CpuState {
                status: StatusFlags { v: false, ..f },
                ..s
            }
            &&& e.instruction == Mnemonic::Sev ==> t == CpuState {
                status: StatusFlags { v: true, ..f },
                ..s
            }
            &&& e.instruction == Mnemonic::Clc ==> t == CpuState {
                status: StatusFlags { c: false, ..f },
                ..s
            }
            &&& e.instruction == Mnemonic::Sec ==> t == CpuState {
                status: StatusFlags { c: true, ..f },
                ..s
            }
            &&& e.instruction == Mnemonic::Cli ==> t == CpuState {
                status: StatusFlags { i: false, ..f },
                ..s
            }
            &&& e.instruction == Mnemonic::Sei ==> t == CpuState {
                status: StatusFlags { i: true, ..f },
                ..s
            }
            &&& e.instruction == Mnemonic::Tap ==> t == CpuState {
                status: StatusFlags {
                    c: a & 1 != 0,
                    v: a & 2 != 0,
                    z: a & 4 != 0,
                    n: a & 8 != 0,
                    i: a & 16 != 0,
                    h: a & 32 != 0,
                },
                ..s
            }
            &&& e.instruction == Mnemonic::Nop ==> t == s
            &&& e.instruction == Mnemonic::Daa ==> t == s
        }),
{
}

/// TPA then TAP leaves the flags as they were, and TPA puts in A the flags
/// with the top two bits set.
pub proof fn flags_through_accumulator(s: CpuState, tpa: OpcodeEntry, tap: OpcodeEntry)
    requires
        tpa.instruction == Mnemonic::Tpa,
        tap.instruction == Mnemonic::Tap,
    ensures
        instruction_effect(instruction_effect(s, tpa), tap).status == s.status,
        instruction_effect(s, tpa).reg.a & 0xC0 == 0xC0,
        instruction_effect(s, tpa) == (CpuState {
            reg: Registers { a: instruction_effect(s, tpa).reg.a, ..s.reg },
            ..s
        }),
{
    flags_byte_round_trip(s.status);
    let f = s.status;
    let (c, v, z, n, i, h) = (f.c, f.v, f.z, f.n, f.i, f.h);
    let b = byte_of_flags(s.status);
    assert(b & 0xC0 == 0xC0) by (bit_vector)
        requires
            b == 0xC0u8 | (if c { 0x01u8 } else { 0u8 }) | (if v { 0x02u8 } else { 0u8 }) | (if z {
                0x04u8
            } else {
                0u8
            }) | (if n { 0x08u8 } else { 0u8 }) | (if i { 0x10u8 } else { 0u8 }) | (if h {
                0x20u8
            } else {
                0u8
            }),
    ;
}

/// The instructions between registers: TAB copies A to B and TBA B to A,
/// NBA leaves in A the and of A and B, each setting N and Z from the value
/// moved and clearing V; INX and DEX move IX by one, wrapping at 64 KiB,
/// and set Z alone, from the new IX; INS and DES move SP by one; TSX loads
/// IX with SP plus one, TXS loads SP with IX less one. None moves PC.
pub proof fn register_operations(s: CpuState, e: OpcodeEntry)
    ensures
        ({
            let t = instruction_effect(s, e);
            let f = s.status;
            let r = s.reg;
            &&& e.instruction == Mnemonic::Tab ==> t == CpuState {
                reg: Registers { b: r.a, ..r },
                status: StatusFlags { n: r.a >= 128, z: r.a == 0, v: false, ..f },
                ..s
            }
            &&& e.instruction == Mnemonic::Tba ==> t == CpuState {
                reg: Registers { a: r.b, ..r },
                status: StatusFlags { n: r.b >= 128, z: r.b == 0, v: false, ..f },
                ..s
            }
            &&& e.instruction == Mnemonic::Nba ==> t == CpuState {
                reg: Registers { a: r.a & r.b, ..r },
                status: StatusFlags { n: r.a & r.b >= 128, z: r.a & r.b == 0, v: false, ..f },
                ..s
            }
            &&& e.instruction == Mnemonic::Inx ==> t == CpuState {
                reg: Registers { ix: ((r.ix + 1) % 65536) as u16, ..r },
                status: StatusFlags { z: r.ix == 0xFFFF, ..f },
                ..s
            }
            &&& e.instruction == Mnemonic::Dex ==> t == CpuState {
                reg: Registers { ix: ((r.ix + 65535) % 65536) as u16, ..r },
                status: StatusFlags { z: r.ix == 1, ..f },
                ..s
            }
            &&& e.instruction == Mnemonic::Ins ==> t == CpuState {
                reg: Registers { sp: ((r.sp + 1) % 65536) as u16, ..r },
                ..s
            }
            &&& e.instruction == Mnemonic::Des ==> t == CpuState {
                reg: Registers { sp: ((r.sp + 65535) % 65536) as u16, ..r },
                ..s
            }
            &&& e.instruction == Mnemonic::Tsx ==> t == CpuState {
                reg: Registers { ix: ((r.sp + 1) % 65536) as u16, ..r },
                ..s
            }
            &&& e.instruction == Mnemonic::Txs ==> t == CpuState {
                reg: Registers { sp: ((r.ix + 65535) % 65536) as u16, ..r },
                ..s
            }
        }),
{
}

/// `s` after pushing the return address `ret`, its low byte at SP and its
/// high byte below, each where the bus keeps writes, with SP moved down by
/// two and PC set to `target`.
pub open spec fn called(s: CpuState, ret: u16, target: u16) -> CpuState {
    let sp = s.reg.sp;
    let below = ((sp + 65535) % 65536) as u16;
    let m1 = if s.stored.contains(sp) {
        s.mem.insert(sp, (ret % 256) as u8)
    } else {
        s.mem
    };
    let m2 = if s.stored.contains(below) {
        m1.insert(below, (ret / 256) as u8)
    } else {
        m1
    };
    CpuState {
        reg: Registers { sp: ((sp + 65534) % 65536) as u16, pc: target, ..s.reg },
        mem: m2,
        ..s
    }
}

proof fn lemma_jump(s: CpuState, e: OpcodeEntry)
    requires
        e.instruction == Mnemonic::Jmp,
    ensures
        ({
            let pc = s.reg.pc;
            let sp = s.reg.sp;
            let ext = word_at(s, pc);
            let idx = ((s.reg.ix + s.mem[pc]) % 65536) as u16;
            let t = instruction_effect(s, e);
            &&& e.instruction == Mnemonic::Jmp && e.addr_mode == AddrMode::Imm16 ==> t == CpuState {
                reg: Registers { pc: ext, ..s.reg },
                ..s
            }
            &&& e.instruction == Mnemonic::Jmp && e.addr_mode == AddrMode::Immx ==> t == CpuState {
                reg: Registers { pc: idx, ..s.reg },
                ..s
            }
        }),
{
    reveal(operand);
}

proof fn lemma_subroutine_call(s: CpuState, e: OpcodeEntry)
    requires
        e.instruction == Mnemonic::Jsr,
    ensures
        ({
            let pc = s.reg.pc;
            let sp = s.reg.sp;
            let ext = word_at(s, pc);
            let idx = ((s.reg.ix + s.mem[pc]) % 65536) as u16;
            let t = instruction_effect(s, e);
            &&& e.instruction == Mnemonic::Jsr && e.addr_mode == AddrMode::Imm16 ==> t == called(
                s,
                ((pc + 2) % 65536) as u16,
                ext,
            )
            &&& e.instruction == Mnemonic::Jsr && e.addr_mode == AddrMode::Immx ==> t == called(
                s,
                ((pc + 1) % 65536) as u16,
                idx,
            )
        }),
{
    reveal(operand);
}

proof fn lemma_branch_call(s: CpuState, e: OpcodeEntry)
    requires
        e.instruction == Mnemonic::Bsr,
    ensures
        ({
            let pc = s.reg.pc;
            let sp = s.reg.sp;
            let ext = word_at(s, pc);
            let idx = ((s.reg.ix + s.mem[pc]) % 65536) as u16;
            let t = instruction_effect(s, e);
            &&& e.instruction == Mnemonic::Bsr ==> t == called(
                s,
                ((pc + 1) % 65536) as u16,
                branched(s, true).reg.pc,
            )
        }),
{
    lemma_branch_arithmetic(s, true);
}

proof fn lemma_return(s: CpuState, e: OpcodeEntry)
    requires
        e.instruction == Mnemonic::Rts,
    ensures
        ({
            let pc = s.reg.pc;
            let sp = s.reg.sp;
            let ext = word_at(s, pc);
            let idx = ((s.reg.ix + s.mem[pc]) % 65536) as u16;
            let t = instruction_effect(s, e);
            &&& e.instruction == Mnemonic::Rts ==> t == CpuState {
                reg: Registers {
                    pc: (s.mem[((sp + 1) % 65536) as u16] * 256
                        + s.mem[((sp + 2) % 65536) as u16]) as u16,
                    sp: ((sp + 2) % 65536) as u16,
                    ..s.reg
                },
                ..s
            }
        }),
{
}

/// The jumps and calls: JMP goes to the word at PC (extended) or to IX
/// plus the byte at PC (indexed); JSR goes to the same places after
/// pushing the address of the next instruction; BSR pushes it and goes as
/// BRA would; RTS pulls the return address, high byte first, from above
/// SP. No flag changes.
pub proof fn jumps_and_calls(s: CpuState, e: OpcodeEntry)
    ensures
        ({
            let pc = s.reg.pc;
            let sp = s.reg.sp;
            let ext = word_at(s, pc);
            let idx = ((s.reg.ix + s.mem[pc]) % 65536) as u16;
            let t = instruction_effect(s, e);
            &&& e.instruction == Mnemonic::Jmp && e.addr_mode == AddrMode::Imm16 ==> t == CpuState {
                reg: Registers { pc: ext, ..s.reg },
                ..s
            }
            &&& e.instruction == Mnemonic::Jmp && e.addr_mode == AddrMode::Immx ==> t == CpuState {
                reg: Registers { pc: idx, ..s.reg },
                ..s
            }
            &&& e.instruction == Mnemonic::Jsr && e.addr_mode == AddrMode::Imm16 ==> t == called(
                s,
                ((pc + 2) % 65536) as u16,
                ext,
            )
            &&& e.instruction == Mnemonic::Jsr && e.addr_mode == AddrMode::Immx ==> t == called(
                s,
                ((pc + 1) % 65536) as u16,
                idx,
            )
            &&& e.instruction == Mnemonic::Bsr ==> t == called(
                s,
                ((pc + 1) % 65536) as u16,
                branched(s, true).reg.pc,
            )
            &&& e.instruction == Mnemonic::Rts ==> t == CpuState {
                reg: Registers {
                    pc: (s.mem[((sp + 1) % 65536) as u16] * 256
                        + s.mem[((sp + 2) % 65536) as u16]) as u16,
                    sp: ((sp + 2) % 65536) as u16,
                    ..s.reg
                },
                ..s
            }
        }),
{
    if e.instruction == Mnemonic::Jmp {
        lemma_jump(s, e);
    } else if e.instruction == Mnemonic::Jsr {
        lemma_subroutine_call(s, e);
    } else if e.instruction == Mnemonic::Bsr {
        lemma_branch_call(s, e);
    } else if e.instruction == Mnemonic::Rts {
        lemma_return(s, e);
    }
}

/// PSH writes accumulator `k` at SP, where the bus keeps writes, and moves
/// SP down by one; PUL moves SP up by one and loads accumulator `k` from
/// there. No flag changes.
pub proof fn push_and_pull(s: CpuState, e: OpcodeEntry, k: Accumulator)
    requires
        e.acc == Some(k),
    ensures
        ({
            let sp = s.reg.sp;
            let up = ((sp + 1) % 65536) as u16;
            let t = instruction_effect(s, e);
            &&& e.instruction == Mnemonic::Psh ==> t == CpuState {
                reg: Registers { sp: ((sp + 65535) % 65536) as u16, ..s.reg },
                mem: if s.stored.contains(sp) {
                    s.mem.insert(sp, acc_of(s.reg, k))
                } else {
                    s.mem
                },
                ..s
            }
            &&& e.instruction == Mnemonic::Pul ==> t == CpuState {
                reg: with_acc_of(Registers { sp: up, ..s.reg }, k, s.mem[up]),
                ..s
            }
        }),
{
}

/// Stacking the registers writes, from SP down and where the bus keeps
/// writes, the low and high bytes of PC, the low and high bytes of IX, A,
/// B and the flags byte, and moves SP down by seven.
pub proof fn stacking_layout(s: CpuState)
    requires
        forall|j: int|
            0 <= j < 7 ==> #[trigger] s.stored.contains(((s.reg.sp + 65536 - j) % 65536) as u16),
    ensures
        ({
            let t = s.saved();
            let at = |j: int| ((s.reg.sp + 65536 - j) % 65536) as u16;
            &&& t.mem[at(0)] == s.reg.pc % 256
            &&& t.mem[at(1)] == s.reg.pc / 256
            &&& t.mem[at(2)] == s.reg.ix % 256
            &&& t.mem[at(3)] == s.reg.ix / 256
            &&& t.mem[at(4)] == s.reg.a
            &&& t.mem[at(5)] == s.reg.b
            &&& t.mem[at(6)] == byte_of_flags(s.status)
            &&& t.reg == Registers { sp: at(7), ..s.reg }
            &&& t.status == s.status
        }),
{
    let at = |j: int| ((s.reg.sp + 65536 - j) % 65536) as u16;
    assert(s.stored.contains(at(0)));
    assert(s.stored.contains(at(1)));
    assert(s.stored.contains(at(2)));
    assert(s.stored.contains(at(3)));
    assert(s.stored.contains(at(4)));
    assert(s.stored.contains(at(5)));
    assert(s.stored.contains(at(6)));
    assert(wrap16(s.reg.sp - 1) == at(1));
    assert(wrap16(s.reg.sp - 2) == at(2));
    assert(wrap16(s.reg.sp - 3) == at(3));
    assert(wrap16(s.reg.sp - 4) == at(4));
    assert(wrap16(s.reg.sp - 5) == at(5));
    assert(wrap16(s.reg.sp - 6) == at(6));
    assert(wrap16(s.reg.sp - 7) == at(7));
}

/// SWI stacks the registers, sets the interrupt mask and loads PC from the
/// word at 0xFFFA and 0xFFFB; WAI stacks the registers and halts; RTI
/// loads the flags, B, A, IX and PC from the seven bytes above SP and moves
/// SP up by seven; HCF halts and catches fire.
pub proof fn interrupt_instructions(s: CpuState, e: OpcodeEntry)
    ensures
        ({
            let t = instruction_effect(s, e);
            let u = s.saved();
            let sp = s.reg.sp;
            let above = |j: int| s.mem[((sp + j) % 65536) as u16];
            &&& e.instruction == Mnemonic::Swi ==> t == CpuState {
                reg: Registers { pc: (u.mem[0xFFFA] * 256 + u.mem[0xFFFB]) as u16, ..u.reg },
                status: StatusFlags { i: true, ..u.status },
                ..u
            }
            &&& e.instruction == Mnemonic::Wai ==> t == CpuState { halt: true, ..u }
            &&& e.instruction == Mnemonic::Rti ==> t == CpuState {
                status: StatusFlags {
                    c: above(1) & 1 != 0,
                    v: above(1) & 2 != 0,
                    z: above(1) & 4 != 0,
                    n: above(1) & 8 != 0,
                    i: above(1) & 16 != 0,
                    h: above(1) & 32 != 0,
                },
                reg: Registers {
                    b: above(2),
                    a: above(3),
                    ix: (above(4) * 256 + above(5)) as u16,
                    pc: (above(6) * 256 + above(7)) as u16,
                    sp: ((sp + 7) % 65536) as u16,
                },
                ..s
            }
            &&& e.instruction == Mnemonic::Hcf ==> t == CpuState {
                halt: true,
                catch_fire: true,
                ..s
            }
        }),
{
}

/// Whether `mode` names a word in memory: direct, extended or indexed.
pub open spec fn word_memory_mode(mode: AddrMode) -> bool {
    mode == AddrMode::Dir16 || mode == AddrMode::Ext16 || mode == AddrMode::Idx16
}

/// The address of the word that an instruction in `mode` names with its
/// operand bytes at PC: the byte at PC (direct), the word at PC (extended),
/// or IX plus the byte at PC, wrapping at 64 KiB (indexed).
pub open spec fn word_address(s: CpuState, mode: AddrMode) -> u16 {
    let pc = s.reg.pc;
    if mode == AddrMode::Dir16 {
        s.mem[pc] as u16
    } else if mode == AddrMode::Ext16 {
        word_at(s, pc)
    } else {
        ((s.reg.ix + s.mem[pc]) % 65536) as u16
    }
}

/// LDX and LDS from memory load IX or SP with the big-endian word at the
/// address that the operand names, and CPX compares IX with that word as
/// it does with an immediate word; in direct, extended and indexed mode
/// alike PC moves on by two. LDX sets N and Z from the word, both loads
/// clear V.
pub proof fn word_loads(s: CpuState, e: OpcodeEntry)
    requires
        word_memory_mode(e.addr_mode),
    ensures
        ({
            let m = word_at(s, word_address(s, e.addr_mode));
            let pc = ((s.reg.pc + 2) % 65536) as u16;
            let t = instruction_effect(s, e);
            &&& e.instruction == Mnemonic::Ldx ==> t == CpuState {
                reg: Registers { ix: m, pc, ..s.reg },
                status: StatusFlags { n: m >= 0x8000, z: m == 0, v: false, ..s.status },
                ..s
            }
            &&& e.instruction == Mnemonic::Lds ==> t == CpuState {
                reg: Registers { sp: m, pc, ..s.reg },
                status: StatusFlags { v: false, ..s.status },
                ..s
            }
            &&& e.instruction == Mnemonic::Cpx ==> {
                let r = ((s.reg.ix - m) % 65536) as u16;
                let d = as_signed16(s.reg.ix) - as_signed16(m);
                t == CpuState {
                    reg: Registers { pc, ..s.reg },
                    status: StatusFlags {
                        n: r >= 0x8000,
                        z: r == 0,
                        v: d > 0x7FFF || d < -0x8000,
                        ..s.status
                    },
                    ..s
                }
            }
        }),
{
    reveal(operand);
    assert(word_at(s, s.reg.pc) == s.read16(s.reg.pc));
    let a = word_address(s, e.addr_mode);
    assert(word_at(s, a) == s.read16(a));
}

/// `s` with PC set to `pc`, the flags to `f`, and the big-endian word
/// `value` written at `address`: its low byte at the next address first,
/// then its high byte at `address`, each where the bus keeps writes.
pub open spec fn word_stored(
    s: CpuState,
    pc: u16,
    f: StatusFlags,
    address: u16,
    value: u16,
) -> CpuState {
    let next = ((address + 1) % 65536) as u16;
    let m1 = if s.stored.contains(next) {
        s.mem.insert(next, (value % 256) as u8)
    } else {
        s.mem
    };
    let m2 = if s.stored.contains(address) {
        m1.insert(address, (value / 256) as u8)
    } else {
        m1
    };
    CpuState { reg: Registers { pc, ..s.reg }, status: f, mem: m2, ..s }
}

/// STX and STS to memory write IX or SP as a big-endian word at the address
/// that the operand names, set N and Z from it and clear V; in direct,
/// extended and indexed mode alike PC moves on by two.
pub proof fn word_stores(s: CpuState, e: OpcodeEntry)
    requires
        word_memory_mode(e.addr_mode),
    ensures
        ({
            let a = word_address(s, e.addr_mode);
            let pc = ((s.reg.pc + 2) % 65536) as u16;
            let t = instruction_effect(s, e);
            let flags = |x: u16| StatusFlags { n: x >= 0x8000, z: x == 0, v: false, ..s.status };
            &&& e.instruction == Mnemonic::Stx ==> t == word_stored(
                s,
                pc,
                flags(s.reg.ix),
                a,
                s.reg.ix,
            )
            &&& e.instruction == Mnemonic::Sts ==> t == word_stored(
                s,
                pc,
                flags(s.reg.sp),
                a,
                s.reg.sp,
            )
        }),
{
    assert(word_at(s, s.reg.pc) == s.read16(s.reg.pc));
}

proof fn lemma_neg_in_memory(s: CpuState, e: OpcodeEntry)
    requires
        e.instruction == Mnemonic::Neg,
        e.addr_mode == AddrMode::Ext || e.addr_mode == AddrMode::Idx,
    ensures
        ({
            let len = operand_bytes(e.addr_mode);
            let next = CpuState {
                reg: Registers { pc: ((s.reg.pc + len) % 65536) as u16, ..s.reg },
                ..s
            };
            let target = if e.addr_mode == AddrMode::Ext {
                word_at(next, next.reg.pc)
            } else {
                ((s.reg.ix + next.mem[next.reg.pc]) % 65536) as u16
            };
            let on_acc = instruction_effect(
                CpuState { reg: Registers { a: operand_byte(s, e.addr_mode), ..s.reg }, ..s },
                OpcodeEntry { addr_mode: AddrMode::Acc, acc: Some(Accumulator::A), ..e },
            );
            instruction_effect(s, e) == byte_stored(
                s,
                ((s.reg.pc + 2 * len) % 65536) as u16,
                on_acc.status,
                target,
                on_acc.reg.a,
            )
        }),
{
    lemma_operand_byte(s, e);
    assert(word_at(s, s.reg.pc) == s.read16(s.reg.pc));
}

proof fn lemma_com_in_memory(s: CpuState, e: OpcodeEntry)
    requires
        e.instruction == Mnemonic::Com,
        e.addr_mode == AddrMode::Ext || e.addr_mode == AddrMode::Idx,
    ensures
        ({
            let len = operand_bytes(e.addr_mode);
            let next = CpuState {
                reg: Registers { pc: ((s.reg.pc + len) % 65536) as u16, ..s.reg },
                ..s
            };
            let target = if e.addr_mode == AddrMode::Ext {
                word_at(next, next.reg.pc)
            } else {
                ((s.reg.ix + next.mem[next.reg.pc]) % 65536) as u16
            };
            let on_acc = instruction_effect(
                CpuState { reg: Registers { a: operand_byte(s, e.addr_mode), ..s.reg }, ..s },
                OpcodeEntry { addr_mode: AddrMode::Acc, acc: Some(Accumulator::A), ..e },
            );
            instruction_effect(s, e) == byte_stored(
                s,
                ((s.reg.pc + 2 * len) % 65536) as u16,
                on_acc.status,
                target,
                on_acc.reg.a,
            )
        }),
{
    lemma_operand_byte(s, e);
    assert(word_at(s, s.reg.pc) == s.read16(s.reg.pc));
}

proof fn lemma_lsr_in_memory(s: CpuState, e: OpcodeEntry)
    requires
        e.instruction == Mnemonic::Lsr,
        e.addr_mode == AddrMode::Ext || e.addr_mode == AddrMode::Idx,
    ensures
        ({
            let len = operand_bytes(e.addr_mode);
            let next = CpuState {
                reg: Registers { pc: ((s.reg.pc + len) % 65536) as u16, ..s.reg },
                ..s
            };
            let target = if e.addr_mode == AddrMode::Ext {
                word_at(next, next.reg.pc)
            } else {
                ((s.reg.ix + next.mem[next.reg.pc]) % 65536) as u16
            };
            let on_acc = instruction_effect(
                CpuState { reg: Registers { a: operand_byte(s, e.addr_mode), ..s.reg }, ..s },
                OpcodeEntry { addr_mode: AddrMode::Acc, acc: Some(Accumulator::A), ..e },
            );
            instruction_effect(s, e) == byte_stored(
                s,
                ((s.reg.pc + 2 * len) % 65536) as u16,
                on_acc.status,
                target,
                on_acc.reg.a,
            )
        }),
{
    lemma_operand_byte(s, e);
    assert(word_at(s, s.reg.pc) == s.read16(s.reg.pc));
}

proof fn lemma_ror_in_memory(s: CpuState, e: OpcodeEntry)
    requires
        e.instruction == Mnemonic::Ror,
        e.addr_mode == AddrMode::Ext || e.addr_mode == AddrMode::Idx,
    ensures
        ({
            let len = operand_bytes(e.addr_mode);
            let next = CpuState {
                reg: Registers { pc: ((s.reg.pc + len) % 65536) as u16, ..s.reg },
                ..s
            };
            let target = if e.addr_mode == AddrMode::Ext {
                word_at(next, next.reg.pc)
            } else {
                ((s.reg.ix + next.mem[next.reg.pc]) % 65536) as u16
            };
            let on_acc = instruction_effect(
                CpuState { reg: Registers { a: operand_byte(s, e.addr_mode), ..s.reg }, ..s },
                OpcodeEntry { addr_mode: AddrMode::Acc, acc: Some(Accumulator::A), ..e },
            );
            instruction_effect(s, e) == byte_stored(
                s,
                ((s.reg.pc + 2 * len) % 65536) as u16,
                on_acc.status,
                target,
                on_acc.reg.a,
            )
        }),
{
    lemma_operand_byte(s, e);
    assert(word_at(s, s.reg.pc) == s.read16(s.reg.pc));
}

proof fn lemma_asr_in_memory(s: CpuState, e: OpcodeEntry)
    requires
        e.instruction == Mnemonic::Asr,
        e.addr_mode == AddrMode::Ext || e.addr_mode == AddrMode::Idx,
    ensures
        ({
            let len = operand_bytes(e.addr_mode);
            let next = CpuState {
                reg: Registers { pc: ((s.reg.pc + len) % 65536) as u16, ..s.reg },
                ..s
            };
            let target = if e.addr_mode == AddrMode::Ext {
                word_at(next, next.reg.pc)
            } else {
                ((s.reg.ix + next.mem[next.reg.pc]) % 65536) as u16
            };
            let on_acc = instruction_effect(
                CpuState { reg: Registers { a: operand_byte(s, e.addr_mode), ..s.reg }, ..s },
                OpcodeEntry { addr_mode: AddrMode::Acc, acc: Some(Accumulator::A), ..e },
            );
            instruction_effect(s, e) == byte_stored(
                s,
                ((s.reg.pc + 2 * len) % 65536) as u16,
                on_acc.status,
                target,
                on_acc.reg.a,
            )
        }),
{
    lemma_operand_byte(s, e);
    assert(word_at(s, s.reg.pc) == s.read16(s.reg.pc));
}

proof fn lemma_asl_in_memory(s: CpuState, e: OpcodeEntry)
    requires
        e.instruction == Mnemonic::Asl,
        e.addr_mode == AddrMode::Ext || e.addr_mode == AddrMode::Idx,
    ensures
        ({
            let len = operand_bytes(e.addr_mode);
            let next = CpuState {
                reg: Registers { pc: ((s.reg.pc + len) % 65536) as u16, ..s.reg },
                ..s
            };
            let target = if e.addr_mode == AddrMode::Ext {
                word_at(next, next.reg.pc)
            } else {
                ((s.reg.ix + next.mem[next.reg.pc]) % 65536) as u16
            };
            let on_acc = instruction_effect(
                CpuState { reg: Registers { a: operand_byte(s, e.addr_mode), ..s.reg }, ..s },
                OpcodeEntry { addr_mode: AddrMode::Acc, acc: Some(Accumulator::A), ..e },
            );
            instruction_effect(s, e) == byte_stored(
                s,
                ((s.reg.pc + 2 * len) % 65536) as u16,
                on_acc.status,
                target,
                on_acc.reg.a,
            )
        }),
{
    lemma_operand_byte(s, e);
    assert(word_at(s, s.reg.pc) == s.read16(s.reg.pc));
}

proof fn lemma_rol_in_memory(s: CpuState, e: OpcodeEntry)
    requires
        e.instruction == Mnemonic::Rol,
        e.addr_mode == AddrMode::Ext || e.addr_mode == AddrMode::Idx,
    ensures
        ({
            let len = operand_bytes(e.addr_mode);
            let next = CpuState {
                reg: Registers { pc: ((s.reg.pc + len) % 65536) as u16, ..s.reg },
                ..s
            };
            let target = if e.addr_mode == AddrMode::Ext {
                word_at(next, next.reg.pc)
            } else {
                ((s.reg.ix + next.mem[next.reg.pc]) % 65536) as u16
            };
            let on_acc = instruction_effect(
                CpuState { reg: Registers { a: operand_byte(s, e.addr_mode), ..s.reg }, ..s },
                OpcodeEntry { addr_mode: AddrMode::Acc, acc: Some(Accumulator::A), ..e },
            );
            instruction_effect(s, e) == byte_stored(
                s,
                ((s.reg.pc + 2 * len) % 65536) as u16,
                on_acc.status,
                target,
                on_acc.reg.a,
            )
        }),
{
    lemma_operand_byte(s, e);
    assert(word_at(s, s.reg.pc) == s.read16(s.reg.pc));
}

proof fn lemma_dec_in_memory(s: CpuState, e: OpcodeEntry)
    requires
        e.instruction == Mnemonic::Dec,
        e.addr_mode == AddrMode::Ext || e.addr_mode == AddrMode::Idx,
    ensures
        ({
            let len = operand_bytes(e.addr_mode);
            let next = CpuState {
                reg: Registers { pc: ((s.reg.pc + len) % 65536) as u16, ..s.reg },
                ..s
            };
            let target = if e.addr_mode == AddrMode::Ext {
                word_at(next, next.reg.pc)
            } else {
                ((s.reg.ix + next.mem[next.reg.pc]) % 65536) as u16
            };
            let on_acc = instruction_effect(
                CpuState { reg: Registers { a: operand_byte(s, e.addr_mode), ..s.reg }, ..s },
                OpcodeEntry { addr_mode: AddrMode::Acc, acc: Some(Accumulator::A), ..e },
            );
            instruction_effect(s, e) == byte_stored(
                s,
                ((s.reg.pc + 2 * len) % 65536) as u16,
                on_acc.status,
                target,
                on_acc.reg.a,
            )
        }),
{
    lemma_operand_byte(s, e);
    assert(word_at(s, s.reg.pc) == s.read16(s.reg.pc));
}

proof fn lemma_inc_in_memory(s: CpuState, e: OpcodeEntry)
    requires
        e.instruction == Mnemonic::Inc,
        e.addr_mode == AddrMode::Ext || e.addr_mode == AddrMode::Idx,
    ensures
        ({
            let len = operand_bytes(e.addr_mode);
            let next = CpuState {
                reg: Registers { pc: ((s.reg.pc + len) % 65536) as u16, ..s.reg },
                ..s
            };
            let target = if e.addr_mode == AddrMode::Ext {
                word_at(next, next.reg.pc)
            } else {
                ((s.reg.ix + next.mem[next.reg.pc]) % 65536) as u16
            };
            let on_acc = instruction_effect(
                CpuState { reg: Registers { a: operand_byte(s, e.addr_mode), ..s.reg }, ..s },
                OpcodeEntry { addr_mode: AddrMode::Acc, acc: Some(Accumulator::A), ..e },
            );
            instruction_effect(s, e) == byte_stored(
                s,
                ((s.reg.pc + 2 * len) % 65536) as u16,
                on_acc.status,
                target,
                on_acc.reg.a,
            )
        }),
{
    lemma_operand_byte(s, e);
    assert(word_at(s, s.reg.pc) == s.read16(s.reg.pc));
}

/// In extended and indexed mode, NEG, COM, LSR, ROR, ASR, ASL, ROL, DEC
/// and INC read the byte that the operand names and set the flags as they
/// would on accumulator A holding that byte. The result that they would
/// leave in A they write, where the bus keeps writes, at the address that
/// the operand bytes after the first operand name, and PC moves on past
/// both.
pub proof fn read_modify_write_in_memory(s: CpuState, e: OpcodeEntry)
    requires
        e.addr_mode == AddrMode::Ext || e.addr_mode == AddrMode::Idx,
        e.instruction == Mnemonic::Neg || e.instruction == Mnemonic::Com || e.instruction
            == Mnemonic::Lsr || e.instruction == Mnemonic::Ror || e.instruction == Mnemonic::Asr
            || e.instruction == Mnemonic::Asl || e.instruction == Mnemonic::Rol || e.instruction
            == Mnemonic::Dec || e.instruction == Mnemonic::Inc,
    ensures
        ({
            let len = operand_bytes(e.addr_mode);
            let next = CpuState {
                reg: Registers { pc: ((s.reg.pc + len) % 65536) as u16, ..s.reg },
                ..s
            };
            let target = if e.addr_mode == AddrMode::Ext {
                word_at(next, next.reg.pc)
            } else {
                ((s.reg.ix + next.mem[next.reg.pc]) % 65536) as u16
            };
            let on_acc = instruction_effect(
                CpuState { reg: Registers { a: operand_byte(s, e.addr_mode), ..s.reg }, ..s },
                OpcodeEntry { addr_mode: AddrMode::Acc, acc: Some(Accumulator::A), ..e },
            );
            instruction_effect(s, e) == byte_stored(
                s,
                ((s.reg.pc + 2 * len) % 65536) as u16,
                on_acc.status,
                target,
                on_acc.reg.a,
            )
        }),
{
    if e.instruction == Mnemonic::Neg {
        lemma_neg_in_memory(s, e);
    } else if e.instruction == Mnemonic::Com {
        lemma_com_in_memory(s, e);
    } else if e.instruction == Mnemonic::Lsr {
        lemma_lsr_in_memory(s, e);
    } else if e.instruction == Mnemonic::Ror {
        lemma_ror_in_memory(s, e);
    } else if e.instruction == Mnemonic::Asr {
        lemma_asr_in_memory(s, e);
    } else if e.instruction == Mnemonic::Asl {
        lemma_asl_in_memory(s, e);
    } else if e.instruction == Mnemonic::Rol {
        lemma_rol_in_memory(s, e);
    } else if e.instruction == Mnemonic::Dec {
        lemma_dec_in_memory(s, e);
    } else if e.instruction == Mnemonic::Inc {
        lemma_inc_in_memory(s, e);
    }
}

/// In extended and indexed mode, TST sets N and Z from the byte that the
/// operand names, clears V and C, and moves PC past the operand; CLR writes
/// zero at that address, where the bus keeps writes, sets Z, clears N, V
/// and C, and moves PC past the operand.
pub proof fn test_and_clear_in_memory(s: CpuState, e: OpcodeEntry)
    requires
        e.addr_mode == AddrMode::Ext || e.addr_mode == AddrMode::Idx,
    ensures
        ({
            let len = operand_bytes(e.addr_mode);
            let pc = ((s.reg.pc + len) % 65536) as u16;
            let v = operand_byte(s, e.addr_mode);
            let address = if e.addr_mode == AddrMode::Ext {
                word_at(s, s.reg.pc)
            } else {
                ((s.reg.ix + s.mem[s.reg.pc]) % 65536) as u16
            };
            let t = instruction_effect(s, e);
            &&& e.instruction == Mnemonic::Tst ==> t == CpuState {
                reg: Registers { pc, ..s.reg },
                status: StatusFlags { n: v >= 128, z: v == 0, v: false, c: false, ..s.status },
                ..s
            }
            &&& e.instruction == Mnemonic::Clr ==> t == byte_stored(
                s,
                pc,
                StatusFlags { n: false, z: true, v: false, c: false, ..s.status },
                address,
                0,
            )
        }),
{
    lemma_operand_byte(s, e);
    assert(word_at(s, s.reg.pc) == s.read16(s.reg.pc));
}

/// The accumulator operation that the low four bits of an opcode from
/// 0x80 up select, where they select one.
pub open spec fn accumulator_operation(low: u8) -> Mnemonic {
    if low == 0 {
        Mnemonic::Sub
    } else if low == 1 {
        Mnemonic::Cmp
    } else if low == 2 {
        Mnemonic::Sbc
    } else if low == 4 {
        Mnemonic::And
    } else if low == 5 {
        Mnemonic::Bit
    } else if low == 6 {
        Mnemonic::Lda
    } else if low == 7 {
        Mnemonic::Sta
    } else if low == 8 {
        Mnemonic::Eor
    } else if low == 9 {
        Mnemonic::Adc
    } else if low == 10 {
        Mnemonic::Ora
    } else if low == 11 {
        Mnemonic::Add
    } else {
        Mnemonic::Undefined
    }
}

/// RTI after SWI gives back every register and flag as they were when SWI
/// ran, PC included, so the program goes on after the SWI, where the bus
/// keeps the seven bytes from SP down.
pub proof fn interrupt_then_return(s: CpuState, swi: OpcodeEntry, rti: OpcodeEntry)
    requires
        swi.instruction == Mnemonic::Swi,
        rti.instruction == Mnemonic::Rti,
        forall|j: int| 0 <= j < 7 ==> #[trigger] s.stored.contains(wrap16(s.reg.sp - j)),
    ensures
        instruction_effect(instruction_effect(s, swi), rti).reg == s.reg,
        instruction_effect(instruction_effect(s, swi), rti).status == s.status,
{
    save_then_restore(s);
}

/// What the opcode table holds at an opcode of the accumulator block.
pub open spec fn accumulator_row(op: u8) -> bool {
        let e = opcode_table(op);
        let mode = (op / 16) % 4;
        let store: int = if op % 16 == 7 && mode != 0 {
            1
        } else {
            0
        };
        &&& e.instruction == accumulator_operation(op % 16)
        &&& e.acc == if op < 0xC0 {
            Some(Accumulator::A)
        } else {
            Some(Accumulator::B)
        }
        &&& mode == 0 ==> e.addr_mode == AddrMode::Imm && e.cycles == 2
        &&& mode == 1 ==> e.addr_mode == AddrMode::Dir && e.cycles == 3 + store
        &&& mode == 2 ==> e.addr_mode == AddrMode::Idx && e.cycles == 5 + store
        &&& mode == 3 ==> e.addr_mode == AddrMode::Ext && e.cycles == 4 + store
}

proof fn lemma_accumulator_row_8(op: u8)
    requires
        op / 16 == 8,
        accumulator_operation(op % 16) != Mnemonic::Undefined,
    ensures
        accumulator_row(op),
{
}

proof fn lemma_accumulator_row_9(op: u8)
    requires
        op / 16 == 9,
        accumulator_operation(op % 16) != Mnemonic::Undefined,
    ensures
        accumulator_row(op),
{
}

proof fn lemma_accumulator_row_a(op: u8)
    requires
        op / 16 == 10,
        accumulator_operation(op % 16) != Mnemonic::Undefined,
    ensures
        accumulator_row(op),
{
}

proof fn lemma_accumulator_row_b(op: u8)
    requires
        op / 16 == 11,
        accumulator_operation(op % 16) != Mnemonic::Undefined,
    ensures
        accumulator_row(op),
{
}

proof fn lemma_accumulator_row_c(op: u8)
    requires
        op / 16 == 12,
        accumulator_operation(op % 16) != Mnemonic::Undefined,
    ensures
        accumulator_row(op),
{
}

proof fn lemma_accumulator_row_d(op: u8)
    requires
        op / 16 == 13,
        accumulator_operation(op % 16) != Mnemonic::Undefined,
    ensures
        accumulator_row(op),
{
}

proof fn lemma_accumulator_row_e(op: u8)
    requires
        op / 16 == 14,
        accumulator_operation(op % 16) != Mnemonic::Undefined,
    ensures
        accumulator_row(op),
{
}

proof fn lemma_accumulator_row_f(op: u8)
    requires
        op / 16 == 15,
        accumulator_operation(op % 16) != Mnemonic::Undefined,
    ensures
        accumulator_row(op),
{
}

/// The opcodes from 0x80 up whose low four bits select an accumulator
/// operation work on A below 0xC0 and on B from there; bits 4 and 5 select
/// the mode, immediate, direct, indexed or extended in that order. They
/// take two cycles in immediate mode, three in direct, five in indexed and
/// four in extended mode, one more for a store outside immediate mode.
pub proof fn accumulator_opcodes(op: u8)
    requires
        op >= 0x80,
        accumulator_operation(op % 16) != Mnemonic::Undefined,
    ensures
        accumulator_row(op),
{
    if op / 16 == 8 {
        lemma_accumulator_row_8(op);
    } else if op / 16 == 9 {
        lemma_accumulator_row_9(op);
    } else if op / 16 == 10 {
        lemma_accumulator_row_a(op);
    } else if op / 16 == 11 {
        lemma_accumulator_row_b(op);
    } else if op / 16 == 12 {
        lemma_accumulator_row_c(op);
    } else if op / 16 == 13 {
        lemma_accumulator_row_d(op);
    } else if op / 16 == 14 {
        lemma_accumulator_row_e(op);
    } else if op / 16 == 15 {
        lemma_accumulator_row_f(op);
    }
}

/// The read-modify-write operation that the low four bits of an opcode
/// from 0x40 to 0x7F select, where they select one.
pub open spec fn unary_operation(low: u8) -> Mnemonic {
    if low == 0 {
        Mnemonic::Neg
    } else if low == 3 {
        Mnemonic::Com
    } else if low == 4 {
        Mnemonic::Lsr
    } else if low == 6 {
        Mnemonic::Ror
    } else if low == 7 {
        Mnemonic::Asr
    } else if low == 8 {
        Mnemonic::Asl
    } else if low == 9 {
        Mnemonic::Rol
    } else if low == 10 {
        Mnemonic::Dec
    } else if low == 12 {
        Mnemonic::Inc
    } else if low == 13 {
        Mnemonic::Tst
    } else if low == 15 {
        Mnemonic::Clr
    } else {
        Mnemonic::Undefined
    }
}

/// What the opcode table holds at an opcode of the read-modify-write block.
pub open spec fn unary_row(op: u8) -> bool {
    let e = opcode_table(op);
    let row = op / 16;
    &&& e.instruction == unary_operation(op % 16)
    &&& row == 4 ==> e.addr_mode == AddrMode::Acc && e.acc == Some(Accumulator::A) && e.cycles == 2
    &&& row == 5 ==> e.addr_mode == AddrMode::Acc && e.acc == Some(Accumulator::B) && e.cycles == 2
    &&& row == 6 ==> e.addr_mode == AddrMode::Idx && e.acc == None::<Accumulator> && e.cycles == 7
    &&& row == 7 ==> e.addr_mode == AddrMode::Ext && e.acc == None::<Accumulator> && e.cycles == 6
}

proof fn lemma_unary_row_4(op: u8)
    requires
        op / 16 == 4,
        unary_operation(op % 16) != Mnemonic::Undefined,
    ensures
        unary_row(op),
{
}

proof fn lemma_unary_row_5(op: u8)
    requires
        op / 16 == 5,
        unary_operation(op % 16) != Mnemonic::Undefined,
    ensures
        unary_row(op),
{
}

proof fn lemma_unary_row_6(op: u8)
    requires
        op / 16 == 6,
        unary_operation(op % 16) != Mnemonic::Undefined,
    ensures
        unary_row(op),
{
}

proof fn lemma_unary_row_7(op: u8)
    requires
        op / 16 == 7,
        unary_operation(op % 16) != Mnemonic::Undefined,
    ensures
        unary_row(op),
{
}

/// The opcodes from 0x40 to 0x7F whose low four bits select a
/// read-modify-write operation work on A in the 0x4_ row and on B in the
/// 0x5_ row, in two cycles, on memory in indexed mode in the 0x6_ row, in
/// seven cycles, and in extended mode in the 0x7_ row, in six.
pub proof fn unary_opcodes(op: u8)
    requires
        0x40 <= op < 0x80,
        unary_operation(op % 16) != Mnemonic::Undefined,
    ensures
        unary_row(op),
{
    if op / 16 == 4 {
        lemma_unary_row_4(op);
    } else if op / 16 == 5 {
        lemma_unary_row_5(op);
    } else if op / 16 == 6 {
        lemma_unary_row_6(op);
    } else {
        lemma_unary_row_7(op);
    }
}

/// The branch that the low four bits of an opcode from 0x20 to 0x2F
/// select, where they select one.
pub open spec fn branch_operation(low: u8) -> Mnemonic {
    if low == 0 {
        Mnemonic::Bra
    } else if low == 2 {
        Mnemonic::Bhi
    } else if low == 3 {
        Mnemonic::Bls
    } else if low == 4 {
        Mnemonic::Bcc
    } else if low == 5 {
        Mnemonic::Bcs
    } else if low == 6 {
        Mnemonic::Bne
    } else if low == 7 {
        Mnemonic::Beq
    } else if low == 8 {
        Mnemonic::Bvc
    } else if low == 9 {
        Mnemonic::Bvs
    } else if low == 10 {
        Mnemonic::Bpl
    } else if low == 11 {
        Mnemonic::Bmi
    } else if low == 12 {
        Mnemonic::Bge
    } else if low == 13 {
        Mnemonic::Blt
    } else if low == 14 {
        Mnemonic::Bgt
    } else if low == 15 {
        Mnemonic::Ble
    } else {
        Mnemonic::Undefined
    }
}

/// The opcodes from 0x20 to 0x2F but 0x21 are the relative branches, in
/// the order BRA, BHI, BLS, BCC, BCS, BNE, BEQ, BVC, BVS, BPL, BMI, BGE,
/// BLT, BGT, BLE, each in four cycles; 0x21 has no operation.
pub proof fn branch_opcodes(op: u8)
    requires
        0x20 <= op < 0x30,
    ensures
        opcode_table(op).instruction == branch_operation(op % 16),
        op != 0x21 ==> opcode_table(op).addr_mode == AddrMode::Rel && opcode_table(op).cycles == 4,
{
}

} // verus!
