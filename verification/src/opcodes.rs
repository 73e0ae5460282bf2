use vstd::prelude::*;

verus! {

/// How an instruction finds its operand.
#[derive(Clone, Copy, Debug, PartialEq, Eq, Structural)]
pub enum AddrMode {
    Inh,
    Acc,
    Imm,
    Imm16,
    Dir,
    Dir16,
    Ext,
    Ext16,
    Idx,
    Idx16,
    Immx,
    Rel,
}

/// One of the two 8-bit accumulators.
#[derive(Clone, Copy, Debug, PartialEq, Eq, Structural)]
pub enum Accumulator {
    A,
    B,
}

/// The operation of an opcode; `Undefined` marks an opcode with none.
#[derive(Clone, Copy, Debug, PartialEq, Eq, Structural)]
pub enum Mnemonic {
    Undefined,
    Nop,
    Tap,
    Tpa,
    Inx,
    Dex,
    Clv,
    Sev,
    Clc,
    Sec,
    Cli,
    Sei,
    Sba,
    Cba,
    Nba,
    Tab,
    Tba,
    Daa,
    Aba,
    Bra,
    Bhi,
    Bls,
    Bcc,
    Bcs,
    Bne,
    Beq,
    Bvc,
    Bvs,
    Bpl,
    Bmi,
    Bge,
    Blt,
    Bgt,
    Ble,
    Tsx,
    Ins,
    Pul,
    Des,
    Txs,
    Psh,
    Rts,
    Rti,
    Wai,
    Swi,
    Neg,
    Com,
    Lsr,
    Ror,
    Asr,
    Asl,
    Rol,
    Dec,
    Inc,
    Tst,
    Clr,
    Jmp,
    Sub,
    Cmp,
    Sbc,
    And,
    Bit,
    Lda,
    Sta,
    Eor,
    Adc,
    Ora,
    Add,
    Cpx,
    Bsr,
    Lds,
    Sts,
    Hcf,
    Jsr,
    Ldx,
    Stx,
}

/// What the decoder knows of an opcode: its operation, its addressing
/// mode, the accumulator it works on, and the cycles it takes.
#[derive(Clone, Copy, Debug)]
pub struct OpcodeEntry {
    pub instruction: Mnemonic,
    pub addr_mode: AddrMode,
    pub acc: Option<Accumulator>,
    pub cycles: u8,
}

/// The entry with the given fields.
pub open spec fn table_entry(
    instruction: Mnemonic,
    addr_mode: AddrMode,
    acc: Option<Accumulator>,
    cycles: u8,
) -> OpcodeEntry {
    OpcodeEntry { instruction, addr_mode, acc, cycles }
}

/// The entry of an opcode with no operation.
pub open spec fn undefined_entry() -> OpcodeEntry {
    table_entry(Mnemonic::Undefined, AddrMode::Inh, None, 0)
}

/// The instruction set: the entry of each of the 256 opcodes.
pub open spec fn opcode_table(opcode: u8) -> OpcodeEntry {
    match opcode {
        0x01 => table_entry(Mnemonic::Nop, AddrMode::Inh, None, 2),
        0x06 => table_entry(Mnemonic::Tap, AddrMode::Inh, None, 2),
        0x07 => table_entry(Mnemonic::Tpa, AddrMode::Inh, None, 2),
        0x08 => table_entry(Mnemonic::Inx, AddrMode::Inh, None, 4),
        0x09 => table_entry(Mnemonic::Dex, AddrMode::Inh, None, 4),
        0x0A => table_entry(Mnemonic::Clv, AddrMode::Inh, None, 2),
        0x0B => table_entry(Mnemonic::Sev, AddrMode::Inh, None, 2),
        0x0C => table_entry(Mnemonic::Clc, AddrMode::Inh, None, 2),
        0x0D => table_entry(Mnemonic::Sec, AddrMode::Inh, None, 2),
        0x0E => table_entry(Mnemonic::Cli, AddrMode::Inh, None, 2),
        0x0F => table_entry(Mnemonic::Sei, AddrMode::Inh, None, 2),
        0x10 => table_entry(Mnemonic::Sba, AddrMode::Inh, None, 2),
        0x11 => table_entry(Mnemonic::Cba, AddrMode::Inh, None, 2),
        0x14 => table_entry(Mnemonic::Nba, AddrMode::Inh, None, 2),
        0x16 => table_entry(Mnemonic::Tab, AddrMode::Inh, None, 2),
        0x17 => table_entry(Mnemonic::Tba, AddrMode::Inh, None, 2),
        0x19 => table_entry(Mnemonic::Daa, AddrMode::Inh, None, 2),
        0x1B => table_entry(Mnemonic::Aba, AddrMode::Inh, None, 2),
        0x20 => table_entry(Mnemonic::Bra, AddrMode::Rel, None, 4),
        0x22 => table_entry(Mnemonic::Bhi, AddrMode::Rel, None, 4),
        0x23 => table_entry(Mnemonic::Bls, AddrMode::Rel, None, 4),
        0x24 => table_entry(Mnemonic::Bcc, AddrMode::Rel, None, 4),
        0x25 => table_entry(Mnemonic::Bcs, AddrMode::Rel, None, 4),
        0x26 => table_entry(Mnemonic::Bne, AddrMode::Rel, None, 4),
        0x27 => table_entry(Mnemonic::Beq, AddrMode::Rel, None, 4),
        0x28 => table_entry(Mnemonic::Bvc, AddrMode::Rel, None, 4),
        0x29 => table_entry(Mnemonic::Bvs, AddrMode::Rel, None, 4),
        0x2A => table_entry(Mnemonic::Bpl, AddrMode::Rel, None, 4),
        0x2B => table_entry(Mnemonic::Bmi, AddrMode::Rel, None, 4),
        0x2C => table_entry(Mnemonic::Bge, AddrMode::Rel, None, 4),
        0x2D => table_entry(Mnemonic::Blt, AddrMode::Rel, None, 4),
        0x2E => table_entry(Mnemonic::Bgt, AddrMode::Rel, None, 4),
        0x2F => table_entry(Mnemonic::Ble, AddrMode::Rel, None, 4),
        0x30 => table_entry(Mnemonic::Tsx, AddrMode::Inh, None, 4),
        0x31 => table_entry(Mnemonic::Ins, AddrMode::Inh, None, 4),
        0x32 => table_entry(Mnemonic::Pul, AddrMode::Acc, Some(Accumulator::A), 4),
        0x33 => table_entry(Mnemonic::Pul, AddrMode::Acc, Some(Accumulator::B), 4),
        0x34 => table_entry(Mnemonic::Des, AddrMode::Inh, None, 4),
        0x35 => table_entry(Mnemonic::Txs, AddrMode::Inh, None, 4),
        0x36 => table_entry(Mnemonic::Psh, AddrMode::Acc, Some(Accumulator::A), 4),
        0x37 => table_entry(Mnemonic::Psh, AddrMode::Acc, Some(Accumulator::B), 4),
        0x39 => table_entry(Mnemonic::Rts, AddrMode::Inh, None, 5),
        0x3B => table_entry(Mnemonic::Rti, AddrMode::Inh, None, 10),
        0x3E => table_entry(Mnemonic::Wai, AddrMode::Inh, None, 9),
        0x3F => table_entry(Mnemonic::Swi, AddrMode::Inh, None, 12),
        0x40 => table_entry(Mnemonic::Neg, AddrMode::Acc, Some(Accumulator::A), 2),
        0x43 => table_entry(Mnemonic::Com, AddrMode::Acc, Some(Accumulator::A), 2),
        0x44 => table_entry(Mnemonic::Lsr, AddrMode::Acc, Some(Accumulator::A), 2),
        0x46 => table_entry(Mnemonic::Ror, AddrMode::Acc, Some(Accumulator::A), 2),
        0x47 => table_entry(Mnemonic::Asr, AddrMode::Acc, Some(Accumulator::A), 2),
        0x48 => table_entry(Mnemonic::Asl, AddrMode::Acc, Some(Accumulator::A), 2),
        0x49 => table_entry(Mnemonic::Rol, AddrMode::Acc, Some(Accumulator::A), 2),
        0x4A => table_entry(Mnemonic::Dec, AddrMode::Acc, Some(Accumulator::A), 2),
        0x4C => table_entry(Mnemonic::Inc, AddrMode::Acc, Some(Accumulator::A), 2),
        0x4D => table_entry(Mnemonic::Tst, AddrMode::Acc, Some(Accumulator::A), 2),
        0x4F => table_entry(Mnemonic::Clr, AddrMode::Acc, Some(Accumulator::A), 2),
        0x50 => table_entry(Mnemonic::Neg, AddrMode::Acc, Some(Accumulator::B), 2),
        0x53 => table_entry(Mnemonic::Com, AddrMode::Acc, Some(Accumulator::B), 2),
        0x54 => table_entry(Mnemonic::Lsr, AddrMode::Acc, Some(Accumulator::B), 2),
        0x56 => table_entry(Mnemonic::Ror, AddrMode::Acc, Some(Accumulator::B), 2),
        0x57 => table_entry(Mnemonic::Asr, AddrMode::Acc, Some(Accumulator::B), 2),
        0x58 => table_entry(Mnemonic::Asl, AddrMode::Acc, Some(Accumulator::B), 2),
        0x59 => table_entry(Mnemonic::Rol, AddrMode::Acc, Some(Accumulator::B), 2),
        0x5A => table_entry(Mnemonic::Dec, AddrMode::Acc, Some(Accumulator::B), 2),
        0x5C => table_entry(Mnemonic::Inc, AddrMode::Acc, Some(Accumulator::B), 2),
        0x5D => table_entry(Mnemonic::Tst, AddrMode::Acc, Some(Accumulator::B), 2),
        0x5F => table_entry(Mnemonic::Clr, AddrMode::Acc, Some(Accumulator::B), 2),
        0x60 => table_entry(Mnemonic::Neg, AddrMode::Idx, None, 7),
        0x63 => table_entry(Mnemonic::Com, AddrMode::Idx, None, 7),
        0x64 => table_entry(Mnemonic::Lsr, AddrMode::Idx, None, 7),
        0x66 => table_entry(Mnemonic::Ror, AddrMode::Idx, None, 7),
        0x67 => table_entry(Mnemonic::Asr, AddrMode::Idx, None, 7),
        0x68 => table_entry(Mnemonic::Asl, AddrMode::Idx, None, 7),
        0x69 => table_entry(Mnemonic::Rol, AddrMode::Idx, None, 7),
        0x6A => table_entry(Mnemonic::Dec, AddrMode::Idx, None, 7),
        0x6C => table_entry(Mnemonic::Inc, AddrMode::Idx, None, 7),
        0x6D => table_entry(Mnemonic::Tst, AddrMode::Idx, None, 7),
        0x6E => table_entry(Mnemonic::Jmp, AddrMode::Immx, None, 2),
        0x6F => table_entry(Mnemonic::Clr, AddrMode::Idx, None, 7),
        0x70 => table_entry(Mnemonic::Neg, AddrMode::Ext, None, 6),
        0x73 => table_entry(Mnemonic::Com, AddrMode::Ext, None, 6),
        0x74 => table_entry(Mnemonic::Lsr, AddrMode::Ext, None, 6),
        0x76 => table_entry(Mnemonic::Ror, AddrMode::Ext, None, 6),
        0x77 => table_entry(Mnemonic::Asr, AddrMode::Ext, None, 6),
        0x78 => table_entry(Mnemonic::Asl, AddrMode::Ext, None, 6),
        0x79 => table_entry(Mnemonic::Rol, AddrMode::Ext, None, 6),
        0x7A => table_entry(Mnemonic::Dec, AddrMode::Ext, None, 6),
        0x7C => table_entry(Mnemonic::Inc, AddrMode::Ext, None, 6),
        0x7D => table_entry(Mnemonic::Tst, AddrMode::Ext, None, 6),
        0x7E => table_entry(Mnemonic::Jmp, AddrMode::Imm16, None, 3),
        0x7F => table_entry(Mnemonic::Clr, AddrMode::Ext, None, 6),
        0x80 => table_entry(Mnemonic::Sub, AddrMode::Imm, Some(Accumulator::A), 2),
        0x81 => table_entry(Mnemonic::Cmp, AddrMode::Imm, Some(Accumulator::A), 2),
        0x82 => table_entry(Mnemonic::Sbc, AddrMode::Imm, Some(Accumulator::A), 2),
        0x84 => table_entry(Mnemonic::And, AddrMode::Imm, Some(Accumulator::A), 2),
        0x85 => table_entry(Mnemonic::Bit, AddrMode::Imm, Some(Accumulator::A), 2),
        0x86 => table_entry(Mnemonic::Lda, AddrMode::Imm, Some(Accumulator::A), 2),
        0x87 => table_entry(Mnemonic::Sta, AddrMode::Imm, Some(Accumulator::A), 2),
        0x88 => table_entry(Mnemonic::Eor, AddrMode::Imm, Some(Accumulator::A), 2),
        0x89 => table_entry(Mnemonic::Adc, AddrMode::Imm, Some(Accumulator::A), 2),
        0x8A => table_entry(Mnemonic::Ora, AddrMode::Imm, Some(Accumulator::A), 2),
        0x8B => table_entry(Mnemonic::Add, AddrMode::Imm, Some(Accumulator::A), 2),
        0x8C => table_entry(Mnemonic::Cpx, AddrMode::Imm16, None, 3),
        0x8D => table_entry(Mnemonic::Bsr, AddrMode::Rel, None, 8),
        0x8E => table_entry(Mnemonic::Lds, AddrMode::Imm16, None, 3),
        0x8F => table_entry(Mnemonic::Sts, AddrMode::Imm16, None, 2),
        0x90 => table_entry(Mnemonic::Sub, AddrMode::Dir, Some(Accumulator::A), 3),
        0x91 => table_entry(Mnemonic::Cmp, AddrMode::Dir, Some(Accumulator::A), 3),
        0x92 => table_entry(Mnemonic::Sbc, AddrMode::Dir, Some(Accumulator::A), 3),
        0x94 => table_entry(Mnemonic::And, AddrMode::Dir, Some(Accumulator::A), 3),
        0x95 => table_entry(Mnemonic::Bit, AddrMode::Dir, Some(Accumulator::A), 3),
        0x96 => table_entry(Mnemonic::Lda, AddrMode::Dir, Some(Accumulator::A), 3),
        0x97 => table_entry(Mnemonic::Sta, AddrMode::Dir, Some(Accumulator::A), 4),
        0x98 => table_entry(Mnemonic::Eor, AddrMode::Dir, Some(Accumulator::A), 3),
        0x99 => table_entry(Mnemonic::Adc, AddrMode::Dir, Some(Accumulator::A), 3),
        0x9A => table_entry(Mnemonic::Ora, AddrMode::Dir, Some(Accumulator::A), 3),
        0x9B => table_entry(Mnemonic::Add, AddrMode::Dir, Some(Accumulator::A), 3),
        0x9C => table_entry(Mnemonic::Cpx, AddrMode::Dir16, None, 4),
        0x9D => table_entry(Mnemonic::Hcf, AddrMode::Inh, None, 0),
        0x9E => table_entry(Mnemonic::Lds, AddrMode::Dir16, None, 4),
        0x9F => table_entry(Mnemonic::Sts, AddrMode::Dir16, None, 5),
        0xA0 => table_entry(Mnemonic::Sub, AddrMode::Idx, Some(Accumulator::A), 5),
        0xA1 => table_entry(Mnemonic::Cmp, AddrMode::Idx, Some(Accumulator::A), 5),
        0xA2 => table_entry(Mnemonic::Sbc, AddrMode::Idx, Some(Accumulator::A), 5),
        0xA4 => table_entry(Mnemonic::And, AddrMode::Idx, Some(Accumulator::A), 5),
        0xA5 => table_entry(Mnemonic::Bit, AddrMode::Idx, Some(Accumulator::A), 5),
        0xA6 => table_entry(Mnemonic::Lda, AddrMode::Idx, Some(Accumulator::A), 5),
        0xA7 => table_entry(Mnemonic::Sta, AddrMode::Idx, Some(Accumulator::A), 6),
        0xA8 => table_entry(Mnemonic::Eor, AddrMode::Idx, Some(Accumulator::A), 5),
        0xA9 => table_entry(Mnemonic::Adc, AddrMode::Idx, Some(Accumulator::A), 5),
        0xAA => table_entry(Mnemonic::Ora, AddrMode::Idx, Some(Accumulator::A), 5),
        0xAB => table_entry(Mnemonic::Add, AddrMode::Idx, Some(Accumulator::A), 5),
        0xAC => table_entry(Mnemonic::Cpx, AddrMode::Idx16, None, 6),
        0xAD => table_entry(Mnemonic::Jsr, AddrMode::Immx, None, 8),
        0xAE => table_entry(Mnemonic::Lds, AddrMode::Idx16, None, 6),
        0xAF => table_entry(Mnemonic::Sts, AddrMode::Idx16, None, 7),
        0xB0 => table_entry(Mnemonic::Sub, AddrMode::Ext, Some(Accumulator::A), 4),
        0xB1 => table_entry(Mnemonic::Cmp, AddrMode::Ext, Some(Accumulator::A), 4),
        0xB2 => table_entry(Mnemonic::Sbc, AddrMode::Ext, Some(Accumulator::A), 4),
        0xB4 => table_entry(Mnemonic::And, AddrMode::Ext, Some(Accumulator::A), 4),
        0xB5 => table_entry(Mnemonic::Bit, AddrMode::Ext, Some(Accumulator::A), 4),
        0xB6 => table_entry(Mnemonic::Lda, AddrMode::Ext, Some(Accumulator::A), 4),
        0xB7 => table_entry(Mnemonic::Sta, AddrMode::Ext, Some(Accumulator::A), 5),
        0xB8 => table_entry(Mnemonic::Eor, AddrMode::Ext, Some(Accumulator::A), 4),
        0xB9 => table_entry(Mnemonic::Adc, AddrMode::Ext, Some(Accumulator::A), 4),
        0xBA => table_entry(Mnemonic::Ora, AddrMode::Ext, Some(Accumulator::A), 4),
        0xBB => table_entry(Mnemonic::Add, AddrMode::Ext, Some(Accumulator::A), 4),
        0xBC => table_entry(Mnemonic::Cpx, AddrMode::Ext16, None, 5),
        0xBD => table_entry(Mnemonic::Jsr, AddrMode::Imm16, None, 9),
        0xBE => table_entry(Mnemonic::Lds, AddrMode::Ext16, None, 5),
        0xBF => table_entry(Mnemonic::Sts, AddrMode::Ext16, None, 6),
        0xC0 => table_entry(Mnemonic::Sub, AddrMode::Imm, Some(Accumulator::B), 2),
        0xC1 => table_entry(Mnemonic::Cmp, AddrMode::Imm, Some(Accumulator::B), 2),
        0xC2 => table_entry(Mnemonic::Sbc, AddrMode::Imm, Some(Accumulator::B), 2),
        0xC4 => table_entry(Mnemonic::And, AddrMode::Imm, Some(Accumulator::B), 2),
        0xC5 => table_entry(Mnemonic::Bit, AddrMode::Imm, Some(Accumulator::B), 2),
        0xC6 => table_entry(Mnemonic::Lda, AddrMode::Imm, Some(Accumulator::B), 2),
        0xC7 => table_entry(Mnemonic::Sta, AddrMode::Imm, Some(Accumulator::B), 2),
        0xC8 => table_entry(Mnemonic::Eor, AddrMode::Imm, Some(Accumulator::B), 2),
        0xC9 => table_entry(Mnemonic::Adc, AddrMode::Imm, Some(Accumulator::B), 2),
        0xCA => table_entry(Mnemonic::Ora, AddrMode::Imm, Some(Accumulator::B), 2),
        0xCB => table_entry(Mnemonic::Add, AddrMode::Imm, Some(Accumulator::B), 2),
        0xCD => table_entry(Mnemonic::Hcf, AddrMode::Inh, None, 0),
        0xCE => table_entry(Mnemonic::Ldx, AddrMode::Imm16, None, 3),
        0xCF => table_entry(Mnemonic::Stx, AddrMode::Imm16, None, 2),
        0xD0 => table_entry(Mnemonic::Sub, AddrMode::Dir, Some(Accumulator::B), 3),
        0xD1 => table_entry(Mnemonic::Cmp, AddrMode::Dir, Some(Accumulator::B), 3),
        0xD2 => table_entry(Mnemonic::Sbc, AddrMode::Dir, Some(Accumulator::B), 3),
        0xD4 => table_entry(Mnemonic::And, AddrMode::Dir, Some(Accumulator::B), 3),
        0xD5 => table_entry(Mnemonic::Bit, AddrMode::Dir, Some(Accumulator::B), 3),
        0xD6 => table_entry(Mnemonic::Lda, AddrMode::Dir, Some(Accumulator::B), 3),
        0xD7 => table_entry(Mnemonic::Sta, AddrMode::Dir, Some(Accumulator::B), 4),
        0xD8 => table_entry(Mnemonic::Eor, AddrMode::Dir, Some(Accumulator::B), 3),
        0xD9 => table_entry(Mnemonic::Adc, AddrMode::Dir, Some(Accumulator::B), 3),
        0xDA => table_entry(Mnemonic::Ora, AddrMode::Dir, Some(Accumulator::B), 3),
        0xDB => table_entry(Mnemonic::Add, AddrMode::Dir, Some(Accumulator::B), 3),
        0xDD => table_entry(Mnemonic::Hcf, AddrMode::Inh, None, 0),
        0xDE => table_entry(Mnemonic::Ldx, AddrMode::Dir16, None, 4),
        0xDF => table_entry(Mnemonic::Stx, AddrMode::Dir16, None, 5),
        0xE0 => table_entry(Mnemonic::Sub, AddrMode::Idx, Some(Accumulator::B), 5),
        0xE1 => table_entry(Mnemonic::Cmp, AddrMode::Idx, Some(Accumulator::B), 5),
        0xE2 => table_entry(Mnemonic::Sbc, AddrMode::Idx, Some(Accumulator::B), 5),
        0xE4 => table_entry(Mnemonic::And, AddrMode::Idx, Some(Accumulator::B), 5),
        0xE5 => table_entry(Mnemonic::Bit, AddrMode::Idx, Some(Accumulator::B), 5),
        0xE6 => table_entry(Mnemonic::Lda, AddrMode::Idx, Some(Accumulator::B), 5),
        0xE7 => table_entry(Mnemonic::Sta, AddrMode::Idx, Some(Accumulator::B), 6),
        0xE8 => table_entry(Mnemonic::Eor, AddrMode::Idx, Some(Accumulator::B), 5),
        0xE9 => table_entry(Mnemonic::Adc, AddrMode::Idx, Some(Accumulator::B), 5),
        0xEA => table_entry(Mnemonic::Ora, AddrMode::Idx, Some(Accumulator::B), 5),
        0xEB => table_entry(Mnemonic::Add, AddrMode::Idx, Some(Accumulator::B), 5),
        0xED => table_entry(Mnemonic::Hcf, AddrMode::Inh, None, 0),
        0xEE => table_entry(Mnemonic::Ldx, AddrMode::Idx16, None, 6),
        0xEF => table_entry(Mnemonic::Stx, AddrMode::Idx16, None, 7),
        0xF0 => table_entry(Mnemonic::Sub, AddrMode::Ext, Some(Accumulator::B), 4),
        0xF1 => table_entry(Mnemonic::Cmp, AddrMode::Ext, Some(Accumulator::B), 4),
        0xF2 => table_entry(Mnemonic::Sbc, AddrMode::Ext, Some(Accumulator::B), 4),
        0xF4 => table_entry(Mnemonic::And, AddrMode::Ext, Some(Accumulator::B), 4),
        0xF5 => table_entry(Mnemonic::Bit, AddrMode::Ext, Some(Accumulator::B), 4),
        0xF6 => table_entry(Mnemonic::Lda, AddrMode::Ext, Some(Accumulator::B), 4),
        0xF7 => table_entry(Mnemonic::Sta, AddrMode::Ext, Some(Accumulator::B), 5),
        0xF8 => table_entry(Mnemonic::Eor, AddrMode::Ext, Some(Accumulator::B), 4),
        0xF9 => table_entry(Mnemonic::Adc, AddrMode::Ext, Some(Accumulator::B), 4),
        0xFA => table_entry(Mnemonic::Ora, AddrMode::Ext, Some(Accumulator::B), 4),
        0xFB => table_entry(Mnemonic::Add, AddrMode::Ext, Some(Accumulator::B), 4),
        0xFD => table_entry(Mnemonic::Hcf, AddrMode::Inh, None, 0),
        0xFE => table_entry(Mnemonic::Ldx, AddrMode::Ext16, None, 5),
        0xFF => table_entry(Mnemonic::Stx, AddrMode::Ext16, None, 6),
        _ => undefined_entry(),
    }
}

/// An entry with inherent addressing.
fn op_inh(inst: Mnemonic, cycles: u8) -> (e: OpcodeEntry)
    ensures
        e == table_entry(inst, AddrMode::Inh, None, cycles),
{
    OpcodeEntry { instruction: inst, addr_mode: AddrMode::Inh, acc: None, cycles }
}

/// An entry with relative addressing.
fn op_rel(inst: Mnemonic, cycles: u8) -> (e: OpcodeEntry)
    ensures
        e == table_entry(inst, AddrMode::Rel, None, cycles),
{
    OpcodeEntry { instruction: inst, addr_mode: AddrMode::Rel, acc: None, cycles }
}

/// An entry with immediate addressing.
fn op_imm(inst: Mnemonic, acc: Option<Accumulator>, cycles: u8) -> (e: OpcodeEntry)
    ensures
        e == table_entry(inst, AddrMode::Imm, acc, cycles),
{
    OpcodeEntry { instruction: inst, addr_mode: AddrMode::Imm, acc, cycles }
}

/// An entry with 16-bit immediate addressing.
fn op_imm16(inst: Mnemonic, cycles: u8) -> (e: OpcodeEntry)
    ensures
        e == table_entry(inst, AddrMode::Imm16, None, cycles),
{
    OpcodeEntry { instruction: inst, addr_mode: AddrMode::Imm16, acc: None, cycles }
}

/// An entry with direct addressing.
fn op_dir(inst: Mnemonic, acc: Option<Accumulator>, cycles: u8) -> (e: OpcodeEntry)
    ensures
        e == table_entry(inst, AddrMode::Dir, acc, cycles),
{
    OpcodeEntry { instruction: inst, addr_mode: AddrMode::Dir, acc, cycles }
}

/// An entry with 16-bit direct addressing.
fn op_dir16(inst: Mnemonic, cycles: u8) -> (e: OpcodeEntry)
    ensures
        e == table_entry(inst, AddrMode::Dir16, None, cycles),
{
    OpcodeEntry { instruction: inst, addr_mode: AddrMode::Dir16, acc: None, cycles }
}

/// An entry with extended addressing.
fn op_ext(inst: Mnemonic, acc: Option<Accumulator>, cycles: u8) -> (e: OpcodeEntry)
    ensures
        e == table_entry(inst, AddrMode::Ext, acc, cycles),
{
    OpcodeEntry { instruction: inst, addr_mode: AddrMode::Ext, acc, cycles }
}

/// An entry with 16-bit extended addressing.
fn op_ext16(inst: Mnemonic, cycles: u8) -> (e: OpcodeEntry)
    ensures
        e == table_entry(inst, AddrMode::Ext16, None, cycles),
{
    OpcodeEntry { instruction: inst, addr_mode: AddrMode::Ext16, acc: None, cycles }
}

/// An entry with indexed addressing.
fn op_idx(inst: Mnemonic, acc: Option<Accumulator>, cycles: u8) -> (e: OpcodeEntry)
    ensures
        e == table_entry(inst, AddrMode::Idx, acc, cycles),
{
    OpcodeEntry { instruction: inst, addr_mode: AddrMode::Idx, acc, cycles }
}

/// An entry with 16-bit indexed addressing.
fn op_idx16(inst: Mnemonic, cycles: u8) -> (e: OpcodeEntry)
    ensures
        e == table_entry(inst, AddrMode::Idx16, None, cycles),
{
    OpcodeEntry { instruction: inst, addr_mode: AddrMode::Idx16, acc: None, cycles }
}

/// An entry with accumulator addressing.
fn op_acc(inst: Mnemonic, acc: Option<Accumulator>, cycles: u8) -> (e: OpcodeEntry)
    ensures
        e == table_entry(inst, AddrMode::Acc, acc, cycles),
{
    OpcodeEntry { instruction: inst, addr_mode: AddrMode::Acc, acc, cycles }
}

/// An entry with index-relative address addressing.
fn op_immx(inst: Mnemonic, cycles: u8) -> (e: OpcodeEntry)
    ensures
        e == table_entry(inst, AddrMode::Immx, None, cycles),
{
    OpcodeEntry { instruction: inst, addr_mode: AddrMode::Immx, acc: None, cycles }
}

/// Looks an opcode up in the instruction set.
pub fn opcode_entry(opcode: u8) -> (e: OpcodeEntry)
    ensures
        e == opcode_table(opcode),
{
    match opcode {
        0x01 => op_inh(Mnemonic::Nop, 2),
        0x06 => op_inh(Mnemonic::Tap, 2),
        0x07 => op_inh(Mnemonic::Tpa, 2),
        0x08 => op_inh(Mnemonic::Inx, 4),
        0x09 => op_inh(Mnemonic::Dex, 4),
        0x0A => op_inh(Mnemonic::Clv, 2),
        0x0B => op_inh(Mnemonic::Sev, 2),
        0x0C => op_inh(Mnemonic::Clc, 2),
        0x0D => op_inh(Mnemonic::Sec, 2),
        0x0E => op_inh(Mnemonic::Cli, 2),
        0x0F => op_inh(Mnemonic::Sei, 2),
        0x10 => op_inh(Mnemonic::Sba, 2),
        0x11 => op_inh(Mnemonic::Cba, 2),
        0x14 => op_inh(Mnemonic::Nba, 2),
        0x16 => op_inh(Mnemonic::Tab, 2),
        0x17 => op_inh(Mnemonic::Tba, 2),
        0x19 => op_inh(Mnemonic::Daa, 2),
        0x1B => op_inh(Mnemonic::Aba, 2),
        0x20 => op_rel(Mnemonic::Bra, 4),
        0x22 => op_rel(Mnemonic::Bhi, 4),
        0x23 => op_rel(Mnemonic::Bls, 4),
        0x24 => op_rel(Mnemonic::Bcc, 4),
        0x25 => op_rel(Mnemonic::Bcs, 4),
        0x26 => op_rel(Mnemonic::Bne, 4),
        0x27 => op_rel(Mnemonic::Beq, 4),
        0x28 => op_rel(Mnemonic::Bvc, 4),
        0x29 => op_rel(Mnemonic::Bvs, 4),
        0x2A => op_rel(Mnemonic::Bpl, 4),
        0x2B => op_rel(Mnemonic::Bmi, 4),
        0x2C => op_rel(Mnemonic::Bge, 4),
        0x2D => op_rel(Mnemonic::Blt, 4),
        0x2E => op_rel(Mnemonic::Bgt, 4),
        0x2F => op_rel(Mnemonic::Ble, 4),
        0x30 => op_inh(Mnemonic::Tsx, 4),
        0x31 => op_inh(Mnemonic::Ins, 4),
        0x32 => op_acc(Mnemonic::Pul, Some(Accumulator::A), 4),
        0x33 => op_acc(Mnemonic::Pul, Some(Accumulator::B), 4),
        0x34 => op_inh(Mnemonic::Des, 4),
        0x35 => op_inh(Mnemonic::Txs, 4),
        0x36 => op_acc(Mnemonic::Psh, Some(Accumulator::A), 4),
        0x37 => op_acc(Mnemonic::Psh, Some(Accumulator::B), 4),
        0x39 => op_inh(Mnemonic::Rts, 5),
        0x3B => op_inh(Mnemonic::Rti, 10),
        0x3E => op_inh(Mnemonic::Wai, 9),
        0x3F => op_inh(Mnemonic::Swi, 12),
        0x40 => op_acc(Mnemonic::Neg, Some(Accumulator::A), 2),
        0x43 => op_acc(Mnemonic::Com, Some(Accumulator::A), 2),
        0x44 => op_acc(Mnemonic::Lsr, Some(Accumulator::A), 2),
        0x46 => op_acc(Mnemonic::Ror, Some(Accumulator::A), 2),
        0x47 => op_acc(Mnemonic::Asr, Some(Accumulator::A), 2),
        0x48 => op_acc(Mnemonic::Asl, Some(Accumulator::A), 2),
        0x49 => op_acc(Mnemonic::Rol, Some(Accumulator::A), 2),
        0x4A => op_acc(Mnemonic::Dec, Some(Accumulator::A), 2),
        0x4C => op_acc(Mnemonic::Inc, Some(Accumulator::A), 2),
        0x4D => op_acc(Mnemonic::Tst, Some(Accumulator::A), 2),
        0x4F => op_acc(Mnemonic::Clr, Some(Accumulator::A), 2),
        0x50 => op_acc(Mnemonic::Neg, Some(Accumulator::B), 2),
        0x53 => op_acc(Mnemonic::Com, Some(Accumulator::B), 2),
        0x54 => op_acc(Mnemonic::Lsr, Some(Accumulator::B), 2),
        0x56 => op_acc(Mnemonic::Ror, Some(Accumulator::B), 2),
        0x57 => op_acc(Mnemonic::Asr, Some(Accumulator::B), 2),
        0x58 => op_acc(Mnemonic::Asl, Some(Accumulator::B), 2),
        0x59 => op_acc(Mnemonic::Rol, Some(Accumulator::B), 2),
        0x5A => op_acc(Mnemonic::Dec, Some(Accumulator::B), 2),
        0x5C => op_acc(Mnemonic::Inc, Some(Accumulator::B), 2),
        0x5D => op_acc(Mnemonic::Tst, Some(Accumulator::B), 2),
        0x5F => op_acc(Mnemonic::Clr, Some(Accumulator::B), 2),
        0x60 => op_idx(Mnemonic::Neg, None, 7),
        0x63 => op_idx(Mnemonic::Com, None, 7),
        0x64 => op_idx(Mnemonic::Lsr, None, 7),
        0x66 => op_idx(Mnemonic::Ror, None, 7),
        0x67 => op_idx(Mnemonic::Asr, None, 7),
        0x68 => op_idx(Mnemonic::Asl, None, 7),
        0x69 => op_idx(Mnemonic::Rol, None, 7),
        0x6A => op_idx(Mnemonic::Dec, None, 7),
        0x6C => op_idx(Mnemonic::Inc, None, 7),
        0x6D => op_idx(Mnemonic::Tst, None, 7),
        0x6E => op_immx(Mnemonic::Jmp, 2),
        0x6F => op_idx(Mnemonic::Clr, None, 7),
        0x70 => op_ext(Mnemonic::Neg, None, 6),
        0x73 => op_ext(Mnemonic::Com, None, 6),
        0x74 => op_ext(Mnemonic::Lsr, None, 6),
        0x76 => op_ext(Mnemonic::Ror, None, 6),
        0x77 => op_ext(Mnemonic::Asr, None, 6),
        0x78 => op_ext(Mnemonic::Asl, None, 6),
        0x79 => op_ext(Mnemonic::Rol, None, 6),
        0x7A => op_ext(Mnemonic::Dec, None, 6),
        0x7C => op_ext(Mnemonic::Inc, None, 6),
        0x7D => op_ext(Mnemonic::Tst, None, 6),
        0x7E => op_imm16(Mnemonic::Jmp, 3),
        0x7F => op_ext(Mnemonic::Clr, None, 6),
        0x80 => op_imm(Mnemonic::Sub, Some(Accumulator::A), 2),
        0x81 => op_imm(Mnemonic::Cmp, Some(Accumulator::A), 2),
        0x82 => op_imm(Mnemonic::Sbc, Some(Accumulator::A), 2),
        0x84 => op_imm(Mnemonic::And, Some(Accumulator::A), 2),
        0x85 => op_imm(Mnemonic::Bit, Some(Accumulator::A), 2),
        0x86 => op_imm(Mnemonic::Lda, Some(Accumulator::A), 2),
        0x87 => op_imm(Mnemonic::Sta, Some(Accumulator::A), 2),
        0x88 => op_imm(Mnemonic::Eor, Some(Accumulator::A), 2),
        0x89 => op_imm(Mnemonic::Adc, Some(Accumulator::A), 2),
        0x8A => op_imm(Mnemonic::Ora, Some(Accumulator::A), 2),
        0x8B => op_imm(Mnemonic::Add, Some(Accumulator::A), 2),
        0x8C => op_imm16(Mnemonic::Cpx, 3),
        0x8D => op_rel(Mnemonic::Bsr, 8),
        0x8E => op_imm16(Mnemonic::Lds, 3),
        0x8F => op_imm16(Mnemonic::Sts, 2),
        0x90 => op_dir(Mnemonic::Sub, Some(Accumulator::A), 3),
        0x91 => op_dir(Mnemonic::Cmp, Some(Accumulator::A), 3),
        0x92 => op_dir(Mnemonic::Sbc, Some(Accumulator::A), 3),
        0x94 => op_dir(Mnemonic::And, Some(Accumulator::A), 3),
        0x95 => op_dir(Mnemonic::Bit, Some(Accumulator::A), 3),
        0x96 => op_dir(Mnemonic::Lda, Some(Accumulator::A), 3),
        0x97 => op_dir(Mnemonic::Sta, Some(Accumulator::A), 4),
        0x98 => op_dir(Mnemonic::Eor, Some(Accumulator::A), 3),
        0x99 => op_dir(Mnemonic::Adc, Some(Accumulator::A), 3),
        0x9A => op_dir(Mnemonic::Ora, Some(Accumulator::A), 3),
        0x9B => op_dir(Mnemonic::Add, Some(Accumulator::A), 3),
        0x9C => op_dir16(Mnemonic::Cpx, 4),
        0x9D => op_inh(Mnemonic::Hcf, 0),
        0x9E => op_dir16(Mnemonic::Lds, 4),
        0x9F => op_dir16(Mnemonic::Sts, 5),
        0xA0 => op_idx(Mnemonic::Sub, Some(Accumulator::A), 5),
        0xA1 => op_idx(Mnemonic::Cmp, Some(Accumulator::A), 5),
        0xA2 => op_idx(Mnemonic::Sbc, Some(Accumulator::A), 5),
        0xA4 => op_idx(Mnemonic::And, Some(Accumulator::A), 5),
        0xA5 => op_idx(Mnemonic::Bit, Some(Accumulator::A), 5),
        0xA6 => op_idx(Mnemonic::Lda, Some(Accumulator::A), 5),
        0xA7 => op_idx(Mnemonic::Sta, Some(Accumulator::A), 6),
        0xA8 => op_idx(Mnemonic::Eor, Some(Accumulator::A), 5),
        0xA9 => op_idx(Mnemonic::Adc, Some(Accumulator::A), 5),
        0xAA => op_idx(Mnemonic::Ora, Some(Accumulator::A), 5),
        0xAB => op_idx(Mnemonic::Add, Some(Accumulator::A), 5),
        0xAC => op_idx16(Mnemonic::Cpx, 6),
        0xAD => op_immx(Mnemonic::Jsr, 8),
        0xAE => op_idx16(Mnemonic::Lds, 6),
        0xAF => op_idx16(Mnemonic::Sts, 7),
        0xB0 => op_ext(Mnemonic::Sub, Some(Accumulator::A), 4),
        0xB1 => op_ext(Mnemonic::Cmp, Some(Accumulator::A), 4),
        0xB2 => op_ext(Mnemonic::Sbc, Some(Accumulator::A), 4),
        0xB4 => op_ext(Mnemonic::And, Some(Accumulator::A), 4),
        0xB5 => op_ext(Mnemonic::Bit, Some(Accumulator::A), 4),
        0xB6 => op_ext(Mnemonic::Lda, Some(Accumulator::A), 4),
        0xB7 => op_ext(Mnemonic::Sta, Some(Accumulator::A), 5),
        0xB8 => op_ext(Mnemonic::Eor, Some(Accumulator::A), 4),
        0xB9 => op_ext(Mnemonic::Adc, Some(Accumulator::A), 4),
        0xBA => op_ext(Mnemonic::Ora, Some(Accumulator::A), 4),
        0xBB => op_ext(Mnemonic::Add, Some(Accumulator::A), 4),
        0xBC => op_ext16(Mnemonic::Cpx, 5),
        0xBD => op_imm16(Mnemonic::Jsr, 9),
        0xBE => op_ext16(Mnemonic::Lds, 5),
        0xBF => op_ext16(Mnemonic::Sts, 6),
        0xC0 => op_imm(Mnemonic::Sub, Some(Accumulator::B), 2),
        0xC1 => op_imm(Mnemonic::Cmp, Some(Accumulator::B), 2),
        0xC2 => op_imm(Mnemonic::Sbc, Some(Accumulator::B), 2),
        0xC4 => op_imm(Mnemonic::And, Some(Accumulator::B), 2),
        0xC5 => op_imm(Mnemonic::Bit, Some(Accumulator::B), 2),
        0xC6 => op_imm(Mnemonic::Lda, Some(Accumulator::B), 2),
        0xC7 => op_imm(Mnemonic::Sta, Some(Accumulator::B), 2),
        0xC8 => op_imm(Mnemonic::Eor, Some(Accumulator::B), 2),
        0xC9 => op_imm(Mnemonic::Adc, Some(Accumulator::B), 2),
        0xCA => op_imm(Mnemonic::Ora, Some(Accumulator::B), 2),
        0xCB => op_imm(Mnemonic::Add, Some(Accumulator::B), 2),
        0xCD => op_inh(Mnemonic::Hcf, 0),
        0xCE => op_imm16(Mnemonic::Ldx, 3),
        0xCF => op_imm16(Mnemonic::Stx, 2),
        0xD0 => op_dir(Mnemonic::Sub, Some(Accumulator::B), 3),
        0xD1 => op_dir(Mnemonic::Cmp, Some(Accumulator::B), 3),
        0xD2 => op_dir(Mnemonic::Sbc, Some(Accumulator::B), 3),
        0xD4 => op_dir(Mnemonic::And, Some(Accumulator::B), 3),
        0xD5 => op_dir(Mnemonic::Bit, Some(Accumulator::B), 3),
        0xD6 => op_dir(Mnemonic::Lda, Some(Accumulator::B), 3),
        0xD7 => op_dir(Mnemonic::Sta, Some(Accumulator::B), 4),
        0xD8 => op_dir(Mnemonic::Eor, Some(Accumulator::B), 3),
        0xD9 => op_dir(Mnemonic::Adc, Some(Accumulator::B), 3),
        0xDA => op_dir(Mnemonic::Ora, Some(Accumulator::B), 3),
        0xDB => op_dir(Mnemonic::Add, Some(Accumulator::B), 3),
        0xDD => op_inh(Mnemonic::Hcf, 0),
        0xDE => op_dir16(Mnemonic::Ldx, 4),
        0xDF => op_dir16(Mnemonic::Stx, 5),
        0xE0 => op_idx(Mnemonic::Sub, Some(Accumulator::B), 5),
        0xE1 => op_idx(Mnemonic::Cmp, Some(Accumulator::B), 5),
        0xE2 => op_idx(Mnemonic::Sbc, Some(Accumulator::B), 5),
        0xE4 => op_idx(Mnemonic::And, Some(Accumulator::B), 5),
        0xE5 => op_idx(Mnemonic::Bit, Some(Accumulator::B), 5),
        0xE6 => op_idx(Mnemonic::Lda, Some(Accumulator::B), 5),
        0xE7 => op_idx(Mnemonic::Sta, Some(Accumulator::B), 6),
        0xE8 => op_idx(Mnemonic::Eor, Some(Accumulator::B), 5),
        0xE9 => op_idx(Mnemonic::Adc, Some(Accumulator::B), 5),
        0xEA => op_idx(Mnemonic::Ora, Some(Accumulator::B), 5),
        0xEB => op_idx(Mnemonic::Add, Some(Accumulator::B), 5),
        0xED => op_inh(Mnemonic::Hcf, 0),
        0xEE => op_idx16(Mnemonic::Ldx, 6),
        0xEF => op_idx16(Mnemonic::Stx, 7),
        0xF0 => op_ext(Mnemonic::Sub, Some(Accumulator::B), 4),
        0xF1 => op_ext(Mnemonic::Cmp, Some(Accumulator::B), 4),
        0xF2 => op_ext(Mnemonic::Sbc, Some(Accumulator::B), 4),
        0xF4 => op_ext(Mnemonic::And, Some(Accumulator::B), 4),
        0xF5 => op_ext(Mnemonic::Bit, Some(Accumulator::B), 4),
        0xF6 => op_ext(Mnemonic::Lda, Some(Accumulator::B), 4),
        0xF7 => op_ext(Mnemonic::Sta, Some(Accumulator::B), 5),
        0xF8 => op_ext(Mnemonic::Eor, Some(Accumulator::B), 4),
        0xF9 => op_ext(Mnemonic::Adc, Some(Accumulator::B), 4),
        0xFA => op_ext(Mnemonic::Ora, Some(Accumulator::B), 4),
        0xFB => op_ext(Mnemonic::Add, Some(Accumulator::B), 4),
        0xFD => op_inh(Mnemonic::Hcf, 0),
        0xFE => op_ext16(Mnemonic::Ldx, 5),
        0xFF => op_ext16(Mnemonic::Stx, 6),
        _ => op_inh(Mnemonic::Undefined, 0),
    }
}

} // verus!
