//! Properties of the processor that span several operations.
use vstd::prelude::*;

use crate::cpu::{
    byte_of_flags, flags_of_byte, word, wrap16, CpuState, Registers, Requests, StatusFlags,
};
use crate::opcodes::{opcode_table, Mnemonic, OpcodeEntry};
use crate::semantics::{
    acc_value, advanced, branch_instruction, bsr_effect, com_byte, control_instruction, dec_byte,
    executed, fetched, flag_instruction, inc_byte, instruction_effect, ix_step_effect, jsr_effect,
    neg_byte, next_entry, operand_instruction, psh_effect, pul_effect, read_modify_write,
    register_instruction, rts_effect, serviced, serviced_requests, step_cycles, step_requests,
    step_state, stored,
};

verus! {

/// Unpacking the byte of a set of flags gives the flags back.
pub proof fn flags_byte_round_trip(f: StatusFlags)
    ensures
        flags_of_byte(byte_of_flags(f)) == f,
{
    let (c, v, z, n, i, h) = (f.c, f.v, f.z, f.n, f.i, f.h);
    let b = byte_of_flags(f);
    assert(b == 0xC0u8 | (if c { 0x01u8 } else { 0u8 }) | (if v { 0x02u8 } else { 0u8 }) | (if z {
        0x04u8
    } else {
        0u8
    }) | (if n { 0x08u8 } else { 0u8 }) | (if i { 0x10u8 } else { 0u8 }) | (if h {
        0x20u8
    } else {
        0u8
    }));
    assert(((b & 0x01) != 0) == c && ((b & 0x02) != 0) == v && ((b & 0x04) != 0) == z && ((b
        & 0x08) != 0) == n && ((b & 0x10) != 0) == i && ((b & 0x20) != 0) == h) by (bit_vector)
        requires
            b == 0xC0u8 | (if c { 0x01u8 } else { 0u8 }) | (if v { 0x02u8 } else { 0u8 }) | (if z {
                0x04u8
            } else {
                0u8
            }) | (if n { 0x08u8 } else { 0u8 }) | (if i { 0x10u8 } else { 0u8 }) | (if h {
                0x20u8
            } else {
                0u8
            }),
    ;
}

/// Packing the flags of a byte gives the byte back with its top two bits
/// set.
pub proof fn byte_flags_round_trip(b: u8)
    ensures
        byte_of_flags(flags_of_byte(b)) == b | 0xC0,
{
    assert(0xC0u8 | (if (b & 0x01) != 0 { 0x01u8 } else { 0u8 }) | (if (b & 0x02) != 0 {
        0x02u8
    } else {
        0u8
    }) | (if (b & 0x04) != 0 { 0x04u8 } else { 0u8 }) | (if (b & 0x08) != 0 {
        0x08u8
    } else {
        0u8
    }) | (if (b & 0x10) != 0 { 0x10u8 } else { 0u8 }) | (if (b & 0x20) != 0 {
        0x20u8
    } else {
        0u8
    }) == b | 0xC0) by (bit_vector);
}

/// A byte written where the bus keeps writes reads back, and no other
/// byte changes.
pub proof fn read_after_write(s: CpuState, address: u16, value: u8, other: u16)
    requires
        s.stored.contains(address),
        other != address,
    ensures
        s.write8(address, value).read8(address) == value,
        s.write8(address, value).read8(other) == s.read8(other),
        s.write8(address, value).stored == s.stored,
{
}

/// A word written where the bus keeps both of its bytes reads back.
pub proof fn read16_after_write16(s: CpuState, address: u16, value: u16)
    requires
        s.stored.contains(address),
        s.stored.contains(wrap16(address + 1)),
    ensures
        s.write16(address, value).read16(address) == value,
{
    assert(wrap16(address + 1) != address);
}

/// Pushing an accumulator and pulling it back restores the accumulator and
/// the stack pointer, where the bus keeps the byte at the stack pointer.
pub proof fn push_then_pull(s: CpuState, e: OpcodeEntry)
    requires
        s.stored.contains(s.reg.sp),
    ensures
        acc_value(pul_effect(psh_effect(s, e), e), e.acc) == acc_value(s, e.acc),
        pul_effect(psh_effect(s, e), e).reg.sp == s.reg.sp,
{
}

/// A return after a subroutine call comes back to the instruction after
/// the call, with the stack pointer as it was, where the bus keeps the two
/// bytes of the return address.
pub proof fn call_then_return(s: CpuState, e: OpcodeEntry)
    requires
        s.stored.contains(s.reg.sp),
        s.stored.contains(wrap16(s.reg.sp - 1)),
    ensures
        rts_effect(jsr_effect(s, e)).reg.pc == advanced(s, e).reg.pc,
        rts_effect(jsr_effect(s, e)).reg.sp == s.reg.sp,
        rts_effect(bsr_effect(s)).reg.pc == wrap16(s.reg.pc + 1),
        rts_effect(bsr_effect(s)).reg.sp == s.reg.sp,
{
    let sp = s.reg.sp;
    assert(wrap16(wrap16(sp - 2) + 1) == wrap16(sp - 1));
    assert(wrap16(wrap16(sp - 2) + 2) == sp);
    let ret = advanced(s, e).reg.pc;
    assert(word((ret / 256) as u8, (ret % 256) as u8) == ret);
    let ret2 = wrap16(s.reg.pc + 1);
    assert(word((ret2 / 256) as u8, (ret2 % 256) as u8) == ret2);
}

/// Stacking the registers and pulling them back restores every register
/// and flag, where the bus keeps the seven bytes below the stack pointer.
pub proof fn save_then_restore(s: CpuState)
    requires
        forall|k: int| 0 <= k < 7 ==> #[trigger] s.stored.contains(wrap16(s.reg.sp - k)),
    ensures
        s.saved().restored().reg == s.reg,
        s.saved().restored().status == s.status,
{
    let sp = s.reg.sp;
    assert(s.stored.contains(wrap16(sp - 0)));
    assert(s.stored.contains(wrap16(sp - 1)));
    assert(s.stored.contains(wrap16(sp - 2)));
    assert(s.stored.contains(wrap16(sp - 3)));
    assert(s.stored.contains(wrap16(sp - 4)));
    assert(s.stored.contains(wrap16(sp - 5)));
    assert(s.stored.contains(wrap16(sp - 6)));
    let t = wrap16(sp - 7);
    assert(wrap16(t + 1) == wrap16(sp - 6));
    assert(wrap16(t + 2) == wrap16(sp - 5));
    assert(wrap16(t + 3) == wrap16(sp - 4));
    assert(wrap16(t + 4) == wrap16(sp - 3));
    assert(wrap16(t + 5) == wrap16(sp - 2));
    assert(wrap16(t + 6) == wrap16(sp - 1));
    assert(wrap16(t + 7) == sp);
    flags_byte_round_trip(s.status);
    let pc = s.reg.pc;
    let ix = s.reg.ix;
    assert(word((pc / 256) as u8, (pc % 256) as u8) == pc);
    assert(word((ix / 256) as u8, (ix % 256) as u8) == ix);
}

/// Incrementing and then decrementing IX gives it back.
pub proof fn increment_then_decrement_index(s: CpuState)
    ensures
        ix_step_effect(ix_step_effect(s, 1), -1).reg.ix == s.reg.ix,
{
}

/// Incrementing and then decrementing a byte gives it back.
pub proof fn increment_then_decrement(v: u8, f: StatusFlags)
    ensures
        dec_byte(inc_byte(v, f).0 as u8, inc_byte(v, f).1).0 == v,
{
}

/// Negating twice, or complementing twice, gives the byte back.
pub proof fn double_negation(v: u8, f: StatusFlags)
    ensures
        neg_byte(neg_byte(v, f).0 as u8, f).0 == v,
        com_byte(com_byte(v, f).0 as u8, f).0 == v,
{
}

/// No instruction changes where the bus keeps writes.
pub proof fn instructions_keep_stored(s: CpuState, e: OpcodeEntry)
    ensures
        instruction_effect(s, e).stored == s.stored,
{
    instructions_keep_unstored(s, e);
}

/// No step changes where the bus keeps writes.
pub proof fn steps_keep_stored(s: CpuState, r: Requests)
    ensures
        step_state(s, r).stored == s.stored,
{
    if !s.halt {
        let t = serviced(s, r);
        assert(t.stored == s.stored);
        instructions_keep_stored(CpuState { halt: true, ..fetched(t) }, opcode_table(1));
        instructions_keep_stored(fetched(t), next_entry(s, r));
    }
}

/// `t` keeps the addresses where `s` keeps writes, and the bytes of `s`
/// where it does not.
pub open spec fn keeps_unstored(s: CpuState, t: CpuState) -> bool {
    &&& t.stored == s.stored
    &&& forall|a: u16| !s.stored.contains(a) ==> #[trigger] t.mem[a] == s.mem[a]
}

/// No instruction changes a byte where the bus does not keep writes.
pub proof fn instructions_keep_unstored(s: CpuState, e: OpcodeEntry)
    ensures
        keeps_unstored(s, instruction_effect(s, e)),
{
    match e.instruction {
        Mnemonic::Clv | Mnemonic::Sev | Mnemonic::Clc | Mnemonic::Sec | Mnemonic::Cli
        | Mnemonic::Sei | Mnemonic::Tap | Mnemonic::Tpa => lemma_flags_keep_unstored(s, e),
        Mnemonic::Nop | Mnemonic::Inx | Mnemonic::Dex | Mnemonic::Sba | Mnemonic::Cba
        | Mnemonic::Nba | Mnemonic::Tab | Mnemonic::Tba | Mnemonic::Daa | Mnemonic::Aba
        | Mnemonic::Tsx | Mnemonic::Ins | Mnemonic::Des | Mnemonic::Txs => {
            lemma_registers_keep_unstored(s, e)
        },
        Mnemonic::Pul | Mnemonic::Psh | Mnemonic::Rts | Mnemonic::Rti | Mnemonic::Wai
        | Mnemonic::Swi | Mnemonic::Bsr | Mnemonic::Jsr | Mnemonic::Jmp | Mnemonic::Hcf
        | Mnemonic::Undefined => lemma_control_keep_unstored(s, e),
        Mnemonic::Neg | Mnemonic::Com | Mnemonic::Lsr | Mnemonic::Ror | Mnemonic::Asr
        | Mnemonic::Asl | Mnemonic::Rol | Mnemonic::Dec | Mnemonic::Inc | Mnemonic::Tst
        | Mnemonic::Clr => lemma_unary_keep_unstored(s, e),
        Mnemonic::Sub | Mnemonic::Cmp | Mnemonic::Sbc | Mnemonic::And | Mnemonic::Bit
        | Mnemonic::Lda | Mnemonic::Sta | Mnemonic::Eor | Mnemonic::Adc | Mnemonic::Ora
        | Mnemonic::Add | Mnemonic::Cpx | Mnemonic::Lds | Mnemonic::Sts | Mnemonic::Ldx
        | Mnemonic::Stx => lemma_memory_keep_unstored(s, e),
        Mnemonic::Bra | Mnemonic::Bhi | Mnemonic::Bls | Mnemonic::Bcc | Mnemonic::Bcs
        | Mnemonic::Bne | Mnemonic::Beq | Mnemonic::Bvc | Mnemonic::Bvs | Mnemonic::Bpl
        | Mnemonic::Bmi | Mnemonic::Bge | Mnemonic::Blt | Mnemonic::Bgt | Mnemonic::Ble => {
            lemma_branch_keep_unstored(s, e)
        },
    }
}

proof fn lemma_flags_keep_unstored(s: CpuState, e: OpcodeEntry)
    requires
        flag_instruction(e.instruction),
    ensures
        keeps_unstored(s, instruction_effect(s, e)),
{
    lemma_writes_keep_unstored();
    match e.instruction {
        Mnemonic::Clv => {},
        Mnemonic::Sev => {},
        Mnemonic::Clc => {},
        Mnemonic::Sec => {},
        Mnemonic::Cli => {},
        Mnemonic::Sei => {},
        Mnemonic::Tap => {},
        Mnemonic::Tpa => {},
        _ => {},
    }
}

proof fn lemma_registers_keep_unstored(s: CpuState, e: OpcodeEntry)
    requires
        register_instruction(e.instruction),
    ensures
        keeps_unstored(s, instruction_effect(s, e)),
{
    lemma_writes_keep_unstored();
    match e.instruction {
        Mnemonic::Nop => {},
        Mnemonic::Inx => {},
        Mnemonic::Dex => {},
        Mnemonic::Sba => {},
        Mnemonic::Cba => {},
        Mnemonic::Nba => {},
        Mnemonic::Tab => {},
        Mnemonic::Tba => {},
        Mnemonic::Daa => {},
        Mnemonic::Aba => {},
        Mnemonic::Tsx => {},
        Mnemonic::Ins => {},
        Mnemonic::Des => {},
        Mnemonic::Txs => {},
        _ => {},
    }
}

proof fn lemma_control_keep_unstored(s: CpuState, e: OpcodeEntry)
    requires
        control_instruction(e.instruction),
    ensures
        keeps_unstored(s, instruction_effect(s, e)),
{
    lemma_writes_keep_unstored();
    match e.instruction {
        Mnemonic::Pul => {},
        Mnemonic::Psh => {},
        Mnemonic::Rts => {},
        Mnemonic::Rti => {},
        Mnemonic::Wai => {},
        Mnemonic::Swi => {},
        Mnemonic::Bsr => {},
        Mnemonic::Jsr => {},
        Mnemonic::Jmp => {},
        Mnemonic::Hcf => {},
        Mnemonic::Undefined => {},
        _ => {},
    }
}

proof fn lemma_unary_keep_unstored(s: CpuState, e: OpcodeEntry)
    requires
        read_modify_write(e.instruction),
    ensures
        keeps_unstored(s, instruction_effect(s, e)),
{
    lemma_writes_keep_unstored();
    match e.instruction {
        Mnemonic::Neg => {},
        Mnemonic::Com => {},
        Mnemonic::Lsr => {},
        Mnemonic::Ror => {},
        Mnemonic::Asr => {},
        Mnemonic::Asl => {},
        Mnemonic::Rol => {},
        Mnemonic::Dec => {},
        Mnemonic::Inc => {},
        Mnemonic::Tst => {},
        Mnemonic::Clr => {},
        _ => {},
    }
}

proof fn lemma_memory_keep_unstored(s: CpuState, e: OpcodeEntry)
    requires
        operand_instruction(e.instruction),
    ensures
        keeps_unstored(s, instruction_effect(s, e)),
{
    lemma_writes_keep_unstored();
    match e.instruction {
        Mnemonic::Sub => {},
        Mnemonic::Cmp => {},
        Mnemonic::Sbc => {},
        Mnemonic::And => {},
        Mnemonic::Bit => {},
        Mnemonic::Lda => {},
        Mnemonic::Sta => {},
        Mnemonic::Eor => {},
        Mnemonic::Adc => {},
        Mnemonic::Ora => {},
        Mnemonic::Add => {},
        Mnemonic::Cpx => {},
        Mnemonic::Lds => {},
        Mnemonic::Sts => {},
        Mnemonic::Ldx => {},
        Mnemonic::Stx => {},
        _ => {},
    }
}

proof fn lemma_branch_keep_unstored(s: CpuState, e: OpcodeEntry)
    requires
        branch_instruction(e.instruction),
    ensures
        keeps_unstored(s, instruction_effect(s, e)),
{
    lemma_writes_keep_unstored();
    match e.instruction {
        Mnemonic::Bra => {},
        Mnemonic::Bhi => {},
        Mnemonic::Bls => {},
        Mnemonic::Bcc => {},
        Mnemonic::Bcs => {},
        Mnemonic::Bne => {},
        Mnemonic::Beq => {},
        Mnemonic::Bvc => {},
        Mnemonic::Bvs => {},
        Mnemonic::Bpl => {},
        Mnemonic::Bmi => {},
        Mnemonic::Bge => {},
        Mnemonic::Blt => {},
        Mnemonic::Bgt => {},
        Mnemonic::Ble => {},
        _ => {},
    }
}

proof fn lemma_store_keeps_unstored(s: CpuState, e: OpcodeEntry)
    ensures
        forall|v: u16| #[trigger] keeps_unstored(s, stored(s, e, v)),
        keeps_unstored(s, s.saved()),
{
}

proof fn lemma_writes_keep_unstored()
    ensures
        forall|t: CpuState, e: OpcodeEntry, v: u16| #[trigger] keeps_unstored(t, stored(t, e, v)),
        forall|t: CpuState, a: u16, v: u8| #[trigger] keeps_unstored(t, t.write8(a, v)),
        forall|t: CpuState| #[trigger] keeps_unstored(t, t.saved()),
{
    assert forall|t: CpuState, e: OpcodeEntry, v: u16|
        #[trigger] keeps_unstored(t, stored(t, e, v)) by {
        lemma_store_keeps_unstored(t, e);
    }
    assert forall|t: CpuState| #[trigger] keeps_unstored(t, t.saved()) by {
        lemma_store_keeps_unstored(t, opcode_table(0));
    }
}

/// A step changes no byte where the bus does not keep writes.
pub proof fn steps_keep_unstored(s: CpuState, r: Requests)
    ensures
        keeps_unstored(s, step_state(s, r)),
{
    if !s.halt {
        let t = serviced(s, r);
        assert(keeps_unstored(s, t));
        instructions_keep_unstored(CpuState { halt: true, ..fetched(t) }, opcode_table(1));
        instructions_keep_unstored(fetched(t), next_entry(s, r));
    }
}

/// Comparisons and tests change only the flags and PC.
pub proof fn comparisons_keep_registers(s: CpuState, e: OpcodeEntry)
    requires
        matches!(
            e.instruction,
            Mnemonic::Cmp | Mnemonic::Bit | Mnemonic::Tst | Mnemonic::Cba | Mnemonic::Cpx
        ),
    ensures
        instruction_effect(s, e).reg.a == s.reg.a,
        instruction_effect(s, e).reg.b == s.reg.b,
        instruction_effect(s, e).reg.ix == s.reg.ix,
        instruction_effect(s, e).reg.sp == s.reg.sp,
        instruction_effect(s, e).mem == s.mem,
{
}

/// A masked interrupt request stays pending through a step of a running
/// processor with no reset or non-maskable interrupt pending, and the step
/// goes as it would with no request: nothing is stacked, PC is not loaded
/// from the vector, and the cycles are the same.
pub proof fn masked_request_stays_pending(s: CpuState, r: Requests)
    requires
        !s.halt,
        !r.reset,
        !r.nmi,
        r.irq,
        s.status.i,
    ensures
        step_requests(s, r) == r,
        step_state(s, r) == step_state(s, Requests { irq: false, ..r }),
        step_cycles(s, r) == step_cycles(s, Requests { irq: false, ..r }),
{
}

/// A halted processor with nothing pending stays as it is, one cycle per
/// step.
pub proof fn halted_waits(s: CpuState, r: Requests)
    requires
        s.halt,
        !s.catch_fire,
        !r.nmi,
        !(r.irq && !s.status.i),
    ensures
        step_state(s, r) == s,
        step_requests(s, r) == r,
        step_cycles(s, r) == 1,
{
}

/// A processor that has caught fire stays so; once running again it halts
/// at its next step.
#[verifier::spinoff_prover]
pub proof fn fire_is_lasting(s: CpuState, r: Requests)
    requires
        s.catch_fire,
    ensures
        step_state(s, r).catch_fire,
        step_state(s, r).halt,
{
    if !s.halt {
        lemma_serviced_keeps_lines(s, r);
        let t = serviced(s, r);
        assert(next_entry(s, r) == opcode_table(0));
        let u = CpuState { halt: true, ..fetched(t) };
        assert(opcode_table(1).instruction == Mnemonic::Nop);
        assert(instruction_effect(u, opcode_table(1)) == u);
        assert(executed(fetched(t), opcode_table(0)) == u);
    }
}

proof fn lemma_serviced_keeps_lines(s: CpuState, r: Requests)
    ensures
        serviced(s, r).catch_fire == s.catch_fire,
        serviced(s, r).halt == s.halt,
{
    assert(s.saved().catch_fire == s.catch_fire && s.saved().halt == s.halt);
}

/// An opcode with no operation halts the processor and takes the cycles
/// of NOP.
pub proof fn undefined_opcode_halts(s: CpuState, r: Requests)
    requires
        !s.halt,
        next_entry(s, r).instruction == Mnemonic::Undefined,
    ensures
        step_state(s, r).halt,
        step_cycles(s, r) == 2,
        step_state(s, r).reg == fetched(serviced(s, r)).reg,
{
}

/// A masked interrupt request is not taken.
pub proof fn masked_request_waits(s: CpuState, r: Requests)
    requires
        !r.reset,
        !r.nmi,
        s.status.i,
    ensures
        serviced(s, r) == s,
        serviced_requests(s, r) == r,
{
}

/// No step takes more than twelve cycles.
pub proof fn step_cycles_bounded(s: CpuState, r: Requests)
    ensures
        step_cycles(s, r) <= 12,
{
    let t = serviced(s, r);
    let op = t.read8(t.reg.pc);
    opcode_cycles_bounded(op);
    opcode_cycles_bounded(0);
}

/// No opcode takes more than twelve cycles.
pub proof fn opcode_cycles_bounded(op: u8)
    ensures
        opcode_table(op).cycles <= 12,
{
}

/// A halted processor that has not caught fire wakes for a non-maskable
/// interrupt, else for an unmasked interrupt request: it sets the interrupt
/// mask, loads PC from the vector word of that interrupt (0xFFFC and 0xFFFD
/// for the non-maskable one, 0xFFF8 and 0xFFF9 for a request, as a running
/// processor does), stacks nothing and clears the request it took, in one
/// cycle.
pub proof fn halted_wake_vectors(s: CpuState, r: Requests)
    requires
        s.halt,
        !s.catch_fire,
    ensures
        ({
            let nmi_vector = (s.mem[0xFFFC] * 256 + s.mem[0xFFFD]) as u16;
            let irq_vector = (s.mem[0xFFF8] * 256 + s.mem[0xFFF9]) as u16;
            let masked = StatusFlags { i: true, ..s.status };
            &&& r.nmi ==> step_state(s, r) == CpuState {
                reg: Registers { pc: nmi_vector, ..s.reg },
                status: masked,
                ..s
            }
            &&& r.nmi ==> step_requests(s, r) == Requests { nmi: false, ..r }
            &&& !r.nmi && r.irq && !s.status.i ==> step_state(s, r) == CpuState {
                reg: Registers { pc: irq_vector, ..s.reg },
                status: masked,
                ..s
            }
            &&& !r.nmi && r.irq && !s.status.i ==> step_requests(s, r) == Requests {
                irq: false,
                ..r
            }
            &&& step_cycles(s, r) == 1
        }),
{
}

/// No request pending.
pub open spec fn no_requests() -> Requests {
    Requests { nmi: false, irq: false, reset: false }
}

/// A running processor takes a pending reset first: the step is the one it
/// would take with nothing pending from PC loaded from the word at 0xFFFE
/// and 0xFFFF, and the reset alone is cleared. Else it takes a
/// non-maskable interrupt: the registers are stacked and PC is loaded from
/// the word at 0xFFFC and 0xFFFD. Else an unmasked interrupt request: the
/// registers are stacked, the mask is set and PC is loaded from the word
/// at 0xFFF8 and 0xFFF9. The vector is read after the registers are
/// stacked.
pub proof fn running_request_vectors(s: CpuState, r: Requests)
    requires
        !s.halt,
    ensures
        ({
            let u = CpuState {
                reg: Registers { pc: (s.mem[0xFFFE] * 256 + s.mem[0xFFFF]) as u16, ..s.reg },
                ..s
            };
            r.reset ==> {
                &&& step_state(s, r) == step_state(u, no_requests())
                &&& step_cycles(s, r) == step_cycles(u, no_requests())
                &&& step_requests(s, r) == Requests { reset: false, ..r }
            }
        }),
        ({
            let t = s.saved();
            let u = CpuState {
                reg: Registers { pc: (t.mem[0xFFFC] * 256 + t.mem[0xFFFD]) as u16, ..t.reg },
                ..t
            };
            !r.reset && r.nmi ==> {
                &&& step_state(s, r) == step_state(u, no_requests())
                &&& step_cycles(s, r) == step_cycles(u, no_requests())
                &&& step_requests(s, r) == Requests { nmi: false, ..r }
            }
        }),
        ({
            let t = s.saved();
            let u = CpuState {
                reg: Registers { pc: (t.mem[0xFFF8] * 256 + t.mem[0xFFF9]) as u16, ..t.reg },
                status: StatusFlags { i: true, ..t.status },
                ..t
            };
            !r.reset && !r.nmi && r.irq && !s.status.i ==> {
                &&& step_state(s, r) == step_state(u, no_requests())
                &&& step_cycles(s, r) == step_cycles(u, no_requests())
                &&& step_requests(s, r) == Requests { irq: false, ..r }
            }
        }),
{
    assert(s.saved().halt == s.halt);
}

/// A running processor with nothing pending fetches the opcode at PC,
/// moves PC past it and carries out the instruction that the opcode table
/// gives for it, reporting that instruction's cycles; an opcode with no
/// operation halts it and runs as NOP, in two cycles. Once it has caught
/// fire every opcode decodes as the entry of opcode zero.
pub proof fn running_step(s: CpuState)
    requires
        !s.halt,
    ensures
        ({
            let e = if s.catch_fire {
                opcode_table(0)
            } else {
                opcode_table(s.mem[s.reg.pc])
            };
            let past = CpuState {
                reg: Registers { pc: ((s.reg.pc + 1) % 65536) as u16, ..s.reg },
                ..s
            };
            &&& e.instruction != Mnemonic::Undefined ==> step_state(s, no_requests())
                == instruction_effect(past, e)
            &&& e.instruction != Mnemonic::Undefined ==> step_cycles(s, no_requests()) == e.cycles
            &&& e.instruction == Mnemonic::Undefined ==> step_state(s, no_requests()) == CpuState {
                halt: true,
                ..past
            }
            &&& e.instruction == Mnemonic::Undefined ==> step_cycles(s, no_requests()) == 2
            &&& step_requests(s, no_requests()) == no_requests()
        }),
{
    let past = CpuState {
        reg: Registers { pc: ((s.reg.pc + 1) % 65536) as u16, ..s.reg },
        ..s
    };
    let u = CpuState { halt: true, ..past };
    assert(opcode_table(1).instruction == Mnemonic::Nop);
    assert(instruction_effect(u, opcode_table(1)) == u);
}

/// A halted processor that has caught fire moves PC on by one at each
/// step, in one cycle, and takes no request.
pub proof fn burning_step(s: CpuState, r: Requests)
    requires
        s.halt,
        s.catch_fire,
    ensures
        step_state(s, r) == (CpuState {
            reg: Registers { pc: ((s.reg.pc + 1) % 65536) as u16, ..s.reg },
            ..s
        }),
        step_requests(s, r) == r,
        step_cycles(s, r) == 1,
{
}

} // verus!
