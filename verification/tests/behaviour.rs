use m6800::opcodes::opcode_entry;
use m6800::{Accumulator, AddrMode, Cpu, FlatMemory, MemoryBus, Mnemonic, Registers, StatusFlags};

fn machine(program: &[u8], origin: u16) -> Cpu<FlatMemory> {
    let mut mem = FlatMemory::with_capacity(0x10000);
    mem.load(origin, program);
    mem.write(0xFFFE, (origin >> 8) as u8);
    mem.write(0xFFFF, origin as u8);
    Cpu::new(mem)
}

#[test]
fn flags_round_trip_every_combination() {
    for bits in 0u8..64 {
        let f = StatusFlags::from_byte(bits);
        let back = StatusFlags::from_byte(f.to_byte());
        assert_eq!(back.c, f.c);
        assert_eq!(back.v, f.v);
        assert_eq!(back.z, f.z);
        assert_eq!(back.n, f.n);
        assert_eq!(back.i, f.i);
        assert_eq!(back.h, f.h);
    }
}

#[test]
fn byte_round_trip_sets_top_bits() {
    for b in 0u16..256 {
        let b = b as u8;
        assert_eq!(StatusFlags::from_byte(b).to_byte(), b | 0xC0);
    }
}

#[test]
fn new_state() {
    let r = Registers::new();
    assert_eq!((r.a, r.b, r.ix, r.sp, r.pc), (0, 0, 0, 0, 0));
    let f = StatusFlags::new();
    assert!(f.i && !f.c && !f.v && !f.z && !f.n && !f.h);
    assert_eq!(f.to_byte(), 0xD0);
    let cpu = Cpu::new(FlatMemory::new(16));
    assert!(cpu.reset && !cpu.halt && !cpu.catch_fire && !cpu.nmi && !cpu.irq);
    assert_eq!(cpu.total_cycles(), 0);
}

#[test]
fn flat_memory_bounds() {
    let mut mem = FlatMemory::new(4);
    mem.write(3, 9);
    mem.write(4, 7);
    assert_eq!(mem.read(3), 9);
    assert_eq!(mem.read(4), 0);
    assert_eq!(mem.data(), &[0, 0, 0, 9]);
    mem.data_mut()[0] = 5;
    assert_eq!(mem.read(0), 5);
}

#[test]
fn flat_memory_load_drops_past_end() {
    let mut mem = FlatMemory::with_capacity(4);
    mem.load(2, &[1, 2, 3, 4]);
    assert_eq!(mem.data(), &[0, 0, 1, 2]);
    let mut big = FlatMemory::new(0x10002);
    big.load(0xFFFF, &[7, 8, 9]);
    assert_eq!(big.data()[0xFFFF], 7);
    assert_eq!(big.data()[0x10000], 8);
    assert_eq!(big.data()[0x10001], 9);
    assert_eq!(big.data()[0], 0);
}

#[test]
fn decoder_entries() {
    let e = opcode_entry(0x86);
    assert_eq!(e.instruction, Mnemonic::Lda);
    assert_eq!(e.addr_mode, AddrMode::Imm);
    assert_eq!(e.acc, Some(Accumulator::A));
    assert_eq!(e.cycles, 2);
    let e = opcode_entry(0x3F);
    assert_eq!(e.instruction, Mnemonic::Swi);
    assert_eq!(e.cycles, 12);
    let e = opcode_entry(0x12);
    assert_eq!(e.instruction, Mnemonic::Undefined);
    assert_eq!(e.cycles, 0);
    let e = opcode_entry(0xF7);
    assert_eq!(e.instruction, Mnemonic::Sta);
    assert_eq!(e.addr_mode, AddrMode::Ext);
    assert_eq!(e.acc, Some(Accumulator::B));
    assert_eq!(e.cycles, 5);
}

#[test]
fn halted_processor_waits() {
    let mut cpu = machine(&[0x3E], 0x0000); // WAI
    cpu.reg.sp = 0x00FF;
    assert_eq!(cpu.step(), 9);
    assert!(cpu.halt);
    let pc = cpu.reg.pc;
    let total = cpu.total_cycles();
    assert_eq!(cpu.step(), 1);
    assert_eq!(cpu.step(), 1);
    assert_eq!(cpu.reg.pc, pc);
    assert_eq!(cpu.total_cycles(), total);
    cpu.run();
    assert!(!cpu.halt);
}

#[test]
fn total_cycles_accumulate() {
    let mut cpu = machine(&[0x01, 0x86, 0x10, 0xB7, 0x12, 0x34, 0x3E], 0x0000);
    cpu.reg.sp = 0x00FF;
    let mut sum = 0;
    for _ in 0..4 {
        sum += cpu.step();
    }
    assert_eq!(sum, 2 + 2 + 5 + 9);
    assert_eq!(cpu.total_cycles(), sum);
}

#[test]
fn swi_then_rti_restores_registers() {
    let mut cpu = machine(&[0x3F, 0x01], 0x0000); // SWI; NOP
    cpu.memory.write(0xFFFA, 0x02);
    cpu.memory.write(0xFFFB, 0x00);
    cpu.memory.write(0x0200, 0x3B); // RTI
    cpu.reg.sp = 0x01FF;
    cpu.reg.a = 0x11;
    cpu.reg.b = 0x22;
    cpu.reg.ix = 0xBEEF;
    cpu.status.i = false;
    cpu.status.c = true;
    assert_eq!(cpu.step(), 12); // SWI
    assert_eq!(cpu.reg.pc, 0x0200);
    assert!(cpu.status.i);
    assert_eq!(cpu.reg.sp, 0x01F8);
    assert_eq!(cpu.memory.read(0x01FF), 0x01); // return address, low byte
    assert_eq!(cpu.memory.read(0x01FE), 0x00);
    assert_eq!(cpu.memory.read(0x01FD), 0xEF);
    assert_eq!(cpu.memory.read(0x01FC), 0xBE);
    assert_eq!(cpu.memory.read(0x01FB), 0x11);
    assert_eq!(cpu.memory.read(0x01FA), 0x22);
    assert_eq!(cpu.memory.read(0x01F9), 0xC1);
    cpu.reg.a = 0;
    cpu.reg.ix = 0;
    assert_eq!(cpu.step(), 10); // RTI
    assert_eq!(cpu.reg.pc, 0x0001);
    assert_eq!(cpu.reg.sp, 0x01FF);
    assert_eq!((cpu.reg.a, cpu.reg.b, cpu.reg.ix), (0x11, 0x22, 0xBEEF));
    assert!(cpu.status.c && !cpu.status.i);
}

#[test]
fn bsr_then_rts_returns() {
    let mut cpu = machine(&[0x8D, 0x02, 0x01, 0x3E, 0x39], 0x0000); // BSR +2; NOP; WAI; RTS
    cpu.reg.sp = 0x00FF;
    assert_eq!(cpu.step(), 8);
    assert_eq!(cpu.reg.pc, 0x0004);
    assert_eq!(cpu.reg.sp, 0x00FD);
    cpu.step(); // RTS
    assert_eq!(cpu.reg.pc, 0x0002);
    assert_eq!(cpu.reg.sp, 0x00FF);
}

#[test]
fn branch_backwards() {
    let mut cpu = machine(&[0x01, 0x20, 0xFD], 0x0010); // NOP; BRA -3
    cpu.step();
    cpu.step();
    assert_eq!(cpu.reg.pc, 0x0010);
}

#[test]
fn subtract_flags() {
    // LDA #$00; SUB #$01
    let mut cpu = machine(&[0x86, 0x00, 0x80, 0x01], 0x0000);
    cpu.step();
    cpu.step();
    assert_eq!(cpu.reg.a, 0xFF);
    assert!(cpu.status.c && cpu.status.n && !cpu.status.z && !cpu.status.v);
    // LDA #$80; SUB #$01: signed overflow
    let mut cpu = machine(&[0x86, 0x80, 0x80, 0x01], 0x0000);
    cpu.step();
    cpu.step();
    assert_eq!(cpu.reg.a, 0x7F);
    assert!(cpu.status.v && !cpu.status.c && !cpu.status.n);
}

#[test]
fn subtract_with_borrow_and_compare() {
    // SEC; LDA #$05; SBC #$05 -> 0xFF, borrow
    let mut cpu = machine(&[0x0D, 0x86, 0x05, 0x82, 0x05], 0x0000);
    cpu.step();
    cpu.step();
    cpu.step();
    assert_eq!(cpu.reg.a, 0xFF);
    assert!(cpu.status.c && cpu.status.n);
    // LDA #$05; CMP #$05 leaves A and sets Z
    let mut cpu = machine(&[0x86, 0x05, 0x81, 0x05], 0x0000);
    cpu.step();
    cpu.step();
    assert_eq!(cpu.reg.a, 0x05);
    assert!(cpu.status.z && !cpu.status.c);
}

#[test]
fn add_with_carry() {
    // SEC; LDA #$FF; ADC #$01 -> 0x01, carry
    let mut cpu = machine(&[0x0D, 0x86, 0xFF, 0x89, 0x01], 0x0000);
    cpu.step();
    cpu.step();
    cpu.step();
    assert_eq!(cpu.reg.a, 0x01);
    assert!(cpu.status.c && !cpu.status.z);
}

#[test]
fn negate_and_complement_twice() {
    // LDA #$37; NEG A; NEG A; COM A; COM A
    let mut cpu = machine(&[0x86, 0x37, 0x40, 0x40, 0x43, 0x43], 0x0000);
    cpu.step();
    cpu.step();
    assert_eq!(cpu.reg.a, 0xC9);
    assert!(cpu.status.c);
    cpu.step();
    assert_eq!(cpu.reg.a, 0x37);
    cpu.step();
    assert_eq!(cpu.reg.a, 0xC8);
    assert!(cpu.status.c);
    cpu.step();
    assert_eq!(cpu.reg.a, 0x37);
}

#[test]
fn shifts_and_rotates() {
    // LDA #$02; ASR A -> bit 7 set; LDA #$01; SEC; ROR A -> 0x80, carry
    let mut cpu = machine(&[0x86, 0x02, 0x47, 0x86, 0x01, 0x0D, 0x46], 0x0000);
    cpu.step();
    cpu.step();
    assert_eq!(cpu.reg.a, 0x81);
    assert!(!cpu.status.c && cpu.status.v);
    cpu.step();
    cpu.step();
    cpu.step();
    assert_eq!(cpu.reg.a, 0x80);
    assert!(cpu.status.c && cpu.status.n && !cpu.status.v);
}

#[test]
fn index_and_stack_pointer_transfers() {
    // LDX #$1234; STX $40; LDS #$0100; TSX; TXS; STS $42 (a direct word
    // store moves past two operand bytes)
    let mut cpu = machine(
        &[0xCE, 0x12, 0x34, 0xDF, 0x40, 0x00, 0x8E, 0x01, 0x00, 0x30, 0x35, 0x9F, 0x42, 0x00],
        0x0000,
    );
    for _ in 0..6 {
        cpu.step();
    }
    assert_eq!(cpu.memory.read(0x40), 0x12);
    assert_eq!(cpu.memory.read(0x41), 0x34);
    assert_eq!(cpu.reg.ix, 0x0101);
    assert_eq!(cpu.reg.sp, 0x0100);
    assert_eq!(cpu.memory.read(0x42), 0x01);
    assert_eq!(cpu.memory.read(0x43), 0x00);
}

#[test]
fn compare_index() {
    // LDX #$8000; CPX #$0001 -> 0x7FFF: overflow, not negative
    let mut cpu = machine(&[0xCE, 0x80, 0x00, 0x8C, 0x00, 0x01], 0x0000);
    cpu.step();
    cpu.step();
    assert_eq!(cpu.reg.ix, 0x8000);
    assert!(cpu.status.v && !cpu.status.n && !cpu.status.z);
}

#[test]
fn accumulator_transfers() {
    // LDA #$80; TAB; TPA; LDA #$05; TAP
    let mut cpu = machine(&[0x86, 0x80, 0x16, 0x07, 0x86, 0x05, 0x06], 0x0000);
    cpu.step();
    cpu.step();
    assert_eq!(cpu.reg.b, 0x80);
    assert!(cpu.status.n);
    cpu.step();
    assert_eq!(cpu.reg.a, 0xD8);
    cpu.step();
    cpu.step();
    assert!(cpu.status.c && cpu.status.z && !cpu.status.i && !cpu.status.n);
}

#[test]
fn catch_fire_is_lasting() {
    let mut cpu = machine(&[0x9D, 0x01, 0x01], 0x0000); // HCF
    assert_eq!(cpu.step(), 0);
    assert!(cpu.halt && cpu.catch_fire);
    assert_eq!(cpu.step(), 1);
    assert_eq!(cpu.reg.pc, 0x0002);
    cpu.run();
    assert_eq!(cpu.step(), 2);
    assert!(cpu.halt && cpu.catch_fire);
}

#[test]
fn undefined_opcode_takes_nop_cycles() {
    let mut cpu = machine(&[0x02], 0x0000);
    assert_eq!(cpu.step(), 2);
    assert!(cpu.halt);
    assert_eq!(cpu.reg.pc, 0x0001);
}

#[test]
fn interrupts() {
    let mut cpu = machine(&[0x01, 0x01, 0x01], 0x0000);
    cpu.memory.write(0xFFF8, 0x03);
    cpu.memory.write(0xFFF9, 0x00);
    cpu.memory.write(0xFFFC, 0x04);
    cpu.memory.write(0xFFFD, 0x00);
    cpu.memory.write(0x0300, 0x01);
    cpu.memory.write(0x0400, 0x01);
    cpu.reg.sp = 0x01FF;
    cpu.step();
    // a masked request waits
    cpu.irq = true;
    cpu.step();
    assert_eq!(cpu.reg.pc, 0x0002);
    assert!(cpu.irq);
    assert_eq!(cpu.reg.sp, 0x01FF);
    // an unmasked one is taken
    cpu.status.i = false;
    cpu.step();
    assert!(!cpu.irq && cpu.status.i);
    assert_eq!(cpu.reg.pc, 0x0301);
    assert_eq!(cpu.reg.sp, 0x01F8);
    // a non-maskable one is taken
    cpu.nmi = true;
    cpu.step();
    assert!(!cpu.nmi);
    assert_eq!(cpu.reg.pc, 0x0401);
    assert_eq!(cpu.reg.sp, 0x01F1);
}

#[test]
fn interrupt_wakes_waiting_processor() {
    let mut cpu = machine(&[0x3E], 0x0000); // WAI
    cpu.memory.write(0xFFFC, 0x05);
    cpu.memory.write(0xFFFD, 0x00);
    cpu.reg.sp = 0x01FF;
    cpu.status.i = false;
    cpu.step();
    assert!(cpu.halt);
    cpu.nmi = true;
    assert_eq!(cpu.step(), 1);
    assert_eq!(cpu.reg.pc, 0x0500);
    assert!(cpu.status.i && !cpu.nmi);
    assert_eq!(cpu.reg.sp, 0x01F8);
}

#[test]
fn extended_store_and_increment() {
    // LDA #$7F; STA $0080; INC $0080 (extended)
    let mut cpu = machine(&[0x86, 0x7F, 0xB7, 0x00, 0x80, 0x7C, 0x00, 0x80, 0x00, 0x90], 0x0000);
    cpu.step();
    cpu.step();
    assert_eq!(cpu.memory.read(0x0080), 0x7F);
    cpu.step();
    // the incremented byte goes to the address that follows the operand
    assert_eq!(cpu.memory.read(0x0090), 0x80);
    assert!(cpu.status.v && cpu.status.n);
    assert_eq!(cpu.reg.pc, 0x000A);
}

#[test]
fn bit_and_logic() {
    // LDA #$F0; BIT #$0F -> Z; AND #$30; EOR #$FF; ORA #$01
    let mut cpu = machine(&[0x86, 0xF0, 0x85, 0x0F, 0x84, 0x30, 0x88, 0xFF, 0x8A, 0x01], 0x0000);
    cpu.step();
    cpu.step();
    assert!(cpu.status.z && !cpu.status.n);
    assert_eq!(cpu.reg.a, 0xF0);
    cpu.step();
    assert_eq!(cpu.reg.a, 0x30);
    cpu.step();
    assert_eq!(cpu.reg.a, 0xCF);
    cpu.step();
    assert_eq!(cpu.reg.a, 0xCF);
    assert!(cpu.status.n);
}

#[test]
fn instructions_call_directly() {
    let mut cpu = Cpu::new(FlatMemory::new(0x100));
    let entry = opcode_entry(0x4C); // INC A
    cpu.reg.a = 0xFF;
    m6800::instructions::Instructions::call(&mut cpu, &entry);
    assert_eq!(cpu.reg.a, 0x00);
    assert!(cpu.status.z && cpu.status.c);
    m6800::instructions::Instructions.init(&cpu);
}

#[test]
fn writes_past_the_end_are_dropped() {
    let mut mem = FlatMemory::new(0x100);
    mem.load(0x0000, &[0x86, 0x42, 0xB7, 0x12, 0x34]); // LDA #$42; STA $1234
    let mut cpu = Cpu::new(mem);
    cpu.reset = false;
    cpu.step();
    cpu.step();
    assert_eq!(cpu.reg.a, 0x42);
    assert_eq!(cpu.memory.read(0x1234), 0);
    assert_eq!(cpu.memory.data().len(), 0x100);
}

#[test]
fn no_opcode_takes_more_than_twelve_cycles() {
    for op in 0u16..256 {
        assert!(opcode_entry(op as u8).cycles <= 12);
    }
    assert_eq!(opcode_entry(0x3B).cycles, 10);
}

#[test]
fn index_wraps_around() {
    // LDX #$FFFF; INX; DEX
    let mut cpu = machine(&[0xCE, 0xFF, 0xFF, 0x08, 0x09], 0x0000);
    cpu.step();
    assert!(cpu.status.n);
    cpu.step();
    assert_eq!(cpu.reg.ix, 0x0000);
    assert!(cpu.status.z);
    cpu.step();
    assert_eq!(cpu.reg.ix, 0xFFFF);
    assert!(!cpu.status.z);
}

#[test]
fn test_and_clear() {
    // LDA #$80; TST A; CLR B; TST B
    let mut cpu = machine(&[0x86, 0x80, 0x4D, 0x5F, 0x5D], 0x0000);
    cpu.reg.b = 0x33;
    cpu.status.c = true;
    cpu.status.v = true;
    cpu.step();
    cpu.step();
    assert!(cpu.status.n && !cpu.status.z && !cpu.status.c && !cpu.status.v);
    assert_eq!(cpu.reg.a, 0x80);
    cpu.step();
    assert_eq!(cpu.reg.b, 0);
    assert!(cpu.status.z && !cpu.status.n);
    cpu.step();
    assert!(cpu.status.z);
}

#[test]
fn compare_keeps_registers() {
    // LDA #$10; LDB #$20; CBA; CMP B #$30
    let mut cpu = machine(&[0x86, 0x10, 0xC6, 0x20, 0x11, 0xC1, 0x30], 0x0000);
    for _ in 0..3 {
        cpu.step();
    }
    assert_eq!((cpu.reg.a, cpu.reg.b), (0x10, 0x20));
    assert!(cpu.status.c && cpu.status.n);
    cpu.step();
    assert_eq!((cpu.reg.a, cpu.reg.b), (0x10, 0x20));
    assert!(cpu.status.c);
}

#[test]
fn write_keeps_length_and_other_bytes() {
    let mut mem = FlatMemory::new(0x10002);
    mem.data_mut()[0x10001] = 0x5A;
    mem.write(0xFFFF, 0x11);
    assert_eq!(mem.data().len(), 0x10002);
    assert_eq!(mem.data()[0xFFFF], 0x11);
    assert_eq!(mem.data()[0x10000], 0);
    assert_eq!(mem.data()[0x10001], 0x5A);
}

#[test]
fn halted_step_leaves_memory_alone() {
    let mut cpu = machine(&[0x3E], 0x0000); // WAI
    cpu.reg.sp = 0x01FF;
    cpu.step();
    let before: Vec<u8> = cpu.memory.data().to_vec();
    cpu.step();
    cpu.irq = true; // masked: stays pending
    cpu.step();
    assert!(cpu.irq && cpu.halt);
    assert_eq!(cpu.memory.data(), &before[..]);
}

#[test]
fn steps_leave_bytes_beyond_the_address_space() {
    let mut mem = FlatMemory::new(0x10010);
    mem.load(0x0000, &[0x86, 0x42, 0xB7, 0x12, 0x34, 0x36]); // LDA #$42; STA $1234; PSH A
    mem.data_mut()[0x10005] = 0x77;
    let mut cpu = Cpu::new(mem);
    cpu.reset = false;
    cpu.reg.sp = 0xFFFF;
    cpu.step();
    cpu.step();
    cpu.step();
    assert_eq!(cpu.memory.read(0x1234), 0x42);
    assert_eq!(cpu.memory.read(0xFFFF), 0x42);
    assert_eq!(cpu.memory.data().len(), 0x10010);
    assert_eq!(cpu.memory.data()[0x10005], 0x77);
    assert_eq!(cpu.memory.data()[0x10000], 0);
}
