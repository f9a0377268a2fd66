use nes_core::cartridge::Cartridge;
use nes_core::cpu::{InterruptType, CPU};
use nes_core::error::NesError;
use nes_core::opcodes::{decode, instruction_cycles, Access};

const CARRY: u8 = 0x01;
const ZERO: u8 = 0x02;
const IRQ_DISABLE: u8 = 0x04;
const BREAK: u8 = 0x10;
const OVERFLOW: u8 = 0x40;
const NEGATIVE: u8 = 0x80;

/// A CPU with an NROM cartridge whose program starts at 0x8000; the vectors
/// point NMI at 0xA000, RESET at 0x8000 and IRQ/BRK at 0x9000.
fn cpu_with(program: &[u8]) -> CPU {
    let mut image = vec![0x4E, 0x45, 0x53, 0x1A, 1, 0, 0, 0, 0, 0, 0, 0, 0, 0, 0, 0];
    let mut prg = vec![0xEAu8; 0x4000];
    prg[..program.len()].copy_from_slice(program);
    prg[0x3FFA] = 0x00;
    prg[0x3FFB] = 0xA0;
    prg[0x3FFC] = 0x00;
    prg[0x3FFD] = 0x80;
    prg[0x3FFE] = 0x00;
    prg[0x3FFF] = 0x90;
    image.extend(prg);
    let mut cpu = CPU::new();
    cpu.bus.insert_cartridge(Cartridge::new(&image).unwrap());
    cpu.reset().unwrap();
    cpu
}

fn run(cpu: &mut CPU, steps: usize) -> Vec<u8> {
    (0..steps).map(|_| cpu.execute_next_instruction().unwrap()).collect()
}

#[test]
fn reset_loads_vector_and_registers() {
    let cpu = cpu_with(&[]);
    assert_eq!(cpu.pc, 0x8000);
    assert_eq!(cpu.sp, 0xFF);
    assert_eq!(cpu.p, 0x34);
    assert_eq!(cpu.bus.cycles, 7);
}

#[test]
fn adc_sets_overflow_on_signed_overflow() {
    // LDA #$50; ADC #$50
    let mut cpu = cpu_with(&[0xA9, 0x50, 0x69, 0x50]);
    run(&mut cpu, 2);
    assert_eq!(cpu.a, 0xA0);
    assert_eq!(cpu.p & CARRY, 0);
    assert_eq!(cpu.p & OVERFLOW, OVERFLOW);
    assert_eq!(cpu.p & NEGATIVE, NEGATIVE);
    assert_eq!(cpu.p & ZERO, 0);
}

#[test]
fn adc_carries_out_and_in() {
    // LDA #$FF; ADC #$01; ADC #$00
    let mut cpu = cpu_with(&[0xA9, 0xFF, 0x69, 0x01, 0x69, 0x00]);
    run(&mut cpu, 2);
    assert_eq!(cpu.a, 0x00);
    assert_eq!(cpu.p & (CARRY | ZERO | OVERFLOW), CARRY | ZERO);
    run(&mut cpu, 1);
    assert_eq!(cpu.a, 0x01);
    assert_eq!(cpu.p & CARRY, 0);
}

#[test]
fn sbc_borrows() {
    // SEC; LDA #$50; SBC #$F0; SEC; LDA #$50; SBC #$B0; CLC; LDA #$05; SBC #$03
    let mut cpu = cpu_with(&[
        0x38, 0xA9, 0x50, 0xE9, 0xF0, 0x38, 0xA9, 0x50, 0xE9, 0xB0, 0x18, 0xA9, 0x05, 0xE9, 0x03,
    ]);
    run(&mut cpu, 3);
    assert_eq!(cpu.a, 0x60);
    assert_eq!(cpu.p & (CARRY | OVERFLOW), 0);
    run(&mut cpu, 3);
    assert_eq!(cpu.a, 0xA0);
    assert_eq!(cpu.p & (CARRY | OVERFLOW), OVERFLOW);
    run(&mut cpu, 3);
    assert_eq!(cpu.a, 0x01);
    assert_eq!(cpu.p & CARRY, CARRY);
}

#[test]
fn compare_sets_carry_when_register_not_below() {
    // LDA #$40; CMP #$40; CMP #$41
    let mut cpu = cpu_with(&[0xA9, 0x40, 0xC9, 0x40, 0xC9, 0x41]);
    run(&mut cpu, 2);
    assert_eq!(cpu.p & (CARRY | ZERO), CARRY | ZERO);
    run(&mut cpu, 1);
    assert_eq!(cpu.p & (CARRY | ZERO | NEGATIVE), NEGATIVE);
}

#[test]
fn push_at_bottom_wraps_stack_pointer() {
    // LDA #$42; PHA; PLA
    let mut cpu = cpu_with(&[0xA9, 0x42, 0x48, 0xA9, 0x00, 0x68]);
    run(&mut cpu, 1);
    cpu.sp = 0x00;
    run(&mut cpu, 1);
    assert_eq!(cpu.bus.ram[0x0100], 0x42);
    assert_eq!(cpu.sp, 0xFF);
    run(&mut cpu, 2);
    assert_eq!(cpu.a, 0x42);
    assert_eq!(cpu.sp, 0x00);
}

#[test]
fn brk_pushes_pc_plus_two_and_status() {
    let mut cpu = cpu_with(&[0x00]);
    cpu.p = 0x00;
    let cycles = run(&mut cpu, 1);
    assert_eq!(cycles, vec![7]);
    assert_eq!(cpu.bus.cycles, 7 + 7);
    assert_eq!(cpu.pc, 0x9000);
    assert_eq!(cpu.sp, 0xFC);
    assert_eq!(cpu.bus.ram[0x01FF], 0x80);
    assert_eq!(cpu.bus.ram[0x01FE], 0x02);
    assert_eq!(cpu.bus.ram[0x01FD], 0x30);
    assert_eq!(cpu.p & (BREAK | IRQ_DISABLE), BREAK | IRQ_DISABLE);
}

#[test]
fn php_sets_and_plp_clears_unused_bits() {
    // PHP; PLP
    let mut cpu = cpu_with(&[0x08, 0x28]);
    cpu.p = 0x01;
    run(&mut cpu, 1);
    assert_eq!(cpu.bus.ram[0x01FF], 0x31);
    cpu.bus.ram[0x01FF] = 0xFF;
    run(&mut cpu, 1);
    assert_eq!(cpu.p, 0xCF);
}

#[test]
fn jsr_and_rts() {
    // JSR $8005; NOP; NOP; RTS
    let mut cpu = cpu_with(&[0x20, 0x05, 0x80, 0xEA, 0xEA, 0x60]);
    assert_eq!(run(&mut cpu, 1), vec![6]);
    assert_eq!(cpu.pc, 0x8005);
    assert_eq!(cpu.bus.ram[0x01FF], 0x80);
    assert_eq!(cpu.bus.ram[0x01FE], 0x02);
    assert_eq!(run(&mut cpu, 1), vec![6]);
    assert_eq!(cpu.pc, 0x8003);
}

#[test]
fn indirect_jump_wraps_within_page() {
    // JMP ($02FF)
    let mut cpu = cpu_with(&[0x6C, 0xFF, 0x02]);
    cpu.bus.write(0x02FF, 0x34).unwrap();
    cpu.bus.write(0x0200, 0x12).unwrap();
    cpu.bus.write(0x0300, 0x56).unwrap();
    assert_eq!(run(&mut cpu, 1), vec![5]);
    assert_eq!(cpu.pc, 0x1234);
}

#[test]
fn page_crossing_costs_a_cycle_on_reads_only() {
    // LDX #$01; LDA $80FF,X; LDA $8000,X; STA $02FF,X
    let mut cpu = cpu_with(&[0xA2, 0x01, 0xBD, 0xFF, 0x80, 0xBD, 0x00, 0x80, 0x9D, 0xFF, 0x02]);
    assert_eq!(run(&mut cpu, 4), vec![2, 5, 4, 5]);
    assert_eq!(cpu.bus.ram[0x0300], cpu.a);
    assert_eq!(cpu.bus.cycles, 7 + 16);
}

#[test]
fn indirect_y_page_cross() {
    // LDY #$01; LDA ($10),Y
    let mut cpu = cpu_with(&[0xA0, 0x01, 0xB1, 0x10]);
    cpu.bus.write(0x0010, 0xFF).unwrap();
    cpu.bus.write(0x0011, 0x02).unwrap();
    cpu.bus.write(0x0300, 0x99).unwrap();
    assert_eq!(run(&mut cpu, 2), vec![2, 6]);
    assert_eq!(cpu.a, 0x99);
}

#[test]
fn branch_cycles() {
    // LDA #$00; BEQ +2; NOP; NOP; BNE +0
    let mut cpu = cpu_with(&[0xA9, 0x00, 0xF0, 0x02, 0xEA, 0xEA, 0xD0, 0x00]);
    assert_eq!(run(&mut cpu, 2), vec![2, 3]);
    assert_eq!(cpu.pc, 0x8006);
    assert_eq!(run(&mut cpu, 1), vec![2]);
    assert_eq!(cpu.pc, 0x8008);
}

#[test]
fn branch_backwards_across_a_page() {
    // LDA #$00; BEQ -5 (from 0x8004 to 0x7FFF)
    let mut cpu = cpu_with(&[0xA9, 0x00, 0xF0, 0xFB]);
    assert_eq!(run(&mut cpu, 2), vec![2, 4]);
    assert_eq!(cpu.pc, 0x7FFF);
}

#[test]
fn halting_opcode_is_illegal() {
    let mut cpu = cpu_with(&[0xEA, 0x02]);
    run(&mut cpu, 1);
    assert_eq!(
        cpu.execute_next_instruction(),
        Err(NesError::IllegalOpcode { opcode: 0x02, pc: 0x8001 })
    );
}

#[test]
fn nmi_is_serviced_before_the_next_fetch() {
    let mut cpu = cpu_with(&[0xEA]);
    cpu.raise_nmi();
    assert_eq!(run(&mut cpu, 1), vec![7]);
    assert_eq!(cpu.pc, 0xA000);
    assert_eq!(cpu.bus.ram[0x01FF], 0x80);
    assert_eq!(cpu.bus.ram[0x01FE], 0x00);
    assert!(!cpu.nmi_pending);
}

#[test]
fn irq_waits_while_disabled() {
    // CLI
    let mut cpu = cpu_with(&[0x58, 0xEA]);
    cpu.p = IRQ_DISABLE;
    cpu.raise_irq();
    assert_eq!(run(&mut cpu, 1), vec![2]);
    assert_eq!(cpu.pc, 0x8001);
    assert_eq!(run(&mut cpu, 1), vec![7]);
    assert_eq!(cpu.pc, 0x9000);
    assert_eq!(cpu.bus.ram[0x01FD], 0x20);
    assert_eq!(cpu.p, IRQ_DISABLE);
}

#[test]
fn stall_cycles_are_drained_first() {
    let mut cpu = cpu_with(&[0xEA]);
    cpu.bus.stall(2);
    assert_eq!(run(&mut cpu, 3), vec![1, 1, 2]);
    assert_eq!(cpu.pc, 0x8001);
}

#[test]
fn read_modify_write_combined() {
    // LDA #$01; SLO $10; DCP $11
    let mut cpu = cpu_with(&[0xA9, 0x01, 0x07, 0x10, 0xC7, 0x11]);
    cpu.bus.write(0x0010, 0x81).unwrap();
    cpu.bus.write(0x0011, 0x03).unwrap();
    assert_eq!(run(&mut cpu, 2), vec![2, 5]);
    assert_eq!(cpu.bus.ram[0x10], 0x02);
    assert_eq!(cpu.a, 0x03);
    assert_eq!(cpu.p & CARRY, CARRY);
    run(&mut cpu, 1);
    assert_eq!(cpu.bus.ram[0x11], 0x02);
    assert_eq!(cpu.p & (CARRY | ZERO), CARRY);
}

#[test]
fn transfers_and_counters() {
    // LDX #$FF; INX; TXA; DEX; TXS; TSX; LDY #$80; DEY
    let mut cpu = cpu_with(&[0xA2, 0xFF, 0xE8, 0x8A, 0xCA, 0x9A, 0xBA, 0xA0, 0x80, 0x88]);
    run(&mut cpu, 2);
    assert_eq!(cpu.x, 0);
    assert_eq!(cpu.p & ZERO, ZERO);
    run(&mut cpu, 4);
    assert_eq!(cpu.a, 0);
    assert_eq!(cpu.sp, 0xFF);
    assert_eq!(cpu.x, 0xFF);
    run(&mut cpu, 2);
    assert_eq!(cpu.y, 0x7F);
    assert_eq!(cpu.p & NEGATIVE, 0);
}

#[test]
fn shifts_and_rotates() {
    // SEC; LDA #$81; ROR A; ROL A; ASL A; LSR A
    let mut cpu = cpu_with(&[0x38, 0xA9, 0x81, 0x6A, 0x2A, 0x0A, 0x4A]);
    run(&mut cpu, 3);
    assert_eq!(cpu.a, 0xC0);
    assert_eq!(cpu.p & CARRY, CARRY);
    run(&mut cpu, 1);
    assert_eq!(cpu.a, 0x81);
    assert_eq!(cpu.p & CARRY, CARRY);
    run(&mut cpu, 1);
    assert_eq!(cpu.a, 0x02);
    assert_eq!(cpu.p & CARRY, CARRY);
    run(&mut cpu, 1);
    assert_eq!(cpu.a, 0x01);
    assert_eq!(cpu.p & CARRY, 0);
}

#[test]
fn cycle_table_matches_canonical_counts() {
    let base: [u8; 256] = [
        7, 6, 2, 8, 3, 3, 5, 5, 3, 2, 2, 2, 4, 4, 6, 6, 2, 5, 2, 8, 4, 4, 6, 6, 2, 4, 2, 7, 4, 4, 7, 7,
        6, 6, 2, 8, 3, 3, 5, 5, 4, 2, 2, 2, 4, 4, 6, 6, 2, 5, 2, 8, 4, 4, 6, 6, 2, 4, 2, 7, 4, 4, 7, 7,
        6, 6, 2, 8, 3, 3, 5, 5, 3, 2, 2, 2, 3, 4, 6, 6, 2, 5, 2, 8, 4, 4, 6, 6, 2, 4, 2, 7, 4, 4, 7, 7,
        6, 6, 2, 8, 3, 3, 5, 5, 4, 2, 2, 2, 5, 4, 6, 6, 2, 5, 2, 8, 4, 4, 6, 6, 2, 4, 2, 7, 4, 4, 7, 7,
        2, 6, 2, 6, 3, 3, 3, 3, 2, 2, 2, 2, 4, 4, 4, 4, 2, 6, 2, 6, 4, 4, 4, 4, 2, 5, 2, 5, 5, 5, 5, 5,
        2, 6, 2, 6, 3, 3, 3, 3, 2, 2, 2, 2, 4, 4, 4, 4, 2, 5, 2, 5, 4, 4, 4, 4, 2, 4, 2, 4, 4, 4, 4, 4,
        2, 6, 2, 8, 3, 3, 5, 5, 2, 2, 2, 2, 4, 4, 6, 6, 2, 5, 2, 8, 4, 4, 6, 6, 2, 4, 2, 7, 4, 4, 7, 7,
        2, 6, 2, 8, 3, 3, 5, 5, 2, 2, 2, 2, 4, 4, 6, 6, 2, 5, 2, 8, 4, 4, 6, 6, 2, 4, 2, 7, 4, 4, 7, 7,
    ];
    let page_penalty: [u8; 32] = [
        0x11, 0x19, 0x1C, 0x1D, 0x31, 0x39, 0x3C, 0x3D, 0x51, 0x59, 0x5C, 0x5D, 0x71, 0x79, 0x7C,
        0x7D, 0xB1, 0xB3, 0xB9, 0xBB, 0xBC, 0xBD, 0xBE, 0xBF, 0xD1, 0xD9, 0xDC, 0xDD, 0xF1, 0xF9,
        0xFC, 0xFD,
    ];
    let mut decoded = 0;
    for opcode in 0..=255u8 {
        let Some(i) = decode(opcode) else { continue };
        decoded += 1;
        assert_eq!(instruction_cycles(i, false, false, false), base[opcode as usize], "{:02X}", opcode);
        if i.op.access() != Access::Branch {
            let extra = if page_penalty.contains(&opcode) { 1 } else { 0 };
            assert_eq!(instruction_cycles(i, true, false, false), base[opcode as usize] + extra, "{:02X}", opcode);
        } else {
            assert_eq!(instruction_cycles(i, false, true, false), 3);
            assert_eq!(instruction_cycles(i, false, true, true), 4);
        }
    }
    assert_eq!(decoded, 244);
}

#[test]
fn nmi_after_reset_pushes_break_clear() {
    let mut cpu = cpu_with(&[0xEA]);
    assert_eq!(cpu.p, 0x34);
    cpu.raise_nmi();
    assert_eq!(run(&mut cpu, 1), vec![7]);
    assert_eq!(cpu.bus.cycles, 7 + 7);
    let status = cpu.bus.ram[0x01FD];
    assert_eq!(status & BREAK, 0);
    assert_eq!(status, 0x24);
    assert_eq!(cpu.sp, 0xFC);
}

#[test]
fn masked_irq_entry_changes_nothing() {
    let mut cpu = cpu_with(&[0xEA]);
    assert_eq!(cpu.p & IRQ_DISABLE, IRQ_DISABLE);
    let ram = cpu.bus.ram.clone();
    let cycles = cpu.bus.cycles;
    assert_eq!(cpu.interrupt(InterruptType::IRQ), Ok(()));
    assert_eq!(cpu.pc, 0x8000);
    assert_eq!(cpu.sp, 0xFF);
    assert_eq!(cpu.p, 0x34);
    assert_eq!(cpu.bus.ram, ram);
    assert_eq!(cpu.bus.cycles, cycles);
}

#[test]
fn interrupt_entry_spends_its_budget() {
    let mut cpu = cpu_with(&[0xEA]);
    let start = cpu.bus.cycles;
    cpu.interrupt(InterruptType::RESET).unwrap();
    assert_eq!(cpu.bus.cycles, start + 5);
    assert_eq!(cpu.sp, 0xFF);
    assert_eq!(cpu.pc, 0x8000);
    cpu.interrupt(InterruptType::NMI).unwrap();
    assert_eq!(cpu.bus.cycles, start + 7);
    assert_eq!(cpu.pc, 0xA000);
    cpu.p = 0;
    cpu.interrupt(InterruptType::IRQ).unwrap();
    assert_eq!(cpu.bus.cycles, start + 9);
    assert_eq!(cpu.pc, 0x9000);
    assert_eq!(cpu.bus.ram[0x01FA], 0x20);
    cpu.interrupt(InterruptType::BRK).unwrap();
    assert_eq!(cpu.bus.cycles, start + 10);
    assert_eq!(cpu.bus.ram[0x01F7], 0x34);
}
