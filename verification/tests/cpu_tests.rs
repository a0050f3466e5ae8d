use nes_core::apu::Apu;
use nes_core::bus::Bus;
use nes_core::cpu::Cpu;
use nes_core::mapper::from_file;
use nes_core::ppu::Ppu;
use nes_core::error::NesError;
use nes_core::nes::Nes;

fn image_with(program: &[u8], chr_fill: u8) -> Vec<u8> {
    let mut bytes = vec![0x4E, 0x45, 0x53, 0x1A, 1, 1, 0, 0];
    bytes.extend_from_slice(&[0u8; 8]);
    let mut prg = vec![0xEAu8; 16384];
    prg[..program.len()].copy_from_slice(program);
    // NMI vector 0x9000, reset vector 0x8000, break vector 0xA000
    prg[0x3FFA] = 0x00;
    prg[0x3FFB] = 0x90;
    prg[0x3FFC] = 0x00;
    prg[0x3FFD] = 0x80;
    prg[0x3FFE] = 0x00;
    prg[0x3FFF] = 0xA0;
    bytes.extend_from_slice(&prg);
    bytes.extend_from_slice(&vec![chr_fill; 8192]);
    bytes
}

fn machine(program: &[u8]) -> Cpu {
    let mut nes = Nes::new(&image_with(program, 0)).unwrap();
    nes.powerup();
    nes.cpu
}

fn flag(cpu: &Cpu, mask: u8) -> bool {
    cpu.p & mask != 0
}

const C: u8 = 0x01;
const Z: u8 = 0x02;
const I: u8 = 0x04;
const V: u8 = 0x40;
const N: u8 = 0x80;

#[test]
fn adc_sets_negative_and_overflow() {
    let mut cpu = machine(&[0xA9, 0x50, 0x18, 0x69, 0x50]);
    assert_eq!(cpu.step(), Ok(2));
    assert_eq!(cpu.a, 0x50);
    assert_eq!(cpu.step(), Ok(2));
    assert_eq!(cpu.step(), Ok(2));
    assert_eq!(cpu.a, 0xA0);
    assert!(flag(&cpu, N));
    assert!(flag(&cpu, V));
    assert!(!flag(&cpu, Z));
    assert!(!flag(&cpu, C));
}

#[test]
fn adc_carries_out_and_in() {
    let mut cpu = machine(&[0xA9, 0xFF, 0x69, 0x01, 0x69, 0x00]);
    cpu.step().unwrap();
    cpu.step().unwrap();
    assert_eq!(cpu.a, 0x00);
    assert!(flag(&cpu, C));
    assert!(flag(&cpu, Z));
    assert!(!flag(&cpu, V));
    cpu.step().unwrap();
    assert_eq!(cpu.a, 0x01);
    assert!(!flag(&cpu, C));
}

#[test]
fn sbc_borrows_from_inverted_carry() {
    // SEC; LDA #$50; SBC #$F0 -> 0x60, borrow, no overflow
    let mut cpu = machine(&[0x38, 0xA9, 0x50, 0xE9, 0xF0, 0xE9, 0x70]);
    cpu.step().unwrap();
    cpu.step().unwrap();
    cpu.step().unwrap();
    assert_eq!(cpu.a, 0x60);
    assert!(!flag(&cpu, C));
    assert!(!flag(&cpu, V));
    // carry clear: 0x60 - 0x70 - 1 = 0xEF
    cpu.step().unwrap();
    assert_eq!(cpu.a, 0xEF);
    assert!(!flag(&cpu, C));
    assert!(flag(&cpu, N));
    // SEC; LDA #$50; SBC #$B0 -> 0xA0 with overflow
    let mut cpu = machine(&[0x38, 0xA9, 0x50, 0xE9, 0xB0]);
    cpu.step().unwrap();
    cpu.step().unwrap();
    cpu.step().unwrap();
    assert_eq!(cpu.a, 0xA0);
    assert!(flag(&cpu, V));
    assert!(!flag(&cpu, C));
}

#[test]
fn lda_sta_through_zero_page() {
    let mut cpu = machine(&[0xA5, 0x10, 0x85, 0x20]);
    cpu.bus.store_u8(0x0010, 0xAB).unwrap();
    assert_eq!(cpu.step(), Ok(3));
    assert_eq!(cpu.step(), Ok(3));
    assert_eq!(cpu.bus.load_u8(0x0020), 0xAB);
    assert_eq!(cpu.a, 0xAB);
    assert!(flag(&cpu, N));
    assert!(!flag(&cpu, Z));
}

#[test]
fn push_then_pull_returns_the_byte() {
    let mut cpu = machine(&[]);
    let s = cpu.s;
    cpu.pushb(0x5C);
    assert_eq!(cpu.s, s.wrapping_sub(1));
    assert_eq!(cpu.popb(), 0x5C);
    assert_eq!(cpu.s, s);
    cpu.pushw(0xBEEF);
    assert_eq!(cpu.s, s.wrapping_sub(2));
    assert_eq!(cpu.popw(), 0xBEEF);
    assert_eq!(cpu.s, s);
    cpu.s = 0x00;
    cpu.pushw(0x1234);
    assert_eq!(cpu.s, 0xFE);
    assert_eq!(cpu.bus.load_u8(0x0100), 0x12);
    assert_eq!(cpu.bus.load_u8(0x01FF), 0x34);
    assert_eq!(cpu.popw(), 0x1234);
}

#[test]
fn jsr_and_rts() {
    // 0x8000: JSR $8005 ; 0x8003: NOP NOP ; 0x8005: RTS
    let mut cpu = machine(&[0x20, 0x05, 0x80, 0xEA, 0xEA, 0x60]);
    assert_eq!(cpu.step(), Ok(6));
    assert_eq!(cpu.pc, 0x8005);
    assert_eq!(cpu.s, 0xFB);
    assert_eq!(cpu.bus.load_u8(0x01FD), 0x80);
    assert_eq!(cpu.bus.load_u8(0x01FC), 0x02);
    assert_eq!(cpu.step(), Ok(6));
    assert_eq!(cpu.pc, 0x8003);
    assert_eq!(cpu.s, 0xFD);
}

#[test]
fn brk_pushes_and_jumps_through_vector() {
    let mut cpu = machine(&[0x00]);
    cpu.p = 0x00;
    assert_eq!(cpu.step(), Ok(7));
    assert_eq!(cpu.pc, 0xA000);
    assert!(flag(&cpu, I));
    assert_eq!(cpu.bus.load_u8(0x01FD), 0x80);
    assert_eq!(cpu.bus.load_u8(0x01FC), 0x02);
    assert_eq!(cpu.bus.load_u8(0x01FB), 0x30);
}

#[test]
fn php_sets_both_b_bits_and_plp_ignores_them() {
    // PHP ; LDA #$FF ; PHA ; PLP
    let mut cpu = machine(&[0x08, 0xA9, 0xFF, 0x48, 0x28]);
    cpu.p = 0x01;
    cpu.step().unwrap();
    assert_eq!(cpu.bus.load_u8(0x01FD), 0x31);
    cpu.step().unwrap();
    cpu.step().unwrap();
    let before = cpu.p;
    cpu.step().unwrap();
    assert_eq!(cpu.p, 0xCF | (before & 0x30));
}

#[test]
fn branch_costs_depend_on_page() {
    // BNE +2 taken, same page: 3 cycles
    let mut cpu = machine(&[0xD0, 0x02]);
    cpu.p = 0x00;
    assert_eq!(cpu.step(), Ok(3));
    assert_eq!(cpu.pc, 0x8004);
    // not taken: 2 cycles
    let mut cpu = machine(&[0xF0, 0x02]);
    cpu.p = 0x00;
    assert_eq!(cpu.step(), Ok(2));
    assert_eq!(cpu.pc, 0x8002);
    // backwards across a page: 4 cycles
    let mut cpu = machine(&[0xD0, 0xFB]);
    cpu.p = 0x00;
    assert_eq!(cpu.step(), Ok(4));
    assert_eq!(cpu.pc, 0x7FFD);
}

#[test]
fn absolute_x_read_pays_for_page_cross() {
    // LDX #$01 ; LDA $00FF,X ; LDA $0010,X
    let mut cpu = machine(&[0xA2, 0x01, 0xBD, 0xFF, 0x00, 0xBD, 0x10, 0x00]);
    cpu.bus.store_u8(0x0100, 0x42).unwrap();
    cpu.bus.store_u8(0x0011, 0x24).unwrap();
    cpu.step().unwrap();
    assert_eq!(cpu.step(), Ok(5));
    assert_eq!(cpu.a, 0x42);
    assert_eq!(cpu.step(), Ok(4));
    assert_eq!(cpu.a, 0x24);
}

#[test]
fn zero_page_x_wraps_in_page_zero() {
    // LDX #$20 ; LDA $F0,X -> reads 0x0010
    let mut cpu = machine(&[0xA2, 0x20, 0xB5, 0xF0]);
    cpu.bus.store_u8(0x0010, 0x77).unwrap();
    cpu.bus.store_u8(0x0110, 0x11).unwrap();
    cpu.step().unwrap();
    cpu.step().unwrap();
    assert_eq!(cpu.a, 0x77);
}

#[test]
fn indirect_jump_keeps_the_page_of_the_pointer() {
    // JMP ($02FF): low from 0x02FF, high from 0x0200
    let mut cpu = machine(&[0x6C, 0xFF, 0x02]);
    cpu.bus.store_u8(0x02FF, 0x34).unwrap();
    cpu.bus.store_u8(0x0200, 0x12).unwrap();
    cpu.bus.store_u8(0x0300, 0x56).unwrap();
    assert_eq!(cpu.step(), Ok(5));
    assert_eq!(cpu.pc, 0x1234);
}

#[test]
fn indirect_indexed_modes() {
    // LDX #$04 ; LDA ($10,X) ; LDY #$10 ; LDA ($20),Y
    let mut cpu = machine(&[0xA2, 0x04, 0xA1, 0x10, 0xA0, 0x10, 0xB1, 0x20]);
    cpu.bus.store_u8(0x0014, 0x00).unwrap();
    cpu.bus.store_u8(0x0015, 0x03).unwrap();
    cpu.bus.store_u8(0x0300, 0x5A).unwrap();
    cpu.bus.store_u8(0x0020, 0xF8).unwrap();
    cpu.bus.store_u8(0x0021, 0x03).unwrap();
    cpu.bus.store_u8(0x0408, 0xA5).unwrap();
    cpu.step().unwrap();
    assert_eq!(cpu.step(), Ok(6));
    assert_eq!(cpu.a, 0x5A);
    cpu.step().unwrap();
    assert_eq!(cpu.step(), Ok(6));
    assert_eq!(cpu.a, 0xA5);
}

#[test]
fn shifts_and_rotates() {
    // LDA #$81 ; ASL A ; ROL A ; LSR A ; ROR A
    let mut cpu = machine(&[0xA9, 0x81, 0x0A, 0x2A, 0x4A, 0x6A]);
    cpu.p = 0x00;
    cpu.step().unwrap();
    cpu.step().unwrap();
    assert_eq!(cpu.a, 0x02);
    assert!(flag(&cpu, C));
    cpu.step().unwrap();
    assert_eq!(cpu.a, 0x05);
    assert!(!flag(&cpu, C));
    cpu.step().unwrap();
    assert_eq!(cpu.a, 0x02);
    assert!(flag(&cpu, C));
    cpu.step().unwrap();
    assert_eq!(cpu.a, 0x81);
    assert!(!flag(&cpu, C));
    assert!(flag(&cpu, N));
}

#[test]
fn inc_dec_memory_and_registers() {
    // INC $10 ; DEC $11 ; INX ; DEY
    let mut cpu = machine(&[0xE6, 0x10, 0xC6, 0x11, 0xE8, 0x88]);
    cpu.bus.store_u8(0x0010, 0xFF).unwrap();
    assert_eq!(cpu.step(), Ok(5));
    assert_eq!(cpu.bus.load_u8(0x0010), 0x00);
    assert!(flag(&cpu, Z));
    cpu.step().unwrap();
    assert_eq!(cpu.bus.load_u8(0x0011), 0xFF);
    assert!(flag(&cpu, N));
    cpu.step().unwrap();
    assert_eq!(cpu.x, 1);
    cpu.step().unwrap();
    assert_eq!(cpu.y, 0xFF);
}

#[test]
fn compare_and_bit() {
    // LDA #$40 ; CMP #$40 ; CMP #$41 ; BIT $10
    let mut cpu = machine(&[0xA9, 0x40, 0xC9, 0x40, 0xC9, 0x41, 0x24, 0x10]);
    cpu.bus.store_u8(0x0010, 0xC0).unwrap();
    cpu.step().unwrap();
    cpu.step().unwrap();
    assert!(flag(&cpu, C) && flag(&cpu, Z) && !flag(&cpu, N));
    cpu.step().unwrap();
    assert!(!flag(&cpu, C) && !flag(&cpu, Z) && flag(&cpu, N));
    cpu.step().unwrap();
    assert!(flag(&cpu, N) && flag(&cpu, V) && !flag(&cpu, Z));
}

#[test]
fn combined_opcodes() {
    // LDA #$01 ; ASO $10 (0x07) ; LAX $10 (0xA7) ; AXS $11 (0x87) ; DCM $10 (0xC7) ; INS $10 (0xE7)
    let mut cpu = machine(&[0xA9, 0x01, 0x07, 0x10, 0xA7, 0x10, 0x87, 0x11, 0xC7, 0x10, 0xE7, 0x10]);
    cpu.bus.store_u8(0x0010, 0x42).unwrap();
    cpu.step().unwrap();
    assert_eq!(cpu.step(), Ok(5));
    assert_eq!(cpu.bus.load_u8(0x0010), 0x84);
    assert_eq!(cpu.a, 0x85);
    assert_eq!(cpu.pc, 0x8004);
    cpu.step().unwrap();
    assert_eq!((cpu.a, cpu.x), (0x84, 0x84));
    cpu.a = 0xF0;
    cpu.x = 0x3C;
    cpu.step().unwrap();
    assert_eq!(cpu.bus.load_u8(0x0011), 0x30);
    cpu.a = 0x83;
    cpu.step().unwrap();
    assert_eq!(cpu.bus.load_u8(0x0010), 0x83);
    assert!(flag(&cpu, Z) && flag(&cpu, C));
    cpu.a = 0x90;
    cpu.p = 0x01;
    cpu.step().unwrap();
    assert_eq!(cpu.bus.load_u8(0x0010), 0x84);
    assert_eq!(cpu.a, 0x0C);
}

#[test]
fn rla_lse_rra() {
    // RLA $10 (0x27) ; LSE $11 (0x47) ; RRA $12 (0x67)
    let mut cpu = machine(&[0x27, 0x10, 0x47, 0x11, 0x67, 0x12]);
    cpu.bus.store_u8(0x0010, 0x81).unwrap();
    cpu.bus.store_u8(0x0011, 0x03).unwrap();
    cpu.bus.store_u8(0x0012, 0x02).unwrap();
    cpu.a = 0x0F;
    cpu.p = 0x01;
    cpu.step().unwrap();
    assert_eq!(cpu.bus.load_u8(0x0010), 0x03);
    assert_eq!(cpu.a, 0x03);
    assert!(flag(&cpu, C));
    cpu.step().unwrap();
    assert_eq!(cpu.bus.load_u8(0x0011), 0x01);
    assert_eq!(cpu.a, 0x02);
    assert!(flag(&cpu, C));
    cpu.step().unwrap();
    // 0x02 rotated right with carry in: 0x81, carry out 0; A = 0x02 + 0x81
    assert_eq!(cpu.bus.load_u8(0x0012), 0x81);
    assert_eq!(cpu.a, 0x83);
}

#[test]
fn skips_and_nops() {
    // SKB (0x80) ; SKW (0x0C) ; NOP (0x1A) ; NOP
    let mut cpu = machine(&[0x80, 0xFF, 0x0C, 0xFF, 0xFF, 0x1A, 0xEA]);
    assert_eq!(cpu.step(), Ok(2));
    assert_eq!(cpu.pc, 0x8002);
    assert_eq!(cpu.step(), Ok(4));
    assert_eq!(cpu.pc, 0x8005);
    assert_eq!(cpu.step(), Ok(2));
    assert_eq!(cpu.pc, 0x8006);
}

#[test]
fn halt_is_fatal() {
    let mut cpu = machine(&[0xEA, 0x02]);
    assert_eq!(cpu.step(), Ok(2));
    assert_eq!(cpu.step(), Err(NesError::FatalCpuHalt));
    let mut cpu = machine(&[0xEA, 0xEA, 0x12]);
    let mut sink = Vec::new();
    assert_eq!(cpu.run(100, &mut sink), Err(NesError::FatalCpuHalt));
    assert_eq!(cpu.pc, 0x8003);
}

#[test]
fn store_to_rom_is_reported() {
    // STA $8000
    let mut cpu = machine(&[0x8D, 0x00, 0x80]);
    assert_eq!(cpu.step(), Err(NesError::RomWrite));
    assert_eq!(cpu.bus.load_u8(0x8000), 0x8D);
    // STA $6000 is work RAM on the cartridge
    let mut cpu = machine(&[0xA9, 0x5A, 0x8D, 0x00, 0x60]);
    cpu.step().unwrap();
    assert_eq!(cpu.step(), Ok(4));
    assert_eq!(cpu.bus.load_u8(0x6000), 0x5A);
}

#[test]
fn run_consumes_at_least_the_budget() {
    let mut cpu = machine(&[]);
    let mut sink = Vec::new();
    let before = cpu.cycles;
    let total = cpu.run(101, &mut sink).unwrap();
    assert_eq!(total, 102);
    assert_eq!(cpu.cycles - before, 102);
    assert_eq!(cpu.pc, 0x8000 + 51);
    let total = cpu.run(0, &mut sink).unwrap();
    assert_eq!(total, 0);
}

#[test]
fn reset_lowers_stack_and_reloads_vector() {
    let mut cpu = machine(&[0xEA]);
    cpu.step().unwrap();
    cpu.p = 0x00;
    cpu.reset();
    assert_eq!(cpu.s, 0xFA);
    assert_eq!(cpu.pc, 0x8000);
    assert!(flag(&cpu, I));
    assert_eq!(cpu.cycles, 0);
    cpu.reset();
    assert_eq!(cpu.s, 0xF7);
    assert_eq!(cpu.pc, 0x8000);
    cpu.s = 0x01;
    cpu.reset();
    assert_eq!(cpu.s, 0xFE);
}

#[test]
fn nmi_is_taken_on_the_rising_edge() {
    let mut cpu = machine(&[0xEA, 0xEA, 0xEA]);
    let mut sink = Vec::new();
    cpu.bus.store_u8(0x2000, 0x80).unwrap();
    assert!(!cpu.bus.pending_nmi());
    // from the parked beam, vertical blank starts three dots later
    cpu.bus.run(1, &mut sink);
    assert_eq!((cpu.bus.ppu.scanline, cpu.bus.ppu.cycles), (241, 2));
    assert!(cpu.bus.pending_nmi());
    let pc = cpu.pc;
    assert_eq!(cpu.step(), Ok(9));
    // the handler's first instruction has run
    assert_eq!(cpu.pc, 0x9001);
    assert_eq!(cpu.bus.load_u8(0x01FD), (pc >> 8) as u8);
    assert_eq!(cpu.bus.load_u8(0x01FC), (pc & 0xFF) as u8);
    // the line stays high: no second entry
    assert_eq!(cpu.step(), Ok(2));
    assert_eq!(cpu.pc, 0x9002);
}

#[test]
fn sprite_dma_copies_a_page_and_stalls() {
    // LDA #$02 ; STA $4014
    let mut cpu = machine(&[0xA9, 0x02, 0x8D, 0x14, 0x40]);
    for i in 0..256u16 {
        cpu.bus.store_u8(0x0200 + i, (i as u8) ^ 0x5A).unwrap();
    }
    cpu.step().unwrap();
    let dots_before = (cpu.bus.ppu.scanline, cpu.bus.ppu.cycles);
    assert_eq!(dots_before, (240, 340));
    let cycles = cpu.step().unwrap();
    assert_eq!(cycles, 4 + 513);
    for i in 0..256usize {
        assert_eq!(cpu.bus.ppu.oam[i], (i as u8) ^ 0x5A);
    }
    assert_eq!(cpu.bus.ppu_ahead, 1536);
    // 1536 dots from (240, 340): 4 lines and 172 dots
    assert_eq!((cpu.bus.ppu.scanline, cpu.bus.ppu.cycles), (245, 171));
    let mut sink = Vec::new();
    cpu.bus.run(cycles, &mut sink);
    assert_eq!(cpu.bus.ppu_ahead, 0);
    // 3 * 517 dots in all
    assert_eq!((cpu.bus.ppu.scanline, cpu.bus.ppu.cycles), (245, 171 + 15));
}

#[test]
fn unstable_stores_use_the_high_byte() {
    // LDY #$01 ; LDX #$FF ; XAS $0210,Y (0x9E) -> X & (0x02 + 1) at 0x0211
    let mut cpu = machine(&[0xA0, 0x01, 0xA2, 0xFF, 0x9E, 0x10, 0x02]);
    cpu.step().unwrap();
    cpu.step().unwrap();
    cpu.step().unwrap();
    assert_eq!(cpu.bus.load_u8(0x0211), 0x03);
}

#[test]
fn processors_keep_step_with_the_cpu() {
    // LDA #$02 ; STA $4014 ; then no-ops
    let mut cpu = machine(&[0xA9, 0x02, 0x8D, 0x14, 0x40]);
    let mut sink = Vec::new();
    let total = cpu.run(1000, &mut sink).unwrap();
    assert_eq!(total, 2 + 4 + 513 + 2 * 241);
    assert_eq!(cpu.cycles, total);
    assert_eq!(cpu.bus.apu.cycle, total);
    assert_eq!(cpu.bus.ppu_ahead, 0);
    // three dots a cycle from the parked beam at (240, 340)
    let dots = 3 * total + 240 * 341 + 340;
    assert_eq!((cpu.bus.ppu.scanline as u64, cpu.bus.ppu.cycles as u64), (dots / 341, dots % 341));
}

#[test]
fn interrupt_entry_counts_toward_the_budget() {
    let mut cpu = machine(&[0xEA]);
    let mut sink = Vec::new();
    cpu.bus.store_u8(0x2000, 0x80).unwrap();
    cpu.bus.ppu.ppu_status = 0x80;
    // the entry and the handler's first instruction make one step
    let total = cpu.run(1, &mut sink).unwrap();
    assert_eq!(total, 7 + 2);
    assert_eq!(cpu.pc, 0x9001);
}

#[test]
fn frame_interrupt_is_masked_by_the_flag() {
    // CLI ; NOP ; NOP
    let mut cpu = machine(&[0x58, 0xEA, 0xEA]);
    cpu.bus.apu.irq_pending = true;
    // power-up leaves interrupts disabled
    assert_eq!(cpu.step(), Ok(2));
    assert_eq!(cpu.pc, 0x8001);
    assert_eq!(cpu.p & I, 0);
    // now the request gets through: entry, then the handler's first instruction
    let p = cpu.p;
    assert_eq!(cpu.step(), Ok(7 + 2));
    assert_eq!(cpu.pc, 0xA001);
    assert_eq!(cpu.p & I, I);
    assert_eq!(cpu.bus.load_u8(0x01FD), 0x80);
    assert_eq!(cpu.bus.load_u8(0x01FC), 0x01);
    assert_eq!(cpu.bus.load_u8(0x01FB), p | 0x30);
    // in the handler the request is masked again
    assert_eq!(cpu.step(), Ok(2));
    assert_eq!(cpu.pc, 0xA002);
}

#[test]
fn sprite_dma_takes_a_cycle_more_from_an_odd_cycle() {
    // LDA #$02 ; STA $4014 from an even count, then from an odd one
    let mut cpu = machine(&[0xA9, 0x02, 0x8D, 0x14, 0x40]);
    cpu.step().unwrap();
    assert_eq!(cpu.cycles % 2, 0);
    assert_eq!(cpu.step(), Ok(4 + 513));
    let mut cpu = machine(&[0xA9, 0x02, 0x8D, 0x14, 0x40]);
    cpu.step().unwrap();
    cpu.cycles = 7;
    assert_eq!(cpu.step(), Ok(4 + 514));
    assert_eq!(cpu.cycles, 7 + 518);
}

#[test]
fn flag_and_transfer_instructions() {
    // SEC SED SEI CLC CLD CLI ; LDA #$80 ; TAX ; TAY ; TXS ; LDX #$00 ; TSX ; TYA ; CLV
    let mut cpu = machine(&[
        0x38, 0xF8, 0x78, 0x18, 0xD8, 0x58, 0xA9, 0x80, 0xAA, 0xA8, 0x9A, 0xA2, 0x00, 0xBA, 0x98, 0xB8,
    ]);
    cpu.p = 0x40;
    for _ in 0..3 {
        cpu.step().unwrap();
    }
    assert_eq!(cpu.p, 0x4D);
    for _ in 0..3 {
        cpu.step().unwrap();
    }
    assert_eq!(cpu.p, 0x40);
    for _ in 0..4 {
        cpu.step().unwrap();
    }
    assert_eq!((cpu.a, cpu.x, cpu.y, cpu.s), (0x80, 0x80, 0x80, 0x80));
    cpu.step().unwrap();
    assert!(flag(&cpu, Z));
    cpu.step().unwrap();
    assert_eq!(cpu.x, 0x80);
    assert!(flag(&cpu, N) && !flag(&cpu, Z));
    cpu.step().unwrap();
    cpu.step().unwrap();
    assert!(!flag(&cpu, V));
}

#[test]
fn rti_restores_status_and_address() {
    // the handler at 0x9000 is RTI
    let mut bytes = image_with(&[0xEA, 0xEA], 0);
    bytes[16 + 0x1000] = 0x40;
    let mut nes = Nes::new(&bytes).unwrap();
    nes.powerup();
    let mut cpu = nes.cpu;
    cpu.p = 0x81;
    cpu.bus.store_u8(0x2000, 0x80).unwrap();
    cpu.bus.ppu.ppu_status = 0x80;
    assert_eq!(cpu.step(), Ok(7 + 6));
    assert_eq!(cpu.pc, 0x8000);
    assert_eq!(cpu.p, 0x81);
    assert_eq!(cpu.s, 0xFD);
}

#[test]
fn ins_absolute_y_works_on_the_one_operand() {
    let mapper = from_file(&image_with(&[], 0)).unwrap();
    let ppu = Ppu::new(&mapper);
    let mut cpu = Cpu::new(Bus::new(mapper, ppu, Apu::new()));
    assert_eq!(cpu.pc, 0x0400);
    cpu.p = 0x34;
    // LDX #$01 ; INS $0200,Y
    for (i, b) in [0xA2u8, 0x01, 0xFB, 0x00, 0x02].iter().enumerate() {
        cpu.bus.store_u8(0x0400 + i as u16, *b).unwrap();
    }
    cpu.bus.store_u8(0x0200, 0x10).unwrap();
    cpu.bus.store_u8(0x0201, 0x20).unwrap();
    assert_eq!(cpu.step(), Ok(2));
    assert_eq!(cpu.step(), Ok(7));
    assert_eq!(cpu.bus.load_u8(0x0200), 0x11);
    assert_eq!(cpu.bus.load_u8(0x0201), 0x20);
    assert_eq!(cpu.a, 0xEE);
    assert_eq!(cpu.pc, 0x0405);
}

#[test]
fn combined_opcodes_with_y_index_use_y() {
    // LDY #$02 ; LDX #$01 ; then each absolute,Y form on $0300,Y
    for opcode in [0x1Bu8, 0x3B, 0x5B, 0x7B, 0xDB, 0xFB] {
        let mut cpu = machine(&[0xA0, 0x02, 0xA2, 0x01, opcode, 0x00, 0x03]);
        cpu.bus.store_u8(0x0301, 0x40).unwrap();
        cpu.bus.store_u8(0x0302, 0x40).unwrap();
        cpu.step().unwrap();
        cpu.step().unwrap();
        cpu.step().unwrap();
        assert_eq!(cpu.bus.load_u8(0x0301), 0x40, "opcode {:02X}", opcode);
        assert_ne!(cpu.bus.load_u8(0x0302), 0x40, "opcode {:02X}", opcode);
    }
}

#[test]
fn processors_catch_up_with_a_step_that_ends_the_run() {
    // NOP ; NOP ; STA $8000
    let mut cpu = machine(&[0xEA, 0xEA, 0x8D, 0x00, 0x80]);
    let mut sink = Vec::new();
    assert_eq!(cpu.run(100, &mut sink), Err(NesError::RomWrite));
    assert_eq!(cpu.cycles, 8);
    assert_eq!(cpu.bus.apu.cycle, 8);
    assert_eq!(cpu.bus.ppu_ahead, 0);
    // 24 dots from the parked beam at (240, 340)
    assert_eq!((cpu.bus.ppu.scanline, cpu.bus.ppu.cycles), (241, 23));
    // a halt consumes nothing itself
    let mut cpu = machine(&[0xEA, 0xEA, 0x12]);
    assert_eq!(cpu.run(100, &mut sink), Err(NesError::FatalCpuHalt));
    assert_eq!(cpu.cycles, 4);
    assert_eq!(cpu.bus.apu.cycle, 4);
    assert_eq!((cpu.bus.ppu.scanline, cpu.bus.ppu.cycles), (241, 11));
}
