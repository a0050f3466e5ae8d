use vstd::prelude::*;
use crate::bus::Bus;
use crate::bus::OAM_DMA;
use crate::error::NesError;
use crate::opcodes::FIRST_BRANCH_OP;
use crate::opcodes::FIRST_HIGH_STORE_OP;
use crate::opcodes::FIRST_MODIFY_OP;
use crate::opcodes::FIRST_OTHER_OP;
use crate::opcodes::FIRST_STORE_OP;
use crate::opcodes::OPCODE_CYCLES;
use crate::opcodes::OPCODE_MODE;
use crate::opcodes::OPCODE_OP;
use crate::opcodes::OP_ADC;
use crate::opcodes::OP_ALR;
use crate::opcodes::OP_ANC;
use crate::opcodes::OP_AND;
use crate::opcodes::OP_ARR;
use crate::opcodes::OP_ASL;
use crate::opcodes::OP_ASO;
use crate::opcodes::OP_BCC;
use crate::opcodes::OP_BCS;
use crate::opcodes::OP_BEQ;
use crate::opcodes::OP_BIT;
use crate::opcodes::OP_BMI;
use crate::opcodes::OP_BNE;
use crate::opcodes::OP_BPL;
use crate::opcodes::OP_BRK;
use crate::opcodes::OP_BVC;
use crate::opcodes::OP_CLC;
use crate::opcodes::OP_CLD;
use crate::opcodes::OP_CLI;
use crate::opcodes::OP_CLV;
use crate::opcodes::OP_CPA;
use crate::opcodes::OP_CPX;
use crate::opcodes::OP_CPY;
use crate::opcodes::OP_DCP;
use crate::opcodes::OP_DEC;
use crate::opcodes::OP_DEX;
use crate::opcodes::OP_DEY;
use crate::opcodes::OP_EOR;
use crate::opcodes::OP_HLT;
use crate::opcodes::OP_INC;
use crate::opcodes::OP_INS;
use crate::opcodes::OP_INX;
use crate::opcodes::OP_INY;
use crate::opcodes::OP_JMP;
use crate::opcodes::OP_JSR;
use crate::opcodes::OP_LAS;
use crate::opcodes::OP_LAX;
use crate::opcodes::OP_LDA;
use crate::opcodes::OP_LDX;
use crate::opcodes::OP_LDY;
use crate::opcodes::OP_LSE;
use crate::opcodes::OP_LSR;
use crate::opcodes::OP_OAL;
use crate::opcodes::OP_ORA;
use crate::opcodes::OP_PHA;
use crate::opcodes::OP_PHP;
use crate::opcodes::OP_PLA;
use crate::opcodes::OP_PLP;
use crate::opcodes::OP_RLA;
use crate::opcodes::OP_ROL;
use crate::opcodes::OP_ROR;
use crate::opcodes::OP_RRA;
use crate::opcodes::OP_RTI;
use crate::opcodes::OP_RTS;
use crate::opcodes::OP_SAY;
use crate::opcodes::OP_SBC;
use crate::opcodes::OP_SEC;
use crate::opcodes::OP_SED;
use crate::opcodes::OP_SEI;
use crate::opcodes::OP_SKB;
use crate::opcodes::OP_SKW;
use crate::opcodes::OP_STA;
use crate::opcodes::OP_STX;
use crate::opcodes::OP_STY;
use crate::opcodes::OP_TAS;
use crate::opcodes::OP_TAX;
use crate::opcodes::OP_TAY;
use crate::opcodes::OP_TSX;
use crate::opcodes::OP_TXA;
use crate::opcodes::OP_TXS;
use crate::opcodes::OP_TYA;
use crate::opcodes::OP_XAA;
use crate::opcodes::OP_XAS;

verus! {

pub const FLAG_CARRY: u8 = 0x01;

pub const FLAG_ZERO: u8 = 0x02;

pub const FLAG_INT: u8 = 0x04;

pub const FLAG_DEC: u8 = 0x08;

pub const FLAG_B4: u8 = 0x10;

pub const FLAG_B5: u8 = 0x20;

pub const FLAG_OVF: u8 = 0x40;

pub const FLAG_NEG: u8 = 0x80;

pub const NMI_VECTOR: u16 = 0xFFFA;

pub const RESET_VECTOR: u16 = 0xFFFC;

pub const BRK_VECTOR: u16 = 0xFFFE;

/// The stack is page 1.
pub const STACK_BASE: u16 = 0x100;

/// Cycles an interrupt entry takes.
pub const INTERRUPT_CYCLES: u64 = 7;

/// Cycles a sprite transfer takes when it starts on an even cycle; one more on an odd one.
pub const DMA_CYCLES: u64 = 513;

/// Most cycles one step consumes: interrupt entry, the longest instruction
/// with its penalties, and a sprite transfer.
pub const STEP_MAX_CYCLES: u64 = 531;

pub const MODE_IMPLIED: u8 = 0;

pub const MODE_ACCUMULATOR: u8 = 1;

pub const MODE_IMMEDIATE: u8 = 2;

pub const MODE_RELATIVE: u8 = 3;

pub const MODE_ZERO_PAGE: u8 = 4;

pub const MODE_ZERO_PAGE_X: u8 = 5;

pub const MODE_ZERO_PAGE_Y: u8 = 6;

pub const MODE_ABSOLUTE: u8 = 7;

pub const MODE_ABSOLUTE_X: u8 = 8;

pub const MODE_ABSOLUTE_Y: u8 = 9;

pub const MODE_INDIRECT: u8 = 10;

pub const MODE_INDIRECT_X: u8 = 11;

pub const MODE_INDIRECT_Y: u8 = 12;

/// The 6502 core with the machine it drives.
pub struct Cpu {
    pub a: u8,
    pub x: u8,
    pub y: u8,
    pub p: u8,
    pub s: u8,
    pub pc: u16,
    pub bus: Bus,
    /// Cycles run since power-up or reset; wraps.
    pub cycles: u64,
    /// The interrupt line as the last step saw it.
    pub prev_nmi: bool,
    /// Whether resolving the current instruction's address crossed a page.
    pub page_cross: bool,
    /// Cycles the current step has consumed so far.
    pub elapsed: u64,
    /// Whether the current instruction stored where the cartridge refuses stores.
    pub rom_fault: bool,
}

/// The status byte with `flag` set or cleared.
pub open spec fn with_flag(p: u8, flag: u8, set: bool) -> u8 {
    if set {
        p | flag
    } else {
        p & !flag
    }
}

/// The status byte with Zero and Negative set from `value`.
pub open spec fn with_nz(p: u8, value: u8) -> u8 {
    with_flag(with_flag(p, FLAG_ZERO, value == 0), FLAG_NEG, value >= 0x80)
}

/// Whether `flag` is set in the status byte.
pub open spec fn flag_set(p: u8, flag: u8) -> bool {
    p & flag == flag
}

/// The carry flag as a number.
pub open spec fn carry_in(p: u8) -> int {
    if flag_set(p, FLAG_CARRY) {
        1
    } else {
        0
    }
}

/// Whether two addresses lie in different pages.
pub open spec fn pages_differ(from: u16, to: u16) -> bool {
    from / 256 != to / 256
}

/// The address that lies a signed eight-bit `offset` from `pc`.
pub open spec fn branch_target(pc: u16, offset: u8) -> u16 {
    if offset < 0x80 {
        pc.wrapping_add(offset as u16)
    } else {
        pc.wrapping_sub((0x100 - offset) as u16)
    }
}

/// Where the high byte of an indirect jump's target is read: in the page of
/// the low byte, also when the low byte is the page's last.
pub open spec fn indirect_high(pointer: u16) -> u16 {
    ((pointer / 256) * 256 + (pointer % 256 + 1) % 256) as u16
}

impl Cpu {
    /// The machine the CPU drives is well-formed.
    pub open spec fn wf(&self) -> bool {
        self.bus.wf()
    }

    /// Whether the count of the step's cycles can grow by `more`.
    pub open spec fn has_room(&self, more: int) -> bool {
        self.elapsed + more <= u64::MAX
    }

    /// Well-formed, with room for `more` cycles in the step's count.
    pub open spec fn fits(&self, more: int) -> bool {
        self.wf() && self.has_room(more)
    }

    /// The validity between steps: well-formed, with the picture processor
    /// no dot ahead of the clock.
    pub open spec fn in_sync(&self) -> bool {
        self.wf() && self.bus.ppu_ahead == 0
    }

    /// How `after` relates to `self` when it comes from it by part of a step
    /// that consumed at most `most` cycles: the cycle counter moved with the
    /// step's count, the picture processor ran ahead by at most three dots a
    /// cycle, the clock of the processors stood still and the frame kept its
    /// colours.
    pub open spec fn leads_to(&self, after: &Cpu, most: int) -> bool {
        &&& after.wf()
        &&& self.elapsed <= after.elapsed <= self.elapsed + most
        &&& after.cycles == self.cycles.wrapping_add((after.elapsed - self.elapsed) as u64)
        &&& self.bus.ppu_ahead <= after.bus.ppu_ahead
        &&& after.bus.ppu_ahead - self.bus.ppu_ahead <= 3 * (after.elapsed - self.elapsed)
        &&& after.bus.clock == self.bus.clock
        &&& (self.bus.ppu.frame_in_palette() ==> after.bus.ppu.frame_in_palette())
    }

    /// After `n` more cycles.
    pub open spec fn after_cycles(self, n: u64) -> Cpu {
        Cpu { cycles: self.cycles.wrapping_add(n), elapsed: (self.elapsed + n) as u64, ..self }
    }

    /// After a load through the bus.
    pub open spec fn after_load(self, address: u16) -> Cpu {
        Cpu { bus: self.bus.after_load(address), ..self }
    }

    /// After the two loads of a sixteen-bit value.
    pub open spec fn after_load16(self, address: u16) -> Cpu {
        Cpu { bus: self.bus.after_load16(address), ..self }
    }

    /// Cycles a sprite transfer takes that starts now.
    pub open spec fn dma_cycles(&self) -> u64 {
        (DMA_CYCLES + self.cycles % 2) as u64
    }

    /// The machine after the CPU stored `value` at `address`. A store to the
    /// transfer register stalls the CPU for the time of the transfer; a
    /// store that the cartridge refuses is noted.
    #[verifier::opaque]
    pub open spec fn after_store(self, address: u16, value: u8) -> Cpu {
        let stored = Cpu {
            bus: self.bus.after_store(address, value),
            rom_fault: self.rom_fault || !self.bus.store_ok(address),
            ..self
        };
        if address == OAM_DMA {
            stored.after_cycles(self.dma_cycles())
        } else {
            stored
        }
    }

    /// The byte at the program counter.
    pub open spec fn next_byte(&self) -> u8 {
        self.bus.read_value(self.pc)
    }

    /// After the byte at the program counter is consumed.
    pub open spec fn after_fetch_u8(self) -> Cpu {
        Cpu { pc: self.pc.wrapping_add(1), ..self.after_load(self.pc) }
    }

    /// The two bytes at the program counter, low byte first.
    pub open spec fn next_word(&self) -> u16 {
        self.bus.read_value16(self.pc)
    }

    /// After the two bytes at the program counter are consumed.
    pub open spec fn after_fetch_u16(self) -> Cpu {
        Cpu { pc: self.pc.wrapping_add(2), ..self.after_load16(self.pc) }
    }

    /// Address of the stack slot that S points at.
    pub open spec fn stack_address(&self) -> u16 {
        (STACK_BASE + self.s) as u16
    }

    /// After a push: the byte goes where S points, then S steps down.
    pub open spec fn after_pushb(self, value: u8) -> Cpu {
        Cpu { s: self.s.wrapping_sub(1), bus: self.bus.after_store(self.stack_address(), value), ..self }
    }

    /// After a push of two bytes, the high one first.
    pub open spec fn after_pushw(self, value: u16) -> Cpu {
        self.after_pushb((value / 256) as u8).after_pushb((value % 256) as u8)
    }

    /// The byte a pull returns: S steps up first, then the byte is read.
    pub open spec fn pulled_byte(&self) -> u8 {
        self.bus.read_value((STACK_BASE + self.s.wrapping_add(1)) as u16)
    }

    /// After a pull of one byte.
    pub open spec fn after_popb(self) -> Cpu {
        Cpu {
            s: self.s.wrapping_add(1),
            bus: self.bus.after_load((STACK_BASE + self.s.wrapping_add(1)) as u16),
            ..self
        }
    }

    /// The value a pull of two bytes returns, the low byte pulled first.
    pub open spec fn pulled_word(&self) -> u16 {
        (self.pulled_byte() as u16) | ((self.after_popb().pulled_byte() as u16) << 8)
    }

    /// After a pull of two bytes.
    pub open spec fn after_popw(self) -> Cpu {
        self.after_popb().after_popb()
    }

    /// After `flag` is set or cleared.
    pub open spec fn after_set_flag(self, flag: u8, set: bool) -> Cpu {
        Cpu { p: with_flag(self.p, flag, set), ..self }
    }

    /// After Zero and Negative are set from `value`.
    pub open spec fn after_set_nz(self, value: u8) -> Cpu {
        Cpu { p: with_nz(self.p, value), ..self }
    }

    /// After a page crossing between `from` and `to`, if there is one, is noted.
    pub open spec fn after_page_wrap(self, from: u16, to: u16) -> Cpu {
        Cpu { page_cross: self.page_cross || pages_differ(from, to), ..self }
    }

    /// A zero-page address: the operand byte plus `index`, wrapping within the page.
    pub open spec fn zero_page_target(&self, index: u8) -> u16 {
        self.next_byte().wrapping_add(index) as u16
    }

    /// An absolute address: the operand word plus `index`.
    pub open spec fn absolute_target(&self, index: u8) -> u16 {
        self.next_word().wrapping_add(index as u16)
    }

    /// After an absolute address is resolved.
    pub open spec fn after_absolute_target(self, index: u8) -> Cpu {
        self.after_fetch_u16().after_page_wrap(self.next_word(), self.absolute_target(index))
    }

    /// The target of an indirect jump: the word the operand word points at,
    /// its high byte read from the page of its low byte.
    pub open spec fn indirect_target(&self) -> u16 {
        let fetched = self.after_fetch_u16();
        let pointer = self.next_word();
        (fetched.bus.read_value(pointer) as u16) | ((fetched.bus.after_load(pointer).read_value(
            indirect_high(pointer),
        ) as u16) << 8)
    }

    /// After the target of an indirect jump is resolved.
    pub open spec fn after_indirect_target(self) -> Cpu {
        self.after_fetch_u16().after_load(self.next_word()).after_load(indirect_high(self.next_word()))
    }

    /// The word at the zero-page address that the operand byte plus X names.
    pub open spec fn indirect_x_target(&self) -> u16 {
        self.after_fetch_u8().bus.read_value16(self.x.wrapping_add(self.next_byte()) as u16)
    }

    /// After an indexed-indirect address is resolved.
    pub open spec fn after_indirect_x_target(self) -> Cpu {
        self.after_fetch_u8().after_load16(self.x.wrapping_add(self.next_byte()) as u16)
    }

    /// The word at the zero-page address that the operand byte names.
    pub open spec fn indirect_y_base(&self) -> u16 {
        self.after_fetch_u8().bus.read_value16(self.next_byte() as u16)
    }

    /// That word plus Y.
    pub open spec fn indirect_y_target(&self) -> u16 {
        self.indirect_y_base().wrapping_add(self.y as u16)
    }

    /// After an indirect-indexed address is resolved.
    pub open spec fn after_indirect_y_target(self) -> Cpu {
        self.after_fetch_u8().after_load16(self.next_byte() as u16).after_page_wrap(
            self.indirect_y_base(),
            self.indirect_y_target(),
        )
    }

    /// The address an instruction in addressing mode `mode` works on.
    #[verifier::opaque]
    pub open spec fn target_of(&self, mode: u8) -> u16 {
        if mode == MODE_IMMEDIATE || mode == MODE_RELATIVE {
            self.pc
        } else if mode == MODE_ZERO_PAGE {
            self.zero_page_target(0)
        } else if mode == MODE_ZERO_PAGE_X {
            self.zero_page_target(self.x)
        } else if mode == MODE_ZERO_PAGE_Y {
            self.zero_page_target(self.y)
        } else if mode == MODE_ABSOLUTE {
            self.absolute_target(0)
        } else if mode == MODE_ABSOLUTE_X {
            self.absolute_target(self.x)
        } else if mode == MODE_ABSOLUTE_Y {
            self.absolute_target(self.y)
        } else if mode == MODE_INDIRECT {
            self.indirect_target()
        } else if mode == MODE_INDIRECT_X {
            self.indirect_x_target()
        } else if mode == MODE_INDIRECT_Y {
            self.indirect_y_target()
        } else {
            0
        }
    }

    /// The machine after the address for mode `mode` is resolved: the operand
    /// bytes are consumed, pointers are read, and the indexed modes that can
    /// leave the page note whether they did.
    #[verifier::opaque]
    pub open spec fn after_target(self, mode: u8) -> Cpu {
        if mode == MODE_IMMEDIATE || mode == MODE_RELATIVE {
            Cpu { pc: self.pc.wrapping_add(1), ..self }
        } else if mode == MODE_ZERO_PAGE || mode == MODE_ZERO_PAGE_X || mode == MODE_ZERO_PAGE_Y {
            self.after_fetch_u8()
        } else if mode == MODE_ABSOLUTE {
            self.after_absolute_target(0)
        } else if mode == MODE_ABSOLUTE_X {
            self.after_absolute_target(self.x)
        } else if mode == MODE_ABSOLUTE_Y {
            self.after_absolute_target(self.y)
        } else if mode == MODE_INDIRECT {
            self.after_indirect_target()
        } else if mode == MODE_INDIRECT_X {
            self.after_indirect_x_target()
        } else if mode == MODE_INDIRECT_Y {
            self.after_indirect_y_target()
        } else {
            self
        }
    }

    /// Whether a load in mode `mode` pays a cycle for a crossed page.
    pub open spec fn pays_page_cross(mode: u8) -> bool {
        mode == MODE_ABSOLUTE_X || mode == MODE_ABSOLUTE_Y || mode == MODE_INDIRECT_Y
    }

    /// The operand at `address` in mode `mode`: the accumulator, or the byte
    /// at the address.
    pub open spec fn operand(&self, mode: u8, address: u16) -> u8 {
        if mode == MODE_ACCUMULATOR {
            self.a
        } else {
            self.bus.read_value(address)
        }
    }

    /// After the operand is loaded; the indexed modes that can leave the page pay a cycle when they did.
    pub open spec fn after_operand(self, mode: u8, address: u16) -> Cpu {
        if mode == MODE_ACCUMULATOR {
            self
        } else if Cpu::pays_page_cross(mode) && self.page_cross {
            self.after_cycles(1).after_load(address)
        } else {
            self.after_load(address)
        }
    }

    /// After `value` is written back to the accumulator or to memory.
    pub open spec fn after_store_operand(self, mode: u8, address: u16, value: u8) -> Cpu {
        if mode == MODE_ACCUMULATOR {
            Cpu { a: value, ..self }
        } else {
            self.after_store(address, value)
        }
    }

    /// Charges `n` cycles.
    pub fn add_cycles(&mut self, n: u64)
        requires
            old(self).fits(n as int),
        ensures
            *final(self) == old(self).after_cycles(n),
            old(self).leads_to(final(self), n as int),
    {
        self.cycles = self.cycles.wrapping_add(n);
        self.elapsed = self.elapsed + n;
    }

    /// Loads a byte through the bus.
    pub fn load_u8(&mut self, address: u16) -> (value: u8)
        requires
            old(self).wf(),
        ensures
            value == old(self).bus.read_value(address),
            *final(self) == old(self).after_load(address),
            old(self).leads_to(final(self), 0),
    {
        self.bus.load_u8(address)
    }

    /// Loads two bytes through the bus, the low one first.
    pub fn load_u16(&mut self, address: u16) -> (value: u16)
        requires
            old(self).wf(),
        ensures
            value == old(self).bus.read_value16(address),
            *final(self) == old(self).after_load16(address),
            old(self).leads_to(final(self), 0),
    {
        self.bus.load_u16(address)
    }

    /// Stores through the bus. A store to the transfer register, which
    /// copies a page to sprite memory with the picture processor running
    /// meanwhile, costs 513 cycles, or 514 from an odd cycle.
    #[verifier::rlimit(40)]
    pub fn store_u8(&mut self, address: u16, value: u8)
        requires
            old(self).fits(514),
        ensures
            *final(self) == old(self).after_store(address, value),
            old(self).leads_to(final(self), 514),
    {
        reveal(Cpu::after_store);
        match self.bus.store_u8(address, value) {
            Ok(()) => {},
            Err(_) => {
                self.rom_fault = true;
            },
        }
        if address == OAM_DMA {
            self.add_cycles(DMA_CYCLES + self.cycles % 2);
        }
    }

    /// Consumes the byte at the program counter.
    pub fn fetch_u8(&mut self) -> (value: u8)
        requires
            old(self).wf(),
        ensures
            value == old(self).next_byte(),
            *final(self) == old(self).after_fetch_u8(),
            old(self).leads_to(final(self), 0),
    {
        let value = self.bus.load_u8(self.pc);
        self.pc = self.pc.wrapping_add(1);
        value
    }

    /// Consumes the two bytes at the program counter.
    pub fn fetch_u16(&mut self) -> (value: u16)
        requires
            old(self).wf(),
        ensures
            value == old(self).next_word(),
            *final(self) == old(self).after_fetch_u16(),
            old(self).leads_to(final(self), 0),
    {
        let value = self.bus.load_u16(self.pc);
        self.pc = self.pc.wrapping_add(2);
        value
    }

    /// Pushes a byte on the stack.
    pub fn pushb(&mut self, value: u8)
        requires
            old(self).wf(),
        ensures
            *final(self) == old(self).after_pushb(value),
            old(self).leads_to(final(self), 0),
    {
        let _ = self.bus.store_u8(STACK_BASE + self.s as u16, value);
        self.s = self.s.wrapping_sub(1);
    }

    /// Pushes two bytes on the stack, the high one first.
    pub fn pushw(&mut self, value: u16)
        requires
            old(self).wf(),
        ensures
            *final(self) == old(self).after_pushw(value),
            old(self).leads_to(final(self), 0),
    {
        self.pushb((value / 256) as u8);
        self.pushb((value % 256) as u8);
    }

    /// Pulls a byte from the stack.
    pub fn popb(&mut self) -> (value: u8)
        requires
            old(self).wf(),
        ensures
            value == old(self).pulled_byte(),
            *final(self) == old(self).after_popb(),
            old(self).leads_to(final(self), 0),
    {
        self.s = self.s.wrapping_add(1);
        self.bus.load_u8(STACK_BASE + self.s as u16)
    }

    /// Pulls two bytes from the stack, the low one first.
    pub fn popw(&mut self) -> (value: u16)
        requires
            old(self).wf(),
        ensures
            value == old(self).pulled_word(),
            *final(self) == old(self).after_popw(),
            old(self).leads_to(final(self), 0),
    {
        let low = self.popb();
        let high = self.popb();
        (low as u16) | ((high as u16) << 8)
    }

    /// Sets or clears a flag.
    pub fn set_flag(&mut self, flag: u8, set: bool)
        ensures
            *final(self) == old(self).after_set_flag(flag, set),
    {
        if set {
            self.p = self.p | flag;
        } else {
            self.p = self.p & !flag;
        }
    }

    /// Whether a flag is set.
    pub fn get_flag(&self, flag: u8) -> (set: bool)
        ensures
            set == flag_set(self.p, flag),
    {
        self.p & flag == flag
    }

    /// The carry flag as 0 or 1.
    pub fn get_carry(&self) -> (carry: u8)
        ensures
            carry == carry_in(self.p),
    {
        if self.get_flag(FLAG_CARRY) {
            1
        } else {
            0
        }
    }

    /// Sets Zero and Negative from `value` and hands `value` back.
    pub fn set_nz(&mut self, value: u8) -> (same: u8)
        ensures
            same == value,
            *final(self) == old(self).after_set_nz(value),
    {
        self.set_flag(FLAG_ZERO, value == 0);
        self.set_flag(FLAG_NEG, value >= 0x80);
        value
    }

    /// Notes a page crossing between `from` and `to`.
    pub fn handle_page_wrap(&mut self, from: u16, to: u16)
        ensures
            *final(self) == old(self).after_page_wrap(from, to),
    {
        if from / 256 != to / 256 {
            self.page_cross = true;
        }
    }

    /// Resolves a zero-page address with index `index`.
    pub fn target_zero_page(&mut self, index: u8) -> (address: u16)
        requires
            old(self).wf(),
        ensures
            address == old(self).zero_page_target(index),
            *final(self) == old(self).after_fetch_u8(),
            old(self).leads_to(final(self), 0),
    {
        let offset = self.fetch_u8();
        offset.wrapping_add(index) as u16
    }

    /// Resolves an absolute address with index `index`.
    pub fn target_absolute(&mut self, index: u8) -> (address: u16)
        requires
            old(self).wf(),
        ensures
            address == old(self).absolute_target(index),
            *final(self) == old(self).after_absolute_target(index),
            old(self).leads_to(final(self), 0),
    {
        let base = self.fetch_u16();
        let address = base.wrapping_add(index as u16);
        self.handle_page_wrap(base, address);
        address
    }

    /// Resolves the target of an indirect jump.
    pub fn target_indirect(&mut self) -> (address: u16)
        requires
            old(self).wf(),
        ensures
            address == old(self).indirect_target(),
            *final(self) == old(self).after_indirect_target(),
            old(self).leads_to(final(self), 0),
    {
        let pointer = self.fetch_u16();
        let low = self.load_u8(pointer);
        let high = self.load_u8((pointer / 256) * 256 + (pointer % 256 + 1) % 256);
        (low as u16) | ((high as u16) << 8)
    }

    /// Resolves an indexed-indirect address.
    pub fn target_indirect_x(&mut self) -> (address: u16)
        requires
            old(self).wf(),
        ensures
            address == old(self).indirect_x_target(),
            *final(self) == old(self).after_indirect_x_target(),
            old(self).leads_to(final(self), 0),
    {
        let offset = self.fetch_u8();
        self.load_u16(self.x.wrapping_add(offset) as u16)
    }

    /// Resolves an indirect-indexed address.
    pub fn target_indirect_y(&mut self) -> (address: u16)
        requires
            old(self).wf(),
        ensures
            address == old(self).indirect_y_target(),
            *final(self) == old(self).after_indirect_y_target(),
            old(self).leads_to(final(self), 0),
    {
        let offset = self.fetch_u8();
        let base = self.load_u16(offset as u16);
        let address = base.wrapping_add(self.y as u16);
        self.handle_page_wrap(base, address);
        address
    }

    /// Resolves the address for addressing mode `mode`.
    #[verifier::rlimit(40)]
    pub fn target(&mut self, mode: u8) -> (address: u16)
        requires
            old(self).wf(),
        ensures
            address == old(self).target_of(mode),
            *final(self) == old(self).after_target(mode),
            old(self).leads_to(final(self), 0),
    {
        reveal(Cpu::after_target);
        reveal(Cpu::target_of);
        if mode == MODE_IMMEDIATE || mode == MODE_RELATIVE {
            let address = self.pc;
            self.pc = self.pc.wrapping_add(1);
            address
        } else if mode == MODE_ZERO_PAGE {
            self.target_zero_page(0)
        } else if mode == MODE_ZERO_PAGE_X {
            self.target_zero_page(self.x)
        } else if mode == MODE_ZERO_PAGE_Y {
            self.target_zero_page(self.y)
        } else if mode == MODE_ABSOLUTE {
            self.target_absolute(0)
        } else if mode == MODE_ABSOLUTE_X {
            self.target_absolute(self.x)
        } else if mode == MODE_ABSOLUTE_Y {
            self.target_absolute(self.y)
        } else if mode == MODE_INDIRECT {
            self.target_indirect()
        } else if mode == MODE_INDIRECT_X {
            self.target_indirect_x()
        } else if mode == MODE_INDIRECT_Y {
            self.target_indirect_y()
        } else {
            0
        }
    }

    /// Loads the operand; the indexed modes that can leave the page pay a
    /// cycle when they did.
    pub fn load_operand(&mut self, mode: u8, address: u16) -> (value: u8)
        requires
            old(self).fits(1),
        ensures
            value == old(self).operand(mode, address),
            *final(self) == old(self).after_operand(mode, address),
            old(self).leads_to(final(self), 1),
    {
        if mode == MODE_ACCUMULATOR {
            self.a
        } else {
            if (mode == MODE_ABSOLUTE_X || mode == MODE_ABSOLUTE_Y || mode == MODE_INDIRECT_Y)
                && self.page_cross {
                self.add_cycles(1);
            }
            self.load_u8(address)
        }
    }

    /// Writes `value` back to the accumulator or to memory.
    pub fn store_operand(&mut self, mode: u8, address: u16, value: u8)
        requires
            old(self).fits(514),
        ensures
            *final(self) == old(self).after_store_operand(mode, address, value),
            old(self).leads_to(final(self), 514),
    {
        if mode == MODE_ACCUMULATOR {
            self.a = value;
        } else {
            self.store_u8(address, value);
        }
    }
}


impl Cpu {
    /// After an add with carry: the sum of A, the operand and the carry goes
    /// to A; Carry is the ninth bit, Overflow is set when A and the operand
    /// agree in sign and the result does not.
    pub open spec fn after_adc(self, m: u8) -> Cpu {
        let sum = self.a + m + carry_in(self.p);
        let r = (sum % 256) as u8;
        Cpu {
            a: r,
            p: with_nz(
                with_flag(
                    with_flag(self.p, FLAG_CARRY, sum > 0xFF),
                    FLAG_OVF,
                    (self.a ^ m) & 0x80 == 0 && (self.a ^ r) & 0x80 != 0,
                ),
                r,
            ),
            ..self
        }
    }

    /// After a subtract with borrow: A less the operand less the inverted
    /// carry goes to A; Carry is set when no borrow was needed, Overflow when
    /// A and the operand differ in sign and the result's sign differs from A's.
    pub open spec fn after_sbc(self, m: u8) -> Cpu {
        let diff = 0x100 + self.a - m - (1 - carry_in(self.p));
        let r = (diff % 256) as u8;
        Cpu {
            a: r,
            p: with_flag(
                with_flag(
                    with_nz(self.p, r),
                    FLAG_OVF,
                    (self.a ^ m) & 0x80 != 0 && (self.a ^ r) & 0x80 != 0,
                ),
                FLAG_CARRY,
                diff >= 0x100,
            ),
            ..self
        }
    }

    /// After AND with the operand.
    pub open spec fn after_and(self, m: u8) -> Cpu {
        Cpu { a: self.a & m, p: with_nz(self.p, self.a & m), ..self }
    }

    /// After OR with the operand.
    pub open spec fn after_ora(self, m: u8) -> Cpu {
        Cpu { a: self.a | m, p: with_nz(self.p, self.a | m), ..self }
    }

    /// After XOR with the operand.
    pub open spec fn after_eor(self, m: u8) -> Cpu {
        Cpu { a: self.a ^ m, p: with_nz(self.p, self.a ^ m), ..self }
    }

    /// After a bit test: Zero from A AND the operand, Overflow and Negative
    /// from the operand's bits 6 and 7.
    pub open spec fn after_bit(self, m: u8) -> Cpu {
        Cpu {
            p: with_flag(
                with_flag(with_flag(self.p, FLAG_ZERO, self.a & m == 0), FLAG_OVF, m & FLAG_OVF != 0),
                FLAG_NEG,
                m & FLAG_NEG != 0,
            ),
            ..self
        }
    }

    /// After a compare of `reg` with the operand: Carry when `reg` is not
    /// below it, Zero and Negative from the difference.
    pub open spec fn after_compare(self, reg: u8, m: u8) -> Cpu {
        Cpu { p: with_nz(with_flag(self.p, FLAG_CARRY, reg >= m), ((0x100 + reg - m) % 256) as u8), ..self }
    }

    /// After a load of A.
    pub open spec fn after_lda(self, m: u8) -> Cpu {
        Cpu { a: m, p: with_nz(self.p, m), ..self }
    }

    /// After a load of X.
    pub open spec fn after_ldx(self, m: u8) -> Cpu {
        Cpu { x: m, p: with_nz(self.p, m), ..self }
    }

    /// After a load of Y.
    pub open spec fn after_ldy(self, m: u8) -> Cpu {
        Cpu { y: m, p: with_nz(self.p, m), ..self }
    }

    /// After a load of A and X.
    pub open spec fn after_lax(self, m: u8) -> Cpu {
        Cpu { a: m, x: m, p: with_nz(self.p, m), ..self }
    }

    /// After AND with the operand and a shift right of A.
    pub open spec fn after_alr(self, m: u8) -> Cpu {
        let v = self.a & m;
        Cpu { a: v >> 1, p: with_nz(with_flag(self.p, FLAG_CARRY, v & 1 != 0), v >> 1), ..self }
    }

    /// After AND with the operand and a rotate right of A through the carry.
    pub open spec fn after_arr(self, m: u8) -> Cpu {
        let v = self.a & m;
        let r = (v >> 1) | ((self.p & FLAG_CARRY) << 7);
        Cpu { a: r, p: with_nz(with_flag(self.p, FLAG_CARRY, v & 1 != 0), r), ..self }
    }

    /// After X AND the operand went to A.
    pub open spec fn after_xaa(self, m: u8) -> Cpu {
        Cpu { a: self.x & m, p: with_nz(self.p, self.x & m), ..self }
    }

    /// After A OR 0xEE, AND the operand, went to A and X.
    pub open spec fn after_oal(self, m: u8) -> Cpu {
        let v = (self.a | 0xEE) & m;
        Cpu { a: v, x: v, p: with_nz(self.p, v), ..self }
    }

    /// After AND with the operand, with Carry a copy of Negative.
    pub open spec fn after_anc(self, m: u8) -> Cpu {
        let v = self.a & m;
        Cpu { a: v, p: with_flag(with_nz(self.p, v), FLAG_CARRY, flag_set(with_nz(self.p, v), FLAG_NEG)), ..self }
    }

    /// After S AND the operand went to A, X and S.
    pub open spec fn after_las(self, m: u8) -> Cpu {
        let v = self.s & m;
        Cpu { a: v, x: v, s: v, p: with_nz(self.p, v), ..self }
    }

    /// The registers after operation `op` took in the operand `m`.
    #[verifier::opaque]
    pub open spec fn after_alu(self, op: u8, m: u8) -> Cpu {
        if op == OP_ADC {
            self.after_adc(m)
        } else if op == OP_AND {
            self.after_and(m)
        } else if op == OP_BIT {
            self.after_bit(m)
        } else if op == OP_CPA {
            self.after_compare(self.a, m)
        } else if op == OP_CPX {
            self.after_compare(self.x, m)
        } else if op == OP_CPY {
            self.after_compare(self.y, m)
        } else if op == OP_EOR {
            self.after_eor(m)
        } else if op == OP_LDA {
            self.after_lda(m)
        } else if op == OP_LDX {
            self.after_ldx(m)
        } else if op == OP_LDY {
            self.after_ldy(m)
        } else if op == OP_ORA {
            self.after_ora(m)
        } else if op == OP_SBC {
            self.after_sbc(m)
        } else if op == OP_LAX {
            self.after_lax(m)
        } else if op == OP_ALR {
            self.after_alr(m)
        } else if op == OP_ARR {
            self.after_arr(m)
        } else if op == OP_XAA {
            self.after_xaa(m)
        } else if op == OP_OAL {
            self.after_oal(m)
        } else if op == OP_ANC {
            self.after_anc(m)
        } else if op == OP_LAS {
            self.after_las(m)
        } else {
            self
        }
    }

    /// The shift or step that a read-modify-write operation applies to memory.
    pub open spec fn modify_kind(op: u8) -> u8 {
        if op == OP_ASO {
            OP_ASL
        } else if op == OP_RLA {
            OP_ROL
        } else if op == OP_LSE {
            OP_LSR
        } else if op == OP_RRA {
            OP_ROR
        } else if op == OP_DCP {
            OP_DEC
        } else if op == OP_INS {
            OP_INC
        } else {
            op
        }
    }

    /// The value that shift or step `kind` makes of `m`.
    #[verifier::opaque]
    pub open spec fn modified(&self, kind: u8, m: u8) -> u8 {
        if kind == OP_ASL {
            m << 1
        } else if kind == OP_LSR {
            m >> 1
        } else if kind == OP_ROL {
            (m << 1) | (self.p & FLAG_CARRY)
        } else if kind == OP_ROR {
            (m >> 1) | ((self.p & FLAG_CARRY) << 7)
        } else if kind == OP_INC {
            m.wrapping_add(1)
        } else if kind == OP_DEC {
            m.wrapping_sub(1)
        } else {
            m
        }
    }

    /// The flags after shift or step `kind` of `m`: the shifts and rotates
    /// put the bit that leaves into Carry; all set Zero and Negative.
    #[verifier::opaque]
    pub open spec fn after_modify(self, kind: u8, m: u8) -> Cpu {
        let r = self.modified(kind, m);
        if kind == OP_ASL || kind == OP_ROL {
            Cpu { p: with_nz(with_flag(self.p, FLAG_CARRY, m & 0x80 != 0), r), ..self }
        } else if kind == OP_LSR || kind == OP_ROR {
            Cpu { p: with_nz(with_flag(self.p, FLAG_CARRY, m & 1 != 0), r), ..self }
        } else if kind == OP_INC || kind == OP_DEC {
            Cpu { p: with_nz(self.p, r), ..self }
        } else {
            self
        }
    }

    /// What a combined operation does with the value it wrote back.
    #[verifier::opaque]
    pub open spec fn after_follow_up(self, op: u8, r: u8) -> Cpu {
        if op == OP_ASO {
            self.after_ora(r)
        } else if op == OP_RLA {
            self.after_and(r)
        } else if op == OP_LSE {
            self.after_eor(r)
        } else if op == OP_RRA {
            self.after_adc(r)
        } else if op == OP_DCP {
            self.after_compare(self.a, r)
        } else if op == OP_INS {
            self.after_sbc(r)
        } else {
            self
        }
    }

    /// The machine after an operation that reads its operand.
    #[verifier::opaque]
    pub open spec fn after_read_op(self, op: u8, mode: u8) -> Cpu {
        let resolved = self.after_target(mode);
        let address = self.target_of(mode);
        resolved.after_operand(mode, address).after_alu(op, resolved.operand(mode, address))
    }

    /// The byte a store operation writes.
    pub open spec fn store_value(&self, op: u8) -> u8 {
        if op == OP_STA {
            self.a
        } else if op == OP_STX {
            self.x
        } else if op == OP_STY {
            self.y
        } else {
            self.a & self.x
        }
    }

    /// The machine after a store of a register.
    #[verifier::opaque]
    pub open spec fn after_store_op(self, op: u8, mode: u8) -> Cpu {
        self.after_target(mode).after_store_operand(mode, self.target_of(mode), self.store_value(op))
    }

    /// The index register that mode `mode` adds.
    pub open spec fn index_of(&self, mode: u8) -> u8 {
        if mode == MODE_ABSOLUTE_X || mode == MODE_ZERO_PAGE_X {
            self.x
        } else if mode == MODE_ABSOLUTE_Y || mode == MODE_ZERO_PAGE_Y || mode == MODE_INDIRECT_Y {
            self.y
        } else {
            0
        }
    }

    /// The register pattern that a masked store starts from.
    pub open spec fn high_store_source(&self, op: u8) -> u8 {
        if op == OP_SAY {
            self.y
        } else if op == OP_XAS {
            self.x
        } else {
            self.a & self.x
        }
    }

    /// The mask of a masked store: the high byte of the address before
    /// indexing, plus one.
    pub open spec fn high_store_mask(&self, mode: u8) -> u8 {
        ((self.target_of(mode).wrapping_sub(self.index_of(mode) as u16) / 256) as u8).wrapping_add(1)
    }

    /// The machine after a store of a register pattern masked by the address's
    /// high byte; the first of these operations also loads S with A AND X.
    #[verifier::opaque]
    pub open spec fn after_high_store_op(self, op: u8, mode: u8) -> Cpu {
        let resolved = self.after_target(mode);
        let latched = if op == OP_TAS {
            Cpu { s: self.a & self.x, ..resolved }
        } else {
            resolved
        };
        latched.after_store_operand(
            mode,
            self.target_of(mode),
            self.high_store_source(op) & self.high_store_mask(mode),
        )
    }

    /// The value a read-modify-write of kind `kind` writes back at `address`.
    #[verifier::opaque]
    pub open spec fn modified_at(&self, kind: u8, mode: u8, address: u16) -> u8 {
        self.after_operand(mode, address).modified(kind, self.operand(mode, address))
    }

    /// The machine after the operand at `address` is loaded, shifted or
    /// stepped, and written back.
    #[verifier::opaque]
    pub open spec fn after_modify_at(self, kind: u8, mode: u8, address: u16) -> Cpu {
        self.after_operand(mode, address).after_modify(kind, self.operand(mode, address)).after_store_operand(
            mode,
            address,
            self.modified_at(kind, mode, address),
        )
    }

    /// The machine after a read-modify-write operation; a combined operation
    /// works the written value into the registers.
    #[verifier::opaque]
    pub open spec fn after_modify_op(self, op: u8, mode: u8) -> Cpu {
        let resolved = self.after_target(mode);
        let address = self.target_of(mode);
        let kind = Cpu::modify_kind(op);
        resolved.after_modify_at(kind, mode, address).after_follow_up(
            op,
            resolved.modified_at(kind, mode, address),
        )
    }

    /// Whether branch `op` is taken with status `p`.
    pub open spec fn branch_taken(op: u8, p: u8) -> bool {
        if op == OP_BCC {
            !flag_set(p, FLAG_CARRY)
        } else if op == OP_BCS {
            flag_set(p, FLAG_CARRY)
        } else if op == OP_BEQ {
            flag_set(p, FLAG_ZERO)
        } else if op == OP_BMI {
            flag_set(p, FLAG_NEG)
        } else if op == OP_BNE {
            !flag_set(p, FLAG_ZERO)
        } else if op == OP_BPL {
            !flag_set(p, FLAG_NEG)
        } else if op == OP_BVC {
            !flag_set(p, FLAG_OVF)
        } else {
            flag_set(p, FLAG_OVF)
        }
    }

    /// The machine after a branch: the displacement is read, and a taken
    /// branch moves the program counter and costs a cycle, two when it
    /// leaves the page.
    #[verifier::opaque]
    pub open spec fn after_bxx(self, condition: bool) -> Cpu {
        let address = self.target_of(MODE_RELATIVE);
        let resolved = self.after_target(MODE_RELATIVE);
        let read = resolved.after_operand(MODE_RELATIVE, address);
        let to = branch_target(read.pc, resolved.operand(MODE_RELATIVE, address));
        if condition {
            let wrapped = read.after_page_wrap(read.pc, to);
            Cpu { pc: to, ..wrapped }.after_cycles(
                if wrapped.page_cross {
                    2
                } else {
                    1
                },
            )
        } else {
            read
        }
    }

    /// Adds the operand and the carry to A.
    pub fn adc(&mut self, m: u8)
        requires
            old(self).wf(),
        ensures
            *final(self) == old(self).after_adc(m),
            old(self).leads_to(final(self), 0),
    {
        let a = self.a;
        let sum: u16 = a as u16 + m as u16 + self.get_carry() as u16;
        let r = (sum % 256) as u8;
        self.set_flag(FLAG_CARRY, sum > 0xFF);
        self.set_flag(FLAG_OVF, (a ^ m) & 0x80 == 0 && (a ^ r) & 0x80 != 0);
        self.a = self.set_nz(r);
    }

    /// Subtracts the operand and the borrow from A.
    pub fn sbc(&mut self, m: u8)
        requires
            old(self).wf(),
        ensures
            *final(self) == old(self).after_sbc(m),
            old(self).leads_to(final(self), 0),
    {
        let a = self.a;
        let diff: u16 = 0x100 + a as u16 - m as u16 - (1 - self.get_carry() as u16);
        let r = (diff % 256) as u8;
        self.a = self.set_nz(r);
        self.set_flag(FLAG_OVF, (a ^ m) & 0x80 != 0 && (a ^ r) & 0x80 != 0);
        self.set_flag(FLAG_CARRY, diff >= 0x100);
    }

    /// ANDs the operand into A.
    pub fn and(&mut self, m: u8)
        requires
            old(self).wf(),
        ensures
            *final(self) == old(self).after_and(m),
            old(self).leads_to(final(self), 0),
    {
        self.a = self.set_nz(self.a & m);
    }

    /// ORs the operand into A.
    pub fn ora(&mut self, m: u8)
        requires
            old(self).wf(),
        ensures
            *final(self) == old(self).after_ora(m),
            old(self).leads_to(final(self), 0),
    {
        self.a = self.set_nz(self.a | m);
    }

    /// XORs the operand into A.
    pub fn eor(&mut self, m: u8)
        requires
            old(self).wf(),
        ensures
            *final(self) == old(self).after_eor(m),
            old(self).leads_to(final(self), 0),
    {
        self.a = self.set_nz(self.a ^ m);
    }

    /// Tests the operand's bits against A.
    pub fn bit(&mut self, m: u8)
        requires
            old(self).wf(),
        ensures
            *final(self) == old(self).after_bit(m),
            old(self).leads_to(final(self), 0),
    {
        self.set_flag(FLAG_ZERO, self.a & m == 0);
        self.set_flag(FLAG_OVF, m & FLAG_OVF != 0);
        self.set_flag(FLAG_NEG, m & FLAG_NEG != 0);
    }

    /// Compares a register with the operand.
    pub fn compare(&mut self, reg: u8, m: u8)
        requires
            old(self).wf(),
        ensures
            *final(self) == old(self).after_compare(reg, m),
            old(self).leads_to(final(self), 0),
    {
        let diff: u16 = 0x100 + reg as u16 - m as u16;
        self.set_flag(FLAG_CARRY, reg >= m);
        let _ = self.set_nz((diff % 256) as u8);
    }

    /// Loads A.
    pub fn lda(&mut self, m: u8)
        requires
            old(self).wf(),
        ensures
            *final(self) == old(self).after_lda(m),
            old(self).leads_to(final(self), 0),
    {
        self.a = self.set_nz(m);
    }

    /// Loads X.
    pub fn ldx(&mut self, m: u8)
        requires
            old(self).wf(),
        ensures
            *final(self) == old(self).after_ldx(m),
            old(self).leads_to(final(self), 0),
    {
        self.x = self.set_nz(m);
    }

    /// Loads Y.
    pub fn ldy(&mut self, m: u8)
        requires
            old(self).wf(),
        ensures
            *final(self) == old(self).after_ldy(m),
            old(self).leads_to(final(self), 0),
    {
        self.y = self.set_nz(m);
    }

    /// Loads A and X.
    pub fn lax(&mut self, m: u8)
        requires
            old(self).wf(),
        ensures
            *final(self) == old(self).after_lax(m),
            old(self).leads_to(final(self), 0),
    {
        self.a = m;
        self.x = self.set_nz(m);
    }

    /// ANDs the operand into A and shifts A right.
    pub fn alr(&mut self, m: u8)
        requires
            old(self).wf(),
        ensures
            *final(self) == old(self).after_alr(m),
            old(self).leads_to(final(self), 0),
    {
        let v = self.a & m;
        self.set_flag(FLAG_CARRY, v & 1 != 0);
        self.a = self.set_nz(v >> 1);
    }

    /// ANDs the operand into A and rotates A right.
    pub fn arr(&mut self, m: u8)
        requires
            old(self).wf(),
        ensures
            *final(self) == old(self).after_arr(m),
            old(self).leads_to(final(self), 0),
    {
        let v = self.a & m;
        let r = (v >> 1) | ((self.p & FLAG_CARRY) << 7);
        self.set_flag(FLAG_CARRY, v & 1 != 0);
        self.a = self.set_nz(r);
    }

    /// Loads A with X AND the operand.
    pub fn xaa(&mut self, m: u8)
        requires
            old(self).wf(),
        ensures
            *final(self) == old(self).after_xaa(m),
            old(self).leads_to(final(self), 0),
    {
        self.a = self.set_nz(self.x & m);
    }

    /// Loads A and X with A OR 0xEE, AND the operand.
    pub fn oal(&mut self, m: u8)
        requires
            old(self).wf(),
        ensures
            *final(self) == old(self).after_oal(m),
            old(self).leads_to(final(self), 0),
    {
        let v = (self.a | 0xEE) & m;
        self.a = v;
        self.x = self.set_nz(v);
    }

    /// ANDs the operand into A and copies Negative to Carry.
    pub fn anc(&mut self, m: u8)
        requires
            old(self).wf(),
        ensures
            *final(self) == old(self).after_anc(m),
            old(self).leads_to(final(self), 0),
    {
        self.a = self.set_nz(self.a & m);
        let negative = self.get_flag(FLAG_NEG);
        self.set_flag(FLAG_CARRY, negative);
    }

    /// Loads A, X and S with S AND the operand.
    pub fn las(&mut self, m: u8)
        requires
            old(self).wf(),
        ensures
            *final(self) == old(self).after_las(m),
            old(self).leads_to(final(self), 0),
    {
        let v = self.s & m;
        self.s = v;
        self.x = v;
        self.a = self.set_nz(v);
    }

    /// Works the operand into the registers as operation `op` asks.
    pub fn alu(&mut self, op: u8, m: u8)
        requires
            old(self).wf(),
        ensures
            *final(self) == old(self).after_alu(op, m),
            old(self).leads_to(final(self), 0),
    {
        reveal(Cpu::after_alu);
        if op == OP_ADC {
            self.adc(m);
        } else if op == OP_AND {
            self.and(m);
        } else if op == OP_BIT {
            self.bit(m);
        } else if op == OP_CPA {
            self.compare(self.a, m);
        } else if op == OP_CPX {
            self.compare(self.x, m);
        } else if op == OP_CPY {
            self.compare(self.y, m);
        } else if op == OP_EOR {
            self.eor(m);
        } else if op == OP_LDA {
            self.lda(m);
        } else if op == OP_LDX {
            self.ldx(m);
        } else if op == OP_LDY {
            self.ldy(m);
        } else if op == OP_ORA {
            self.ora(m);
        } else if op == OP_SBC {
            self.sbc(m);
        } else if op == OP_LAX {
            self.lax(m);
        } else if op == OP_ALR {
            self.alr(m);
        } else if op == OP_ARR {
            self.arr(m);
        } else if op == OP_XAA {
            self.xaa(m);
        } else if op == OP_OAL {
            self.oal(m);
        } else if op == OP_ANC {
            self.anc(m);
        } else if op == OP_LAS {
            self.las(m);
        }
    }

    /// Shifts or steps `m` as `kind` asks, sets the flags and returns the result.
    pub fn modify(&mut self, kind: u8, m: u8) -> (r: u8)
        requires
            old(self).wf(),
        ensures
            r == old(self).modified(kind, m),
            *final(self) == old(self).after_modify(kind, m),
            old(self).leads_to(final(self), 0),
    {
        reveal(Cpu::modified);
        reveal(Cpu::after_modify);
        if kind == OP_ASL {
            self.set_flag(FLAG_CARRY, m & 0x80 != 0);
            self.set_nz(m << 1)
        } else if kind == OP_LSR {
            self.set_flag(FLAG_CARRY, m & 1 != 0);
            self.set_nz(m >> 1)
        } else if kind == OP_ROL {
            let r = (m << 1) | (self.p & FLAG_CARRY);
            self.set_flag(FLAG_CARRY, m & 0x80 != 0);
            self.set_nz(r)
        } else if kind == OP_ROR {
            let r = (m >> 1) | ((self.p & FLAG_CARRY) << 7);
            self.set_flag(FLAG_CARRY, m & 1 != 0);
            self.set_nz(r)
        } else if kind == OP_INC {
            self.set_nz(m.wrapping_add(1))
        } else if kind == OP_DEC {
            self.set_nz(m.wrapping_sub(1))
        } else {
            m
        }
    }

    /// Works the value a combined operation wrote back into the registers.
    pub fn follow_up(&mut self, op: u8, r: u8)
        requires
            old(self).wf(),
        ensures
            *final(self) == old(self).after_follow_up(op, r),
            old(self).leads_to(final(self), 0),
    {
        reveal(Cpu::after_follow_up);
        if op == OP_ASO {
            self.ora(r);
        } else if op == OP_RLA {
            self.and(r);
        } else if op == OP_LSE {
            self.eor(r);
        } else if op == OP_RRA {
            self.adc(r);
        } else if op == OP_DCP {
            self.compare(self.a, r);
        } else if op == OP_INS {
            self.sbc(r);
        }
    }

    /// Runs an operation that reads its operand.
    #[verifier::rlimit(40)]
    pub fn read_op(&mut self, op: u8, mode: u8)
        requires
            old(self).fits(1),
        ensures
            *final(self) == old(self).after_read_op(op, mode),
            old(self).leads_to(final(self), 1),
    {
        reveal(Cpu::after_read_op);
        let address = self.target(mode);
        let m = self.load_operand(mode, address);
        self.alu(op, m);
    }

    /// Runs a store of a register.
    #[verifier::rlimit(40)]
    pub fn store_op(&mut self, op: u8, mode: u8)
        requires
            old(self).fits(514),
        ensures
            *final(self) == old(self).after_store_op(op, mode),
            old(self).leads_to(final(self), 514),
    {
        reveal(Cpu::after_store_op);
        let value = if op == OP_STA {
            self.a
        } else if op == OP_STX {
            self.x
        } else if op == OP_STY {
            self.y
        } else {
            self.a & self.x
        };
        let address = self.target(mode);
        self.store_operand(mode, address, value);
    }

    /// Runs a store of a register pattern masked by the address's high byte.
    #[verifier::rlimit(40)]
    pub fn high_store_op(&mut self, op: u8, mode: u8)
        requires
            old(self).fits(514),
        ensures
            *final(self) == old(self).after_high_store_op(op, mode),
            old(self).leads_to(final(self), 514),
    {
        reveal(Cpu::after_high_store_op);
        let index = if mode == MODE_ABSOLUTE_X || mode == MODE_ZERO_PAGE_X {
            self.x
        } else if mode == MODE_ABSOLUTE_Y || mode == MODE_ZERO_PAGE_Y || mode == MODE_INDIRECT_Y {
            self.y
        } else {
            0
        };
        let source = if op == OP_SAY {
            self.y
        } else if op == OP_XAS {
            self.x
        } else {
            self.a & self.x
        };
        let latch = self.a & self.x;
        let address = self.target(mode);
        let mask = ((address.wrapping_sub(index as u16) / 256) as u8).wrapping_add(1);
        if op == OP_TAS {
            self.s = latch;
        }
        self.store_operand(mode, address, source & mask);
    }

    /// The shift or step that a read-modify-write operation applies to memory.
    pub fn kind_of(op: u8) -> (kind: u8)
        ensures
            kind == Cpu::modify_kind(op),
    {
        if op == OP_ASO {
            OP_ASL
        } else if op == OP_RLA {
            OP_ROL
        } else if op == OP_LSE {
            OP_LSR
        } else if op == OP_RRA {
            OP_ROR
        } else if op == OP_DCP {
            OP_DEC
        } else if op == OP_INS {
            OP_INC
        } else {
            op
        }
    }

    /// Loads the operand, shifts or steps it, writes it back and returns
    /// what was written.
    #[verifier::rlimit(40)]
    pub fn modify_at(&mut self, kind: u8, mode: u8, address: u16) -> (r: u8)
        requires
            old(self).fits(515),
        ensures
            r == old(self).modified_at(kind, mode, address),
            *final(self) == old(self).after_modify_at(kind, mode, address),
            old(self).leads_to(final(self), 515),
    {
        reveal(Cpu::modified_at);
        reveal(Cpu::after_modify_at);
        let m = self.load_operand(mode, address);
        let r = self.modify(kind, m);
        self.store_operand(mode, address, r);
        r
    }

    /// Runs a read-modify-write operation.
    #[verifier::rlimit(40)]
    pub fn modify_op(&mut self, op: u8, mode: u8)
        requires
            old(self).fits(515),
        ensures
            *final(self) == old(self).after_modify_op(op, mode),
            old(self).leads_to(final(self), 515),
    {
        reveal(Cpu::after_modify_op);
        let kind = Cpu::kind_of(op);
        let address = self.target(mode);
        let r = self.modify_at(kind, mode, address);
        self.follow_up(op, r);
    }

    /// Reads the displacement and branches if `condition` holds.
    #[verifier::rlimit(40)]
    pub fn bxx(&mut self, condition: bool)
        requires
            old(self).fits(2),
        ensures
            *final(self) == old(self).after_bxx(condition),
            old(self).leads_to(final(self), 2),
    {
        reveal(Cpu::after_bxx);
        let address = self.target(MODE_RELATIVE);
        let offset = self.load_operand(MODE_RELATIVE, address);
        if condition {
            let to = if offset < 0x80 {
                self.pc.wrapping_add(offset as u16)
            } else {
                self.pc.wrapping_sub(0x100 - offset as u16)
            };
            self.handle_page_wrap(self.pc, to);
            self.pc = to;
            self.add_cycles(
                if self.page_cross {
                    2
                } else {
                    1
                },
            );
        }
    }

    /// Runs a branch.
    pub fn branch_op(&mut self, op: u8)
        requires
            old(self).fits(2),
        ensures
            *final(self) == old(self).after_bxx(Cpu::branch_taken(op, old(self).p)),
            old(self).leads_to(final(self), 2),
    {
        let condition = if op == OP_BCC {
            !self.get_flag(FLAG_CARRY)
        } else if op == OP_BCS {
            self.get_flag(FLAG_CARRY)
        } else if op == OP_BEQ {
            self.get_flag(FLAG_ZERO)
        } else if op == OP_BMI {
            self.get_flag(FLAG_NEG)
        } else if op == OP_BNE {
            !self.get_flag(FLAG_ZERO)
        } else if op == OP_BPL {
            !self.get_flag(FLAG_NEG)
        } else if op == OP_BVC {
            !self.get_flag(FLAG_OVF)
        } else {
            self.get_flag(FLAG_OVF)
        };
        self.bxx(condition);
    }
}


/// Every opcode takes between two and eight cycles before penalties.
pub proof fn lemma_opcode_cycles(opcode: u8)
    ensures
        2 <= OPCODE_CYCLES[opcode as int] <= 8,
{
}

impl Cpu {
    /// After a break: the address after the padding byte and the status with
    /// both B bits are pushed, interrupts are disabled and the program
    /// counter is loaded from the break vector.
    #[verifier::opaque]
    pub open spec fn after_brk(self) -> Cpu {
        let pushed = self.after_pushw(self.pc.wrapping_add(1)).after_pushb(self.p | FLAG_B4 | FLAG_B5);
        Cpu {
            pc: pushed.bus.read_value16(BRK_VECTOR),
            ..pushed.after_set_flag(FLAG_INT, true).after_load16(BRK_VECTOR)
        }
    }

    /// After a jump.
    pub open spec fn after_jmp(self, mode: u8) -> Cpu {
        Cpu { pc: self.target_of(mode), ..self.after_target(mode) }
    }

    /// After a call: the address of the call's last byte is pushed.
    #[verifier::opaque]
    pub open spec fn after_jsr(self, mode: u8) -> Cpu {
        let resolved = self.after_target(mode);
        Cpu { pc: self.target_of(mode), ..resolved.after_pushw(resolved.pc.wrapping_sub(1)) }
    }

    /// After a pull of A.
    #[verifier::opaque]
    pub open spec fn after_pla(self) -> Cpu {
        Cpu { a: self.pulled_byte(), ..self.after_popb().after_set_nz(self.pulled_byte()) }
    }

    /// After a pull of the status: the two B bits keep what they held.
    #[verifier::opaque]
    pub open spec fn after_plp(self) -> Cpu {
        Cpu { p: (self.pulled_byte() & 0xCF) | (self.p & 0x30), ..self.after_popb() }
    }

    /// After a return from an interrupt: the status is pulled, then the program counter.
    #[verifier::opaque]
    pub open spec fn after_rti(self) -> Cpu {
        let status = self.after_popb();
        Cpu { p: self.pulled_byte(), pc: status.pulled_word(), ..status.after_popw() }
    }

    /// After a return: execution goes on behind the call's last byte.
    #[verifier::opaque]
    pub open spec fn after_rts(self) -> Cpu {
        Cpu { pc: self.pulled_word().wrapping_add(1), ..self.after_popw() }
    }

    /// The machine after one of the operations that take no operand from
    /// memory, or a jump.
    #[verifier::opaque]
    pub open spec fn after_other_op(self, op: u8, mode: u8) -> Cpu {
        if op == OP_BRK {
            self.after_brk()
        } else if op == OP_CLC {
            self.after_set_flag(FLAG_CARRY, false)
        } else if op == OP_CLD {
            self.after_set_flag(FLAG_DEC, false)
        } else if op == OP_CLI {
            self.after_set_flag(FLAG_INT, false)
        } else if op == OP_CLV {
            self.after_set_flag(FLAG_OVF, false)
        } else if op == OP_DEX {
            self.after_ldx(self.x.wrapping_sub(1))
        } else if op == OP_DEY {
            self.after_ldy(self.y.wrapping_sub(1))
        } else if op == OP_INX {
            self.after_ldx(self.x.wrapping_add(1))
        } else if op == OP_INY {
            self.after_ldy(self.y.wrapping_add(1))
        } else if op == OP_JMP {
            self.after_jmp(mode)
        } else if op == OP_JSR {
            self.after_jsr(mode)
        } else if op == OP_PHA {
            self.after_pushb(self.a)
        } else if op == OP_PHP {
            self.after_pushb(self.p | FLAG_B5 | FLAG_B4)
        } else if op == OP_PLA {
            self.after_pla()
        } else if op == OP_PLP {
            self.after_plp()
        } else if op == OP_RTI {
            self.after_rti()
        } else if op == OP_RTS {
            self.after_rts()
        } else if op == OP_SEC {
            self.after_set_flag(FLAG_CARRY, true)
        } else if op == OP_SED {
            self.after_set_flag(FLAG_DEC, true)
        } else if op == OP_SEI {
            self.after_set_flag(FLAG_INT, true)
        } else if op == OP_TAX {
            self.after_ldx(self.a)
        } else if op == OP_TAY {
            self.after_ldy(self.a)
        } else if op == OP_TSX {
            self.after_ldx(self.s)
        } else if op == OP_TXA {
            self.after_lda(self.x)
        } else if op == OP_TXS {
            Cpu { s: self.x, ..self }
        } else if op == OP_TYA {
            self.after_lda(self.y)
        } else if op == OP_SKB {
            Cpu { pc: self.pc.wrapping_add(1), ..self }
        } else if op == OP_SKW {
            Cpu { pc: self.pc.wrapping_add(2), ..self }
        } else {
            self
        }
    }

    /// The machine after operation `op` in mode `mode`.
    pub open spec fn after_op(self, op: u8, mode: u8) -> Cpu {
        if op < FIRST_STORE_OP {
            self.after_read_op(op, mode)
        } else if op < FIRST_HIGH_STORE_OP {
            self.after_store_op(op, mode)
        } else if op < FIRST_MODIFY_OP {
            self.after_high_store_op(op, mode)
        } else if op < FIRST_BRANCH_OP {
            self.after_modify_op(op, mode)
        } else if op < FIRST_OTHER_OP {
            self.after_bxx(Cpu::branch_taken(op, self.p))
        } else {
            self.after_other_op(op, mode)
        }
    }

    /// The machine after the instruction with opcode `opcode`, whose opcode
    /// byte is already consumed.
    #[verifier::opaque]
    pub open spec fn after_execute(self, opcode: u8) -> Cpu {
        self.after_op(OPCODE_OP[opcode as int], OPCODE_MODE[opcode as int])
    }

    /// After interrupt entry: the program counter and the status are pushed,
    /// the program counter is loaded from the vector, and seven cycles pass.
    #[verifier::opaque]
    pub open spec fn after_handle_nmi(self) -> Cpu {
        let pushed = self.after_pushw(self.pc).after_pushb(self.p);
        Cpu { pc: pushed.bus.read_value16(NMI_VECTOR), ..pushed.after_load16(NMI_VECTOR) }.after_cycles(
            INTERRUPT_CYCLES,
        )
    }

    /// Whether the sound generator's interrupt request reaches the CPU: the
    /// request is pending and interrupts are not disabled.
    pub open spec fn irq_line(&self) -> bool {
        self.bus.apu.irq_pending && !flag_set(self.p, FLAG_INT)
    }

    /// After entry to a maskable interrupt: the program counter and the
    /// status with both B bits are pushed, interrupts are disabled, the
    /// program counter is loaded from the vector it shares with the break,
    /// and seven cycles pass.
    #[verifier::opaque]
    pub open spec fn after_handle_irq(self) -> Cpu {
        let pushed = self.after_pushw(self.pc).after_pushb(self.p | FLAG_B4 | FLAG_B5);
        Cpu {
            pc: pushed.bus.read_value16(BRK_VECTOR),
            ..pushed.after_set_flag(FLAG_INT, true).after_load16(BRK_VECTOR)
        }.after_cycles(INTERRUPT_CYCLES)
    }

    /// The machine at the start of a step, after the interrupt lines are
    /// sampled. A vertical-blank line that rose since the last step enters
    /// its interrupt; otherwise a request of the sound generator that is not
    /// masked enters the maskable one.
    pub open spec fn begun(self) -> Cpu {
        let fresh = Cpu { elapsed: 0, rom_fault: false, ..self };
        let line = self.bus.ppu.nmi_line();
        if line && !self.prev_nmi {
            Cpu { prev_nmi: true, ..fresh.after_handle_nmi() }
        } else if self.irq_line() {
            Cpu { prev_nmi: line, ..fresh.after_handle_irq() }
        } else {
            Cpu { prev_nmi: line, ..fresh }
        }
    }

    /// The opcode the next step executes.
    pub open spec fn next_opcode(self) -> u8 {
        self.begun().next_byte()
    }

    /// Whether the next step executes a halting opcode.
    pub open spec fn halts(self) -> bool {
        OPCODE_OP[self.next_opcode() as int] == OP_HLT
    }

    /// The machine after a step. A halting opcode is consumed and nothing more.
    #[verifier::opaque]
    pub open spec fn after_step(self) -> Cpu {
        let fetched = Cpu { page_cross: false, ..self.begun().after_fetch_u8() };
        if self.halts() {
            fetched
        } else {
            fetched.after_execute(self.next_opcode()).after_cycles(
                OPCODE_CYCLES[self.next_opcode() as int] as u64,
            )
        }
    }

    /// What a step returns: the cycles it consumed, or why the session ends.
    #[verifier::opaque]
    pub open spec fn step_outcome(self) -> Result<u64, NesError> {
        if self.halts() {
            Err(NesError::FatalCpuHalt)
        } else if self.after_step().rom_fault {
            Err(NesError::RomWrite)
        } else {
            Ok(self.after_step().elapsed)
        }
    }

    /// Runs a break.
    pub fn brk(&mut self)
        requires
            old(self).wf(),
        ensures
            *final(self) == old(self).after_brk(),
            old(self).leads_to(final(self), 0),
    {
        reveal(Cpu::after_brk);
        self.pushw(self.pc.wrapping_add(1));
        self.pushb(self.p | FLAG_B4 | FLAG_B5);
        self.set_flag(FLAG_INT, true);
        self.pc = self.load_u16(BRK_VECTOR);
    }

    /// Runs a jump.
    pub fn jmp(&mut self, mode: u8)
        requires
            old(self).wf(),
        ensures
            *final(self) == old(self).after_jmp(mode),
            old(self).leads_to(final(self), 0),
    {
        self.pc = self.target(mode);
    }

    /// Runs a call.
    pub fn jsr(&mut self, mode: u8)
        requires
            old(self).wf(),
        ensures
            *final(self) == old(self).after_jsr(mode),
            old(self).leads_to(final(self), 0),
    {
        reveal(Cpu::after_jsr);
        let to = self.target(mode);
        self.pushw(self.pc.wrapping_sub(1));
        self.pc = to;
    }

    /// Pulls A.
    pub fn pla(&mut self)
        requires
            old(self).wf(),
        ensures
            *final(self) == old(self).after_pla(),
            old(self).leads_to(final(self), 0),
    {
        reveal(Cpu::after_pla);
        let a = self.popb();
        self.a = self.set_nz(a);
    }

    /// Pulls the status; the two B bits keep what they hold.
    pub fn plp(&mut self)
        requires
            old(self).wf(),
        ensures
            *final(self) == old(self).after_plp(),
            old(self).leads_to(final(self), 0),
    {
        reveal(Cpu::after_plp);
        let kept = self.p & 0x30;
        let pulled = self.popb();
        self.p = (pulled & 0xCF) | kept;
    }

    /// Returns from an interrupt.
    pub fn rti(&mut self)
        requires
            old(self).wf(),
        ensures
            *final(self) == old(self).after_rti(),
            old(self).leads_to(final(self), 0),
    {
        reveal(Cpu::after_rti);
        self.p = self.popb();
        self.pc = self.popw();
    }

    /// Returns from a call.
    pub fn rts(&mut self)
        requires
            old(self).wf(),
        ensures
            *final(self) == old(self).after_rts(),
            old(self).leads_to(final(self), 0),
    {
        reveal(Cpu::after_rts);
        self.pc = self.popw().wrapping_add(1);
    }

    /// Runs one of the operations that take no operand from memory, or a jump.
    #[verifier::rlimit(40)]
    pub fn other_op(&mut self, op: u8, mode: u8)
        requires
            old(self).wf(),
        ensures
            *final(self) == old(self).after_other_op(op, mode),
            old(self).leads_to(final(self), 0),
    {
        reveal(Cpu::after_other_op);
        if op == OP_BRK {
            self.brk();
        } else if op == OP_CLC {
            self.set_flag(FLAG_CARRY, false);
        } else if op == OP_CLD {
            self.set_flag(FLAG_DEC, false);
        } else if op == OP_CLI {
            self.set_flag(FLAG_INT, false);
        } else if op == OP_CLV {
            self.set_flag(FLAG_OVF, false);
        } else if op == OP_DEX {
            self.ldx(self.x.wrapping_sub(1));
        } else if op == OP_DEY {
            self.ldy(self.y.wrapping_sub(1));
        } else if op == OP_INX {
            self.ldx(self.x.wrapping_add(1));
        } else if op == OP_INY {
            self.ldy(self.y.wrapping_add(1));
        } else if op == OP_JMP {
            self.jmp(mode);
        } else if op == OP_JSR {
            self.jsr(mode);
        } else if op == OP_PHA {
            self.pushb(self.a);
        } else if op == OP_PHP {
            self.pushb(self.p | FLAG_B5 | FLAG_B4);
        } else if op == OP_PLA {
            self.pla();
        } else if op == OP_PLP {
            self.plp();
        } else if op == OP_RTI {
            self.rti();
        } else if op == OP_RTS {
            self.rts();
        } else if op == OP_SEC {
            self.set_flag(FLAG_CARRY, true);
        } else if op == OP_SED {
            self.set_flag(FLAG_DEC, true);
        } else if op == OP_SEI {
            self.set_flag(FLAG_INT, true);
        } else if op == OP_TAX {
            self.ldx(self.a);
        } else if op == OP_TAY {
            self.ldy(self.a);
        } else if op == OP_TSX {
            self.ldx(self.s);
        } else if op == OP_TXA {
            self.lda(self.x);
        } else if op == OP_TXS {
            self.s = self.x;
        } else if op == OP_TYA {
            self.lda(self.y);
        } else if op == OP_SKB {
            self.pc = self.pc.wrapping_add(1);
        } else if op == OP_SKW {
            self.pc = self.pc.wrapping_add(2);
        }
    }

    /// Runs the instruction with opcode `opcode`, whose opcode byte is
    /// already consumed.
    #[verifier::rlimit(40)]
    pub fn execute(&mut self, opcode: u8)
        requires
            old(self).fits(515),
        ensures
            *final(self) == old(self).after_execute(opcode),
            old(self).leads_to(final(self), 515),
    {
        reveal(Cpu::after_execute);
        let op = OPCODE_OP[opcode as usize];
        let mode = OPCODE_MODE[opcode as usize];
        if op < FIRST_STORE_OP {
            self.read_op(op, mode);
        } else if op < FIRST_HIGH_STORE_OP {
            self.store_op(op, mode);
        } else if op < FIRST_MODIFY_OP {
            self.high_store_op(op, mode);
        } else if op < FIRST_BRANCH_OP {
            self.modify_op(op, mode);
        } else if op < FIRST_OTHER_OP {
            self.branch_op(op);
        } else {
            self.other_op(op, mode);
        }
    }

    /// Enters the vertical-blank interrupt.
    #[verifier::rlimit(40)]
    pub fn handle_nmi(&mut self)
        requires
            old(self).fits(7),
        ensures
            *final(self) == old(self).after_handle_nmi(),
            old(self).leads_to(final(self), 7),
    {
        reveal(Cpu::after_handle_nmi);
        self.pushw(self.pc);
        self.pushb(self.p);
        self.pc = self.load_u16(NMI_VECTOR);
        self.add_cycles(INTERRUPT_CYCLES);
    }

    /// Enters the maskable interrupt.
    #[verifier::rlimit(40)]
    pub fn handle_irq(&mut self)
        requires
            old(self).fits(7),
        ensures
            *final(self) == old(self).after_handle_irq(),
            old(self).leads_to(final(self), 7),
    {
        reveal(Cpu::after_handle_irq);
        self.pushw(self.pc);
        self.pushb(self.p | FLAG_B4 | FLAG_B5);
        self.set_flag(FLAG_INT, true);
        self.pc = self.load_u16(BRK_VECTOR);
        self.add_cycles(INTERRUPT_CYCLES);
    }

    /// Starts a step: clears the step's cycle count and samples the
    /// interrupt lines.
    #[verifier::rlimit(40)]
    pub fn begin_step(&mut self)
        requires
            old(self).wf(),
        ensures
            *final(self) == old(self).begun(),
            final(self).wf(),
            final(self).elapsed <= INTERRUPT_CYCLES,
            final(self).cycles == old(self).cycles.wrapping_add(final(self).elapsed),
            old(self).bus.ppu_ahead <= final(self).bus.ppu_ahead,
            final(self).bus.ppu_ahead - old(self).bus.ppu_ahead <= 3 * final(self).elapsed,
            final(self).bus.clock == old(self).bus.clock,
            old(self).bus.ppu.frame_in_palette() ==> final(self).bus.ppu.frame_in_palette(),
    {
        reveal(Cpu::begun);
        self.elapsed = 0;
        self.rom_fault = false;
        let line = self.bus.pending_nmi();
        if line && !self.prev_nmi {
            self.handle_nmi();
        } else if self.bus.apu.irq_pending() && !self.get_flag(FLAG_INT) {
            self.handle_irq();
        }
        self.prev_nmi = line;
    }

    /// Runs one instruction: samples the interrupt lines and enters an
    /// interrupt if one is due, fetches the opcode, executes it and charges
    /// its cycles. Returns the cycles consumed, for the caller to
    /// move the clock of the other processors on by.
    #[verifier::rlimit(40)]
    pub fn step(&mut self) -> (r: Result<u64, NesError>)
        requires
            old(self).wf(),
        ensures
            *final(self) == old(self).after_step(),
            r == old(self).step_outcome(),
            final(self).wf(),
            final(self).elapsed <= STEP_MAX_CYCLES,
            r matches Ok(cycles) ==> cycles == final(self).elapsed && cycles >= 2,
            final(self).cycles == old(self).cycles.wrapping_add(final(self).elapsed),
            old(self).bus.ppu_ahead <= final(self).bus.ppu_ahead,
            final(self).bus.ppu_ahead - old(self).bus.ppu_ahead <= 3 * final(self).elapsed,
            final(self).bus.clock == old(self).bus.clock,
            old(self).bus.ppu.frame_in_palette() ==> final(self).bus.ppu.frame_in_palette(),
    {
        reveal(Cpu::step_outcome);
        reveal(Cpu::after_step);
        self.begin_step();
        let ghost begun = *self;
        let opcode = self.fetch_u8();
        self.page_cross = false;
        let ghost fetched = *self;
        if OPCODE_OP[opcode as usize] == OP_HLT {
            return Err(NesError::FatalCpuHalt);
        }
        self.execute(opcode);
        let ghost executed = *self;
        proof {
            lemma_opcode_cycles(opcode);
            assert(fetched.leads_to(&executed, 515));
        }
        self.add_cycles(OPCODE_CYCLES[opcode as usize] as u64);
        proof {
            assert(executed.leads_to(self, 8));
        }
        if self.rom_fault {
            return Err(NesError::RomWrite);
        }
        Ok(self.elapsed)
    }
}


/// What a run amounts to: the machine it leaves, the cycles its steps
/// consumed, those of the last of them, the samples of the blocks completed
/// on the way, and the error that ended it early, if one did.
pub struct RunTrace {
    pub cpu: Cpu,
    pub total: int,
    /// Cycles of the last step that consumed any, zero where none did.
    pub last: int,
    pub audio: Seq<u8>,
    pub error: Option<NesError>,
}

impl Cpu {
    /// The machine after the processors caught up with a step that consumed
    /// `cycles` cycles.
    #[verifier::opaque]
    pub open spec fn caught_up(self, cycles: u64) -> Cpu {
        Cpu { bus: self.bus.after_run(cycles), ..self }
    }

    /// A run with `remaining` cycles of budget left: steps follow one
    /// another, the processors catching up after each, until the budget is
    /// used up or a step ends the session. The processors catch up with the
    /// step that ends the session too.
    pub open spec fn run_from(self, remaining: int) -> RunTrace
        decreases
                if remaining > 0 {
                    remaining
                } else {
                    0
                },
    {
        if remaining <= 0 {
            RunTrace { cpu: self, total: 0, last: 0, audio: Seq::empty(), error: None }
        } else {
            let cost = self.after_step().elapsed;
            let next = self.after_step().caught_up(cost);
            let audio = self.after_step().bus.apu.audio_in(cost as nat);
            match self.step_outcome() {
                Err(e) => RunTrace { cpu: next, total: cost as int, last: cost as int, audio, error: Some(e) },
                Ok(cycles) => {
                    proof {
                        self.lemma_step_cost();
                    }
                    let rest = next.run_from(remaining - cost);
                    RunTrace {
                        cpu: rest.cpu,
                        total: cost + rest.total,
                        last: if rest.total == 0 {
                            cost as int
                        } else {
                            rest.last
                        },
                        audio: audio + rest.audio,
                        error: rest.error,
                    }
                },
            }
        }
    }

    /// After power-up: the registers hold their power-on values and the program counter is loaded from the reset vector.
    pub open spec fn after_powerup(self) -> Cpu {
        Cpu {
            a: 0,
            x: 0,
            y: 0,
            p: 0x34,
            s: 0xFD,
            cycles: 0,
            prev_nmi: false,
            pc: self.bus.read_value16(RESET_VECTOR),
            ..self.after_load16(RESET_VECTOR)
        }
    }

    /// After a reset: interrupts are disabled, S drops by three, the program
    /// counter is loaded from the reset vector and the picture processor and
    /// the sound generator are reset.
    pub open spec fn after_reset(self) -> Cpu {
        let quiet = Cpu { bus: self.bus.after_reset(), ..self };
        Cpu {
            p: self.p | FLAG_INT,
            s: self.s.wrapping_sub(3),
            prev_nmi: false,
            cycles: 0,
            pc: quiet.bus.read_value16(RESET_VECTOR),
            ..quiet.after_load16(RESET_VECTOR)
        }
    }

    /// The CPU before power-up, around the given machine.
    pub open spec fn initial(bus: Bus) -> Cpu {
        Cpu {
            a: 0,
            x: 0,
            y: 0,
            p: 0x34,
            s: 0xFD,
            pc: 0x400,
            bus,
            cycles: 0,
            prev_nmi: false,
            page_cross: false,
            elapsed: 0,
            rom_fault: false,
        }
    }

    /// The CPU before power-up, around the given machine.
    pub fn new(bus: Bus) -> (cpu: Cpu)
        requires
            bus.wf(),
        ensures
            cpu == Cpu::initial(bus),
            cpu.wf(),
            bus.ppu_ahead == 0 ==> cpu.in_sync(),
    {
        Cpu {
            a: 0,
            x: 0,
            y: 0,
            p: 0x34,
            s: 0xFD,
            pc: 0x400,
            bus,
            cycles: 0,
            prev_nmi: false,
            page_cross: false,
            elapsed: 0,
            rom_fault: false,
        }
    }

    /// Sets the registers to their power-on values and loads the program
    /// counter from the reset vector.
    pub fn powerup(&mut self)
        requires
            old(self).wf(),
        ensures
            *final(self) == old(self).after_powerup(),
            final(self).wf(),
            old(self).in_sync() ==> final(self).in_sync(),
            old(self).bus.ppu.frame_in_palette() ==> final(self).bus.ppu.frame_in_palette(),
    {
        self.a = 0;
        self.x = 0;
        self.y = 0;
        self.p = 0x34;
        self.s = 0xFD;
        self.cycles = 0;
        self.prev_nmi = false;
        self.pc = self.bus.load_u16(RESET_VECTOR);
    }

    /// Resets the CPU and the processors it drives.
    pub fn reset(&mut self)
        requires
            old(self).wf(),
        ensures
            *final(self) == old(self).after_reset(),
            final(self).wf(),
            old(self).in_sync() ==> final(self).in_sync(),
            old(self).bus.ppu.frame_in_palette() ==> final(self).bus.ppu.frame_in_palette(),
    {
        self.p = self.p | FLAG_INT;
        self.s = self.s.wrapping_sub(3);
        self.prev_nmi = false;
        self.bus.reset();
        self.pc = self.bus.load_u16(RESET_VECTOR);
        self.cycles = 0;
    }

    /// Runs one step and lets the picture processor and the sound generator
    /// catch up with the cycles it consumed, also where the step ends the
    /// session.
    #[verifier::rlimit(40)]
    pub fn step_in_sync(&mut self, sink: &mut Vec<u8>) -> (r: Result<u64, NesError>)
        requires
            old(self).wf(),
        ensures
            r == old(self).step_outcome(),
            *final(self) == old(self).after_step().caught_up(old(self).after_step().elapsed),
            final(sink)@ == old(sink)@ + old(self).after_step().bus.apu.audio_in(
                old(self).after_step().elapsed as nat,
            ),
            final(self).wf(),
            old(self).bus.ppu.frame_in_palette() ==> final(self).bus.ppu.frame_in_palette(),
            final(self).elapsed == old(self).after_step().elapsed,
            final(self).elapsed <= STEP_MAX_CYCLES,
            r matches Ok(cycles) ==> cycles == final(self).elapsed && cycles >= 2,
            final(self).cycles == old(self).cycles.wrapping_add(final(self).elapsed),
            final(self).bus.clock@ == old(self).bus.clock@ + final(self).elapsed,
            final(self).bus.apu.ticks@ == old(self).bus.apu.ticks@ + final(self).elapsed,
            old(self).in_sync() ==> final(self).in_sync() && final(self).bus.ppu.dots@ == old(self).bus.ppu.dots@ + 3 * final(self).elapsed,
    {
        reveal(Cpu::caught_up);
        let r = self.step();
        self.bus.run(self.elapsed, sink);
        r
    }

    /// Runs steps until at least `max_cycles` cycles are consumed, letting
    /// the picture processor and the sound generator catch up after each.
    /// Returns the cycles consumed, which exceed the budget by less than the
    /// cycles of the last step. Blocks of samples completed on the way are
    /// appended to `sink`. A halting opcode or a store that the cartridge
    /// refuses ends the run with the error. Whatever the outcome, the sound
    /// generator has run a tick and, from a machine that was in step, the
    /// picture processor three dots for every cycle consumed.
    #[verifier::rlimit(40)]
    pub fn run(&mut self, max_cycles: u64, sink: &mut Vec<u8>) -> (r: Result<u64, NesError>)
        requires
            old(self).wf(),
            max_cycles <= u64::MAX - STEP_MAX_CYCLES,
        ensures
            *final(self) == old(self).run_from(max_cycles as int).cpu,
            r == match old(self).run_from(max_cycles as int).error {
                Some(e) => Err::<u64, NesError>(e),
                None => Ok(old(self).run_from(max_cycles as int).total as u64),
            },
            final(sink)@ == old(sink)@ + old(self).run_from(max_cycles as int).audio,
            final(self).wf(),
            old(self).bus.ppu.frame_in_palette() ==> final(self).bus.ppu.frame_in_palette(),
            0 <= old(self).run_from(max_cycles as int).total < max_cycles + STEP_MAX_CYCLES,
            old(self).run_from(max_cycles as int).total > 0 ==> old(self).run_from(
                max_cycles as int,
            ).total < max_cycles + old(self).run_from(max_cycles as int).last,
            r is Ok ==> old(self).run_from(max_cycles as int).total >= max_cycles,
            final(self).cycles == old(self).cycles.wrapping_add(
                old(self).run_from(max_cycles as int).total as u64,
            ),
            old(self).cycles + old(self).run_from(max_cycles as int).total <= u64::MAX ==> final(self).cycles == old(self).cycles + old(self).run_from(max_cycles as int).total,
            final(self).bus.clock@ == old(self).bus.clock@ + old(self).run_from(max_cycles as int).total,
            final(self).bus.apu.ticks@ == old(self).bus.apu.ticks@ + old(self).run_from(
                max_cycles as int,
            ).total,
            old(self).in_sync() ==> final(self).in_sync() && final(self).bus.ppu.dots@ == old(self).bus.ppu.dots@ + 3 * old(self).run_from(max_cycles as int).total,
    {
        let mut total: u64 = 0;
        let ghost whole = old(self).run_from(max_cycles as int);
        let ghost last = 0int;
        proof {
            self.lemma_run_bounds(max_cycles as int);
        }
        while total < max_cycles
            invariant
                self.wf(),
                max_cycles <= u64::MAX - STEP_MAX_CYCLES,
                total < max_cycles + STEP_MAX_CYCLES,
                total > 0 ==> total < max_cycles + last,
                0 <= last <= STEP_MAX_CYCLES,
                whole.last == if self.run_from(max_cycles - total).total == 0 {
                    last
                } else {
                    self.run_from(max_cycles - total).last
                },
                whole == old(self).run_from(max_cycles as int),
                whole.cpu == self.run_from(max_cycles - total).cpu,
                whole.error == self.run_from(max_cycles - total).error,
                whole.total == total + self.run_from(max_cycles - total).total,
                old(sink)@ + whole.audio == sink@ + self.run_from(max_cycles - total).audio,
                self.cycles == old(self).cycles.wrapping_add(total),
                self.bus.clock@ == old(self).bus.clock@ + total,
                self.bus.apu.ticks@ == old(self).bus.apu.ticks@ + total,
                old(self).in_sync() ==> self.in_sync() && self.bus.ppu.dots@ == old(self).bus.ppu.dots@
                    + 3 * total,
                old(self).bus.ppu.frame_in_palette() ==> self.bus.ppu.frame_in_palette(),
            decreases max_cycles + STEP_MAX_CYCLES - total,
        {
            let ghost before = *self;
            let ghost sunk = sink@;
            let ghost spent = total as int;
            proof {
                before.lemma_step_cost();
            }
            match self.step_in_sync(sink) {
                Err(e) => {
                    proof {
                        let block = before.after_step().bus.apu.audio_in(self.elapsed as nat);
                        assert(before.run_from(max_cycles - spent).audio == block);
                        assert(whole.total == spent + self.elapsed);
                        if self.elapsed > 0 {
                            assert(whole.last == self.elapsed);
                        }
                    }
                    return Err(e);
                },
                Ok(cycles) => {
                    total += cycles;
                    proof {
                        last = cycles as int;
                        self.lemma_run_bounds(max_cycles - total);
                        let rest = self.run_from(max_cycles - total);
                        let block = before.after_step().bus.apu.audio_in(cycles as nat);
                        assert(sunk + (block + rest.audio) =~= (sunk + block) + rest.audio);
                    }
                },
            }
        }
        proof {
            assert(sink@ + Seq::<u8>::empty() =~= sink@);
        }
        Ok(total)
    }
}

/// A word is its low byte with its high byte above it.
pub proof fn lemma_word_of_bytes(value: u16)
    by (bit_vector)
    ensures
        (((value % 256) as u8) as u16) | ((((value / 256) as u8) as u16) << 8) == value,
{
}

/// Setting a flag that is set changes nothing.
pub proof fn lemma_flag_set_twice(p: u8, flag: u8)
    by (bit_vector)
    ensures
        (p | flag) | flag == p | flag,
{
}

impl Cpu {
    /// A pull after a push returns the byte that was pushed and puts S back
    /// where it was; the pull leaves the machine as the push left it.
    pub proof fn lemma_push_pull_byte(self, value: u8)
        ensures
            self.after_pushb(value).pulled_byte() == value,
            self.after_pushb(value).after_popb() == (Cpu { s: self.s, ..self.after_pushb(value) }),
    {
        let pushed = self.after_pushb(value);
        self.bus.lemma_ram_access(self.stack_address(), value);
        pushed.bus.lemma_ram_access(self.stack_address(), value);
    }

    /// A pull of two bytes after a push of two returns the value that was
    /// pushed and puts S back where it was.
    pub proof fn lemma_push_pull_word(self, value: u16)
        ensures
            self.after_pushw(value).pulled_word() == value,
            self.after_pushw(value).after_popw() == (Cpu { s: self.s, ..self.after_pushw(value) }),
    {
        lemma_word_of_bytes(value);
        let high = (value / 256) as u8;
        let low = (value % 256) as u8;
        let one = self.after_pushb(high);
        let two = one.after_pushb(low);
        self.bus.lemma_ram_access(self.stack_address(), high);
        one.bus.lemma_ram_access(one.stack_address(), low);
        two.bus.lemma_ram_access(one.stack_address(), low);
        two.bus.lemma_ram_access(self.stack_address(), high);
        assert(two.pulled_byte() == low);
        assert(two.after_popb() == (Cpu { s: one.s, ..two }));
        assert(two.after_popb().pulled_byte() == high);
    }

    /// Entry to the vertical-blank interrupt pushes the program counter,
    /// high byte first, and the status, loads the program counter from the
    /// vector, takes seven cycles and leaves the registers alone.
    pub proof fn lemma_nmi_entry(self)
        requires
            self.has_room(7),
        ensures
            self.after_handle_nmi().pc == self.bus.read_value16(NMI_VECTOR),
            self.after_handle_nmi().s == self.s.wrapping_sub(3),
            self.after_handle_nmi().elapsed == self.elapsed + INTERRUPT_CYCLES,
            self.after_handle_nmi().p == self.p,
            self.after_handle_nmi().a == self.a && self.after_handle_nmi().x == self.x
                && self.after_handle_nmi().y == self.y,
            self.after_handle_nmi().bus.ram[0x100 + self.s] == self.pc / 256,
            self.after_handle_nmi().bus.ram[0x100 + self.s.wrapping_sub(1)] == self.pc % 256,
            self.after_handle_nmi().bus.ram[0x100 + self.s.wrapping_sub(2)] == self.p,
    {
        reveal(Cpu::after_handle_nmi);
        let high = (self.pc / 256) as u8;
        let low = (self.pc % 256) as u8;
        let one = self.after_pushb(high);
        let two = one.after_pushb(low);
        let three = two.after_pushb(self.p);
        self.bus.lemma_ram_access(self.stack_address(), high);
        one.bus.lemma_ram_access(one.stack_address(), low);
        two.bus.lemma_ram_access(two.stack_address(), self.p);
        self.bus.lemma_cartridge_load(NMI_VECTOR);
        self.bus.lemma_cartridge_load(0xFFFB);
        three.bus.lemma_cartridge_load(NMI_VECTOR);
        three.bus.lemma_cartridge_load(0xFFFB);
        assert(three.bus.after_load16(NMI_VECTOR) == three.bus);
    }

    /// A second reset changes nothing that the first has set, but for S,
    /// which every reset lowers by three.
    pub proof fn lemma_reset_twice(self)
        ensures
            self.after_reset().after_reset() == (Cpu {
                s: self.after_reset().s.wrapping_sub(3),
                ..self.after_reset()
            }),
    {
        lemma_flag_set_twice(self.p, FLAG_INT);
        let quiet = self.bus.after_reset();
        quiet.lemma_cartridge_load(RESET_VECTOR);
        quiet.lemma_cartridge_load(0xFFFD);
        assert(quiet.after_load16(RESET_VECTOR) == quiet);
        assert(self.after_reset().bus == quiet);
        assert(quiet.after_reset() == quiet);
    }
}

} // verus!
