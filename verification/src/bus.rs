use vstd::prelude::*;
use vstd::array::spec_array_fill_for_copy_type;
use vstd::array::spec_array_update;
use crate::apu::Apu;
use crate::controller::Controller;
use crate::error::NesError;
use crate::mapper::Mapper;
use crate::mapper::Mapper0;
use crate::ppu::Ppu;
use crate::ppu::OAMDATA;

verus! {

/// The register of the first gamepad.
pub const CONTROLLER_REG: u16 = 0x4016;

/// The register that starts a sprite transfer.
pub const OAM_DMA: u16 = 0x4014;

/// First address that the cartridge answers.
pub const MAPPER_BASE: u16 = 0x4020;

/// Dots the picture processor runs for each byte of a sprite transfer.
pub const DMA_DOTS_PER_BYTE: u64 = 6;

/// The CPU's view of the machine: work RAM, the processors' registers, the
/// gamepad and the cartridge, each at its place in the address space.
pub struct Bus {
    pub ram: [u8; 0x800],
    pub mapper: Mapper0,
    pub ppu: Ppu,
    pub apu: Apu,
    pub controller: Controller,
    /// Dots that the picture processor has run ahead of the CPU's clock.
    pub ppu_ahead: u64,
    /// CPU cycles that the processors have been run for.
    pub clock: Ghost<nat>,
}

impl Bus {
    /// The processors keep step with the clock: one sound tick and three dots
    /// for every CPU cycle, the dots run ahead during sprite transfers aside.
    pub open spec fn in_step(&self) -> bool {
        &&& self.ppu.dots@ == 3 * self.clock@ + self.ppu_ahead
        &&& self.apu.ticks@ == self.clock@
    }

    /// The processors and the gamepad are well-formed and keep step with the clock.
    pub open spec fn wf(&self) -> bool {
        &&& self.ppu.wf()
        &&& self.apu.wf()
        &&& self.controller.wf()
        &&& self.in_step()
    }

    /// The byte a load from `address` returns.
    #[verifier::opaque]
    pub open spec fn read_value(&self, address: u16) -> u8 {
        if address < 0x2000 {
            self.ram[address as int % 0x800]
        } else if address < 0x4000 {
            self.ppu.reg_value(&self.mapper, (address % 8) as u16)
        } else if address == CONTROLLER_REG {
            self.controller.load_value()
        } else if address < MAPPER_BASE {
            0
        } else {
            self.mapper.prg(address)
        }
    }

    /// The machine after a load from `address`: register and gamepad reads
    /// leave their mark.
    #[verifier::opaque]
    pub open spec fn after_load(self, address: u16) -> Bus {
        if 0x2000 <= address < 0x4000 {
            Bus { ppu: self.ppu.after_read_reg(&self.mapper, (address % 8) as u16), ..self }
        } else if address == CONTROLLER_REG {
            Bus { controller: self.controller.after_load(), ..self }
        } else {
            self
        }
    }

    /// The sixteen-bit value that two loads give, low byte first.
    pub open spec fn read_value16(&self, address: u16) -> u16 {
        (self.read_value(address) as u16) | ((self.after_load(address).read_value(
            address.wrapping_add(1),
        ) as u16) << 8)
    }

    /// The machine after the two loads of a sixteen-bit value.
    pub open spec fn after_load16(self, address: u16) -> Bus {
        self.after_load(address).after_load(address.wrapping_add(1))
    }

    /// Whether a store to `address` is accepted.
    #[verifier::opaque]
    pub open spec fn store_ok(&self, address: u16) -> bool {
        address < MAPPER_BASE || self.mapper.prg_writable(address)
    }

    /// The sound generator after a store to one of its registers.
    pub open spec fn apu_after_store(apu: Apu, address: u16, value: u8) -> Apu {
        if address == 0x4000 {
            Apu { pulse1: apu.pulse1.after_write4000(value), ..apu }
        } else if address == 0x4001 {
            Apu { pulse1: apu.pulse1.after_write4001(value), ..apu }
        } else if address == 0x4002 {
            Apu { pulse1: apu.pulse1.after_write4002(value), ..apu }
        } else if address == 0x4003 {
            Apu { pulse1: apu.pulse1.after_write4003(value), ..apu }
        } else if address == 0x4004 {
            Apu { pulse2: apu.pulse2.after_write4000(value), ..apu }
        } else if address == 0x4005 {
            Apu { pulse2: apu.pulse2.after_write4001(value), ..apu }
        } else if address == 0x4006 {
            Apu { pulse2: apu.pulse2.after_write4002(value), ..apu }
        } else if address == 0x4007 {
            Apu { pulse2: apu.pulse2.after_write4003(value), ..apu }
        } else if address == 0x4015 {
            apu.after_write4015(value)
        } else if address == 0x4017 {
            apu.after_write4017(value)
        } else {
            apu
        }
    }

    /// The machine after a store to `address`. A store to the transfer
    /// register copies the page `value` to sprite memory. A store that is
    /// not accepted, and one to an address nothing answers, leave the machine
    /// as it is.
    #[verifier::opaque]
    pub open spec fn after_store(self, address: u16, value: u8) -> Bus {
        if address < 0x2000 {
            Bus { ram: spec_array_update(self.ram, address as int % 0x800, value), ..self }
        } else if address < 0x4000 {
            Bus {
                ppu: self.ppu.after_write_reg((address % 8) as u16, value),
                mapper: self.ppu.mapper_after_write_reg(self.mapper, (address % 8) as u16, value),
                ..self
            }
        } else if address == CONTROLLER_REG {
            Bus { controller: self.controller.after_store(value), ..self }
        } else if address == OAM_DMA {
            self.after_dma(value, 256)
        } else if address < MAPPER_BASE {
            Bus { apu: Bus::apu_after_store(self.apu, address, value), ..self }
        } else if self.mapper.prg_writable(address) {
            Bus { mapper: self.mapper.with_prg(address, value), ..self }
        } else {
            self
        }
    }

    /// Whether the picture processor can run ahead by another byte's dots
    /// without the count of dots ahead leaving its range.
    pub open spec fn can_run_ahead(&self) -> bool {
        self.ppu_ahead <= u64::MAX - DMA_DOTS_PER_BYTE
    }

    /// The machine after one byte of a sprite transfer: a load from `source`,
    /// a write of the byte to the sprite data register, and six dots.
    #[verifier::opaque]
    pub open spec fn after_dma_byte(self, source: u16) -> Bus {
        let loaded = self.after_load(source);
        let moved = Bus { ppu: loaded.ppu.after_write_reg(OAMDATA, self.read_value(source)), ..loaded };
        if moved.can_run_ahead() {
            Bus {
                ppu: moved.ppu.after_run(&moved.mapper, DMA_DOTS_PER_BYTE as nat),
                ppu_ahead: (moved.ppu_ahead + DMA_DOTS_PER_BYTE) as u64,
                ..moved
            }
        } else {
            moved
        }
    }

    /// The machine after the first `n` bytes of a sprite transfer from `page`.
    pub open spec fn after_dma(self, page: u8, n: nat) -> Bus
        decreases n,
    {
        if n == 0 {
            self
        } else {
            self.after_dma(page, (n - 1) as nat).after_dma_byte((page * 256 + (n - 1)) as u16)
        }
    }

    /// Dots still due when the clock moves on by `cycles`.
    pub open spec fn dots_due(&self, cycles: u64) -> nat {
        if self.ppu_ahead <= 3 * cycles {
            (3 * cycles - self.ppu_ahead) as nat
        } else {
            0
        }
    }

    /// The machine after the clock moved on by `cycles`: the picture
    /// processor runs three dots a cycle less those it is ahead, the sound
    /// generator a tick a cycle.
    #[verifier::opaque]
    pub open spec fn after_run(self, cycles: u64) -> Bus {
        Bus {
            ppu: self.ppu.after_run(&self.mapper, self.dots_due(cycles)),
            apu: self.apu.after_run(cycles as nat),
            ppu_ahead: if self.ppu_ahead <= 3 * cycles {
                0
            } else {
                (self.ppu_ahead - 3 * cycles) as u64
            },
            clock: Ghost(self.clock@ + cycles as nat),
            ..self
        }
    }

    /// The machine after the picture processor and the sound generator were reset.
    pub open spec fn after_reset(self) -> Bus {
        Bus { ppu: self.ppu.after_reset(), apu: self.apu.after_reset(), ..self }
    }

    /// The machine at power-on around the given cartridge and processors:
    /// work RAM is clear and the gamepad idle.
    pub open spec fn power_on(mapper: Mapper0, ppu: Ppu, apu: Apu) -> Bus {
        Bus {
            ram: spec_array_fill_for_copy_type::<u8, 0x800>(0),
            mapper,
            ppu,
            apu,
            controller: Controller::idle(),
            ppu_ahead: 0,
            clock: Ghost(0),
        }
    }

    /// Puts the machine together around freshly made processors.
    pub fn new(mapper: Mapper0, ppu: Ppu, apu: Apu) -> (bus: Bus)
        requires
            ppu.wf(),
            apu.wf(),
            ppu.dots@ == 0,
            apu.ticks@ == 0,
        ensures
            bus == Bus::power_on(mapper, ppu, apu),
            bus.wf(),
    {
        Bus {
            ram: [0u8; 0x800],
            mapper,
            ppu,
            apu,
            controller: Controller::new(),
            ppu_ahead: 0,
            clock: Ghost(0),
        }
    }

    /// Loads a byte; loads from registers have side effects.
    #[verifier::rlimit(40)]
    pub fn load_u8(&mut self, address: u16) -> (value: u8)
        requires
            old(self).wf(),
        ensures
            value == old(self).read_value(address),
            *final(self) == old(self).after_load(address),
            final(self).wf(),
            final(self).ppu_ahead == old(self).ppu_ahead,
            final(self).clock == old(self).clock,
            old(self).ppu.frame_in_palette() ==> final(self).ppu.frame_in_palette(),
    {
        reveal(Bus::read_value);
        reveal(Bus::after_load);
        if address < 0x2000 {
            self.ram[(address % 0x800) as usize]
        } else if address < 0x4000 {
            self.ppu.read_reg(&self.mapper, address % 8)
        } else if address == CONTROLLER_REG {
            self.controller.load_u8()
        } else if address < MAPPER_BASE {
            0
        } else {
            self.mapper.load_prg_u8(address)
        }
    }

    /// Loads two bytes, the low one first; the second address wraps at the
    /// top of the address space.
    #[verifier::rlimit(40)]
    pub fn load_u16(&mut self, address: u16) -> (value: u16)
        requires
            old(self).wf(),
        ensures
            value == old(self).read_value16(address),
            *final(self) == old(self).after_load16(address),
            final(self).wf(),
            final(self).ppu_ahead == old(self).ppu_ahead,
            final(self).clock == old(self).clock,
            old(self).ppu.frame_in_palette() ==> final(self).ppu.frame_in_palette(),
    {
        let low = self.load_u8(address);
        let high = self.load_u8(address.wrapping_add(1));
        (low as u16) | ((high as u16) << 8)
    }

    /// Stores a byte. The cartridge may refuse the store, which is then reported.
    #[verifier::rlimit(40)]
    pub fn store_u8(&mut self, address: u16, value: u8) -> (r: Result<(), NesError>)
        requires
            old(self).wf(),
        ensures
            r is Ok <==> old(self).store_ok(address),
            r matches Err(e) ==> e == NesError::RomWrite,
            *final(self) == old(self).after_store(address, value),
            final(self).wf(),
            old(self).ppu_ahead <= final(self).ppu_ahead <= old(self).ppu_ahead + 1536,
            address != OAM_DMA ==> final(self).ppu_ahead == old(self).ppu_ahead,
            final(self).clock == old(self).clock,
            old(self).ppu.frame_in_palette() ==> final(self).ppu.frame_in_palette(),
    {
        reveal(Bus::store_ok);
        reveal(Bus::after_store);
        if address < 0x2000 {
            self.ram[(address % 0x800) as usize] = value;
        } else if address < 0x4000 {
            self.ppu.write_reg(&mut self.mapper, address % 8, value);
        } else if address == 0x4000 {
            self.apu.write4000(value);
        } else if address == 0x4001 {
            self.apu.write4001(value);
        } else if address == 0x4002 {
            self.apu.write4002(value);
        } else if address == 0x4003 {
            self.apu.write4003(value);
        } else if address == 0x4004 {
            self.apu.write4004(value);
        } else if address == 0x4005 {
            self.apu.write4005(value);
        } else if address == 0x4006 {
            self.apu.write4006(value);
        } else if address == 0x4007 {
            self.apu.write4007(value);
        } else if address == 0x4015 {
            self.apu.write4015(value);
        } else if address == CONTROLLER_REG {
            self.controller.store_u8(value);
        } else if address == OAM_DMA {
            self.oam_dma(value);
        } else if address == 0x4017 {
            self.apu.write4017(value);
        } else if address < MAPPER_BASE {
        } else {
            return self.mapper.store_prg_u8(address, value);
        }
        Ok(())
    }

    /// Moves one byte of a sprite transfer.
    #[verifier::rlimit(40)]
    pub fn dma_byte(&mut self, source: u16)
        requires
            old(self).wf(),
        ensures
            *final(self) == old(self).after_dma_byte(source),
            final(self).wf(),
            final(self).clock == old(self).clock,
            old(self).ppu_ahead <= final(self).ppu_ahead <= old(self).ppu_ahead + DMA_DOTS_PER_BYTE,
            old(self).ppu.frame_in_palette() ==> final(self).ppu.frame_in_palette(),
    {
        reveal(Bus::after_dma_byte);
        let value = self.load_u8(source);
        let ghost loaded = self.ppu;
        self.ppu.write_reg(&mut self.mapper, OAMDATA, value);
        if self.ppu_ahead <= u64::MAX - DMA_DOTS_PER_BYTE {
            proof {
                self.ppu.lemma_run_dots(&self.mapper, DMA_DOTS_PER_BYTE as nat);
            }
            self.ppu.run(&self.mapper, DMA_DOTS_PER_BYTE);
            self.ppu_ahead += DMA_DOTS_PER_BYTE;
        }
    }

    /// Copies the 256 bytes of `page` to sprite memory through the sprite
    /// data register, running the picture processor six dots for each.
    #[verifier::rlimit(40)]
    pub fn oam_dma(&mut self, page: u8)
        requires
            old(self).wf(),
        ensures
            *final(self) == old(self).after_dma(page, 256),
            final(self).wf(),
            final(self).clock == old(self).clock,
            old(self).ppu_ahead <= final(self).ppu_ahead <= old(self).ppu_ahead + 1536,
            old(self).ppu.frame_in_palette() ==> final(self).ppu.frame_in_palette(),
    {
        let base = (page as u16) * 256;
        let mut i: u16 = 0;
        while i < 256
            invariant
                i <= 256,
                base == page * 256,
                self.wf(),
                *self == old(self).after_dma(page, i as nat),
                self.clock == old(self).clock,
                old(self).ppu_ahead <= self.ppu_ahead <= old(self).ppu_ahead + 6 * i,
                old(self).ppu.frame_in_palette() ==> self.ppu.frame_in_palette(),
            decreases 256 - i,
        {
            self.dma_byte(base + i);
            i += 1;
        }
    }

    /// Fills work RAM from `offset` (from the start where none is given) to its end.
    pub fn load_into_ram(&mut self, data: &[u8], offset: Option<usize>)
        requires
            offset.unwrap_or(0) <= 0x800,
            data@.len() == 0x800 - offset.unwrap_or(0),
        ensures
            final(self).ram@ == old(self).ram@.subrange(0, offset.unwrap_or(0) as int) + data@,
            *final(self) == (Bus { ram: final(self).ram, ..*old(self) }),
    {
        let start = match offset {
            Some(o) => o,
            None => 0,
        };
        let mut i: usize = 0;
        while i < data.len()
            invariant
                start <= 0x800,
                data@.len() == 0x800 - start,
                i <= data@.len(),
                *self == (Bus { ram: self.ram, ..*old(self) }),
                forall|k: int| 0 <= k < start ==> self.ram[k] == old(self).ram[k],
                forall|k: int| 0 <= k < i ==> self.ram[start + k] == data@[k],
            decreases data@.len() - i,
        {
            self.ram[start + i] = data[i];
            i += 1;
        }
        assert(self.ram@ =~= old(self).ram@.subrange(0, start as int) + data@);
    }

    /// Whether the picture processor raises its interrupt line.
    pub fn pending_nmi(&self) -> (line: bool)
        ensures
            line == self.ppu.nmi_line(),
    {
        self.ppu.pending_nmi()
    }

    /// Resets the picture processor and the sound generator.
    pub fn reset(&mut self)
        requires
            old(self).wf(),
        ensures
            *final(self) == old(self).after_reset(),
            final(self).wf(),
            final(self).ppu_ahead == old(self).ppu_ahead,
            old(self).ppu.frame_in_palette() ==> final(self).ppu.frame_in_palette(),
    {
        self.ppu.reset();
        self.apu.reset();
    }

    /// Moves the clock on by `cycles` and says whether a frame was completed.
    /// Blocks of samples completed on the way are appended to `sink`.
    #[verifier::rlimit(40)]
    pub fn run(&mut self, cycles: u64, sink: &mut Vec<u8>) -> (frame: bool)
        requires
            old(self).wf(),
            cycles <= u64::MAX / 3,
        ensures
            *final(self) == old(self).after_run(cycles),
            frame == (old(self).ppu.frames_in(&old(self).mapper, old(self).dots_due(cycles)) > 0),
            final(self).clock@ == old(self).clock@ + cycles,
            final(self).apu.ticks@ == old(self).apu.ticks@ + cycles,
            final(self).ppu.dots@ == old(self).ppu.dots@ + old(self).dots_due(cycles),
            old(self).ppu_ahead <= 3 * cycles ==> final(self).ppu_ahead == 0,
            old(self).ppu_ahead == 0 ==> final(self).ppu.dots@ == old(self).ppu.dots@ + 3 * cycles,
            old(self).ppu_ahead > 3 * cycles ==> final(self).ppu_ahead == old(self).ppu_ahead - 3 * cycles,
            final(sink)@ == old(sink)@ + old(self).apu.audio_in(cycles as nat),
            final(self).wf(),
            old(self).ppu.frame_in_palette() ==> final(self).ppu.frame_in_palette(),
    {
        reveal(Bus::after_run);
        let dots = cycles * 3;
        let due = if self.ppu_ahead <= dots {
            dots - self.ppu_ahead
        } else {
            0
        };
        self.ppu_ahead = if self.ppu_ahead <= dots {
            0
        } else {
            self.ppu_ahead - dots
        };
        proof {
            self.ppu.lemma_run_dots(&self.mapper, due as nat);
            self.apu.lemma_run_ticks(cycles as nat);
        }
        let frame = self.ppu.run(&self.mapper, due);
        self.apu.run(cycles, sink);
        self.clock = Ghost(self.clock@ + cycles as nat);
        frame
    }
}


impl Bus {
    /// Work RAM is plain memory: a store is always accepted and changes one
    /// byte of it and nothing else, and a load returns the byte and changes
    /// nothing.
    pub proof fn lemma_ram_access(self, address: u16, value: u8)
        requires
            address < 0x2000,
        ensures
            self.store_ok(address),
            self.after_store(address, value) == (Bus {
                ram: spec_array_update(self.ram, address as int % 0x800, value),
                ..self
            }),
            self.read_value(address) == self.ram[address as int % 0x800],
            self.after_load(address) == self,
    {
        reveal(Bus::store_ok);
        reveal(Bus::after_store);
        reveal(Bus::read_value);
        reveal(Bus::after_load);
    }

    /// Loads from the cartridge's window change nothing.
    pub proof fn lemma_cartridge_load(self, address: u16)
        requires
            address >= MAPPER_BASE,
        ensures
            self.read_value(address) == self.mapper.prg(address),
            self.after_load(address) == self,
    {
        reveal(Bus::read_value);
        reveal(Bus::after_load);
    }
}

} // verus!
