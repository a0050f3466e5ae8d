use vstd::prelude::*;
use crate::apu::Apu;
use crate::bus::Bus;
use crate::controller::Button;
use crate::cpu::Cpu;
use crate::cpu::RunTrace;
use crate::cpu::STEP_MAX_CYCLES;
use crate::error::NesError;
use crate::mapper::from_file;
use crate::mapper::Mapper;
use crate::mapper::Mapper0;
use crate::ppu::Ppu;
use crate::ppu::FRAMEBUFFER_LEN;
use crate::rom::InesHeader;
use crate::rom::NesRom;

verus! {

/// CPU cycles in a second of the console's clock.
pub const CPU_HZ: u64 = 1789773;

/// Microseconds in a second.
pub const MICROS_PER_SECOND: u64 = 1000000;

/// The console.
pub struct Nes {
    pub cpu: Cpu,
    /// Frames handed to the host so far; wraps.
    pub frame: u64,
}

/// The cycle budget for `elapsed` microseconds of wall time: the cycles of
/// the console's clock in that time, rounded to the nearest, and no more than
/// a run accepts.
pub open spec fn cycle_budget(elapsed: u64) -> int {
    let cycles = (elapsed * CPU_HZ + MICROS_PER_SECOND / 2) / (MICROS_PER_SECOND as int);
    if cycles <= u64::MAX - STEP_MAX_CYCLES {
        cycles
    } else {
        u64::MAX - STEP_MAX_CYCLES
    }
}

/// The cycle budget for `elapsed` microseconds of wall time.
pub fn cycles_for(elapsed: u64) -> (cycles: u64)
    ensures
        cycles == cycle_budget(elapsed),
{
    let scaled: u128 = (elapsed as u128 * CPU_HZ as u128 + (MICROS_PER_SECOND / 2) as u128)
        / MICROS_PER_SECOND as u128;
    if scaled <= (u64::MAX - STEP_MAX_CYCLES) as u128 {
        scaled as u64
    } else {
        u64::MAX - STEP_MAX_CYCLES
    }
}

impl Nes {
    /// The CPU and the machine it drives are well-formed, and the picture
    /// processor is no dot ahead of the clock.
    pub open spec fn wf(&self) -> bool {
        self.cpu.in_sync()
    }

    /// The console before power-up, around the given cartridge.
    pub open spec fn power_on(mapper: Mapper0, nt_mirror: [u16; 4]) -> Nes {
        Nes {
            cpu: Cpu::initial(Bus::power_on(mapper, Ppu::power_on(nt_mirror), Apu::power_on())),
            frame: 0,
        }
    }

    /// Builds the console around the cartridge in the bytes of an image file.
    #[verifier::rlimit(40)]
    pub fn new(image: &[u8]) -> (r: Result<Nes, NesError>)
        ensures
            r is Ok <==> NesRom::valid_image(image@) && InesHeader::of_image(image@).mapper_id() == 0,
            r matches Err(e) ==> e == if NesRom::valid_image(image@) {
                NesError::UnsupportedMapper
            } else {
                NesError::InvalidInesImage
            },
            r matches Ok(nes) ==> {
                &&& nes.wf()
                &&& nes.cpu.bus.ppu.frame_in_palette()
                &&& nes.cpu.bus.mapper.rom.holds(image@)
                &&& nes.cpu.bus.mapper.made_from(nes.cpu.bus.mapper.rom)
                &&& nes.cpu.bus.ppu.nt_mirror@ == nes.cpu.bus.mapper.nt_offsets()
                &&& nes == Nes::power_on(nes.cpu.bus.mapper, nes.cpu.bus.ppu.nt_mirror)
            },
    {
        let mapper = match from_file(image) {
            Ok(mapper) => mapper,
            Err(e) => {
                return Err(e);
            },
        };
        let ppu = Ppu::new(&mapper);
        let apu = Apu::new();
        let bus = Bus::new(mapper, ppu, apu);
        let cpu = Cpu::new(bus);
        Ok(Nes { cpu, frame: 0 })
    }

    /// Powers the console up.
    pub fn powerup(&mut self)
        requires
            old(self).wf(),
        ensures
            *final(self) == (Nes { cpu: old(self).cpu.after_powerup(), ..*old(self) }),
            final(self).wf(),
    {
        self.cpu.powerup();
    }

    /// Resets the console.
    pub fn reset(&mut self)
        requires
            old(self).wf(),
        ensures
            *final(self) == (Nes { cpu: old(self).cpu.after_reset(), ..*old(self) }),
            final(self).wf(),
    {
        self.cpu.reset();
    }

    /// The console after `button` went down or up.
    pub open spec fn after_update_controller(self, button: Button, pressed: bool) -> Nes {
        Nes {
            cpu: Cpu {
                bus: Bus {
                    controller: self.cpu.bus.controller.after_update(button, pressed),
                    ..self.cpu.bus
                },
                ..self.cpu
            },
            ..self
        }
    }

    /// Records that `button` of the gamepad went down or up.
    pub fn update_controller(&mut self, button: Button, pressed: bool)
        requires
            old(self).wf(),
        ensures
            *final(self) == old(self).after_update_controller(button, pressed),
            final(self).wf(),
    {
        self.cpu.bus.controller.update(button, pressed);
    }

    /// What the run for `elapsed` microseconds amounts to.
    pub open spec fn trace(self, elapsed: u64) -> RunTrace {
        self.cpu.run_from(cycle_budget(elapsed))
    }

    /// Whether the run for `elapsed` microseconds hands out a frame: it ends
    /// without an error and leaves a frame ready.
    pub open spec fn hands_out_frame(self, elapsed: u64) -> bool {
        self.trace(elapsed).error is None && self.trace(elapsed).cpu.bus.ppu.frame_ready
    }

    /// The console after a run for `elapsed` microseconds. A frame that is
    /// handed out is counted and marked as taken.
    pub open spec fn after_run(self, elapsed: u64) -> Nes {
        let ran = self.trace(elapsed).cpu;
        if self.hands_out_frame(elapsed) {
            Nes {
                cpu: Cpu { bus: Bus { ppu: Ppu { frame_ready: false, ..ran.bus.ppu }, ..ran.bus }, ..ran },
                frame: self.frame.wrapping_add(1),
            }
        } else {
            Nes { cpu: ran, ..self }
        }
    }

    /// Runs the console for `elapsed` microseconds of wall time. When a
    /// frame is ready afterwards it is copied to `frame` and the call returns
    /// true. Blocks of samples completed on the way are appended to `sink`.
    /// For every CPU cycle of the run the picture processor runs three dots
    /// and the sound generator one tick.
    #[verifier::rlimit(40)]
    pub fn run(&mut self, elapsed: u64, frame: &mut [u8], sink: &mut Vec<u8>) -> (r: Result<
        bool,
        NesError,
    >)
        requires
            old(self).wf(),
            old(frame)@.len() == FRAMEBUFFER_LEN,
        ensures
            *final(self) == old(self).after_run(elapsed),
            final(self).wf(),
            r == match old(self).trace(elapsed).error {
                Some(e) => Err::<bool, NesError>(e),
                None => Ok(old(self).hands_out_frame(elapsed)),
            },
            final(frame)@ == if old(self).hands_out_frame(elapsed) {
                old(self).trace(elapsed).cpu.bus.ppu.framebuffer@
            } else {
                old(frame)@
            },
            final(sink)@ == old(sink)@ + old(self).trace(elapsed).audio,
            old(self).cpu.bus.ppu.frame_in_palette() ==> final(self).cpu.bus.ppu.frame_in_palette(),
            final(self).cpu.cycles == old(self).cpu.cycles.wrapping_add(
                old(self).trace(elapsed).total as u64,
            ),
            final(self).cpu.bus.ppu.dots@ == old(self).cpu.bus.ppu.dots@ + 3 * old(self).trace(
                elapsed,
            ).total,
            final(self).cpu.bus.apu.ticks@ == old(self).cpu.bus.apu.ticks@ + old(self).trace(
                elapsed,
            ).total,
    {
        let budget = cycles_for(elapsed);
        match self.cpu.run(budget, sink) {
            Err(e) => Err(e),
            Ok(_) => {
                if self.cpu.bus.ppu.frame_ready() {
                    proof {
                        self.cpu.bus.ppu.lemma_frame_only(
                            Ppu { frame_ready: false, ..self.cpu.bus.ppu },
                        );
                    }
                    self.cpu.bus.ppu.copy_frame(frame);
                    self.frame = self.frame.wrapping_add(1);
                    Ok(true)
                } else {
                    Ok(false)
                }
            },
        }
    }
}

} // verus!
