use vstd::prelude::*;
use vstd::array::spec_array_fill_for_copy_type;
use vstd::array::spec_array_update;

verus! {

/// Length counter loads, indexed by the upper five bits of a write to the
/// fourth register of a channel.
pub const LENGTH_TABLE: [u8; 32] = [
    10, 254, 20, 2, 40, 4, 80, 6, 160, 8, 60, 10, 14, 12, 26, 14,
    12, 16, 24, 18, 48, 20, 96, 22, 192, 24, 72, 26, 16, 28, 32, 30,
];

/// The four duty patterns of eight steps each: 12.5%, 25%, 50% and 25% negated.
pub const PULSE_DUTY: [u8; 32] = [
    0, 1, 0, 0, 0, 0, 0, 0,
    0, 1, 1, 0, 0, 0, 0, 0,
    0, 1, 1, 1, 1, 0, 0, 0,
    1, 0, 0, 1, 1, 1, 1, 1,
];

/// Sequencer ticks at which the phases of the four-step sequence fall.
pub const SEQUENCER_MODE0: [u16; 4] = [7457, 14913, 22371, 29828];

/// Sequencer ticks at which the phases of the five-step sequence fall.
pub const SEQUENCER_MODE1: [u16; 5] = [7457, 14913, 22371, 29829, 37281];

/// Samples in a block of audio: one sixtieth of a second at 44 100 Hz.
pub const AUDIO_BLOCK_LEN: usize = 735;

/// Cycles of the generator from one sample to the next.
pub const SAMPLE_PERIOD: u64 = 40;

/// A period of at least 8 is more than the amount a downward sweep takes off.
pub proof fn lemma_sweep_down(timer: u16, shift: u8)
    by (bit_vector)
    requires
        timer >= 8,
        1 <= shift <= 7,
    ensures
        (timer >> (shift as u16)) + 1 <= timer,
{
}

/// A pulse channel.
#[derive(Clone, Copy, Debug, PartialEq, Eq)]
pub struct Pulse {
    pub enabled: bool,
    pub duty_table: usize,
    pub decay_loop: bool,
    pub length_enabled: bool,
    pub length_counter: u8,
    pub decay_enabled: bool,
    pub decay_v: u8,
    pub sweep_counter: u8,
    pub sweep_timer: u8,
    pub sweep_negate: bool,
    pub sweep_shift: u8,
    pub sweep_reload: bool,
    pub sweep_enabled: bool,
    /// The eleven-bit period.
    pub freq_timer: u16,
    pub freq_counter: u16,
    pub duty_counter: u8,
    pub decay_counter: u8,
    pub decay_reset_flag: bool,
    pub decay_hidden_v: u8,
}

impl Pulse {
    /// The counters are within their ranges, and the sweep unit is only enabled with a shift.
    pub open spec fn wf(&self) -> bool {
        &&& self.duty_table < 4
        &&& self.duty_counter < 8
        &&& self.freq_timer <= 0x7FF
        &&& self.decay_v <= 15
        &&& self.decay_hidden_v <= 15
        &&& self.sweep_shift <= 7
        &&& (self.sweep_enabled ==> self.sweep_shift >= 1)
    }

    /// A silent channel with every counter at zero.
    pub open spec fn initial() -> Pulse {
        Pulse {
            enabled: false,
            duty_table: 0,
            decay_loop: false,
            length_enabled: false,
            length_counter: 0,
            decay_enabled: false,
            decay_v: 0,
            sweep_counter: 0,
            sweep_timer: 0,
            sweep_negate: false,
            sweep_shift: 0,
            sweep_reload: false,
            sweep_enabled: false,
            freq_timer: 0,
            freq_counter: 0,
            duty_counter: 0,
            decay_counter: 0,
            decay_reset_flag: false,
            decay_hidden_v: 0,
        }
    }

    /// After a write of duty, envelope loop, constant-volume flag and volume.
    pub open spec fn after_write4000(self, value: u8) -> Pulse {
        Pulse {
            duty_table: (value / 64) as usize,
            decay_loop: value & 0x20 != 0,
            length_enabled: !(value & 0x20 != 0),
            decay_enabled: value & 0x10 == 0,
            decay_v: value % 16,
            ..self
        }
    }

    /// After a write of the sweep unit's setup.
    pub open spec fn after_write4001(self, value: u8) -> Pulse {
        Pulse {
            sweep_timer: (value / 16) % 8,
            sweep_negate: value & 0x08 != 0,
            sweep_shift: value % 8,
            sweep_reload: true,
            sweep_enabled: value & 0x80 != 0 && value % 8 != 0,
            ..self
        }
    }

    /// After a write of the period's low eight bits.
    pub open spec fn after_write4002(self, value: u8) -> Pulse {
        Pulse { freq_timer: ((self.freq_timer / 256) * 256 + value) as u16, ..self }
    }

    /// The period once its high three bits are written.
    pub open spec fn timer_with_high(self, value: u8) -> u16 {
        (self.freq_timer % 256 + (value % 8) * 256) as u16
    }

    /// After a write of the period's high bits and the length index: the
    /// length counter loads if the channel is enabled, the sequencer restarts
    /// and the envelope is told to restart.
    pub open spec fn after_write4003(self, value: u8) -> Pulse {
        Pulse {
            freq_timer: self.timer_with_high(value),
            length_counter: if self.enabled {
                LENGTH_TABLE[value as int / 8]
            } else {
                self.length_counter
            },
            freq_counter: self.timer_with_high(value),
            duty_counter: 0,
            decay_reset_flag: true,
            ..self
        }
    }

    /// A disabled channel has its length counter held at zero.
    pub open spec fn after_set_channel_enabled(self, enabled: bool) -> Pulse {
        Pulse {
            enabled,
            length_counter: if enabled {
                self.length_counter
            } else {
                0
            },
            ..self
        }
    }

    /// After a timer clock: the counter runs down, and when it is out it
    /// reloads and the duty position moves on.
    pub open spec fn after_step(self) -> Pulse {
        if self.freq_counter > 0 {
            Pulse { freq_counter: (self.freq_counter - 1) as u16, ..self }
        } else {
            Pulse {
                freq_counter: self.freq_timer,
                duty_counter: ((self.duty_counter + 1) % 8) as u8,
                ..self
            }
        }
    }

    /// After an envelope clock.
    pub open spec fn after_decay(self) -> Pulse {
        if self.decay_reset_flag {
            Pulse { decay_reset_flag: false, decay_hidden_v: 0xF, decay_counter: self.decay_v, ..self }
        } else if self.decay_counter > 0 {
            Pulse { decay_counter: (self.decay_counter - 1) as u8, ..self }
        } else {
            Pulse {
                decay_counter: self.decay_v,
                decay_hidden_v: if self.decay_hidden_v > 0 {
                    (self.decay_hidden_v - 1) as u8
                } else if self.decay_loop {
                    0xF
                } else {
                    0
                },
                ..self
            }
        }
    }

    /// The period the sweep unit aims at.
    pub open spec fn sweep_target(&self) -> int {
        if self.sweep_negate {
            self.freq_timer - ((self.freq_timer >> (self.sweep_shift as u16)) + 1)
        } else {
            self.freq_timer + (self.freq_timer >> (self.sweep_shift as u16))
        }
    }

    /// The sweep unit silences the channel when the period is below 8 or the
    /// period it aims at no longer fits in eleven bits.
    pub open spec fn silenced(&self) -> bool {
        self.freq_timer < 8 || (!self.sweep_negate && self.sweep_target() > 0x7FF)
    }

    /// After a sweep clock.
    pub open spec fn after_sweep(self) -> Pulse {
        if self.sweep_reload {
            Pulse { sweep_counter: self.sweep_timer, sweep_reload: false, ..self }
        } else if self.sweep_counter > 0 {
            Pulse { sweep_counter: (self.sweep_counter - 1) as u8, ..self }
        } else {
            Pulse {
                sweep_counter: self.sweep_timer,
                freq_timer: if self.sweep_enabled && !self.silenced() {
                    self.sweep_target() as u16
                } else {
                    self.freq_timer
                },
                ..self
            }
        }
    }

    /// After a length clock.
    pub open spec fn after_length(self) -> Pulse {
        if self.length_enabled && self.length_counter > 0 {
            Pulse { length_counter: (self.length_counter - 1) as u8, ..self }
        } else {
            self
        }
    }

    /// The channel's output level: the envelope's or the constant volume
    /// while the duty pattern is high, the length counter runs and the sweep
    /// unit does not silence the channel; zero otherwise.
    pub open spec fn level(&self) -> u8 {
        if PULSE_DUTY[self.duty_table * 8 + self.duty_counter] == 1 && self.length_counter != 0
            && !self.silenced() {
            if self.decay_enabled {
                self.decay_hidden_v
            } else {
                self.decay_v
            }
        } else {
            0
        }
    }

    /// A silent channel.
    pub fn new() -> (p: Pulse)
        ensures
            p == Pulse::initial(),
            p.wf(),
    {
        Pulse {
            enabled: false,
            duty_table: 0,
            decay_loop: false,
            length_enabled: false,
            length_counter: 0,
            decay_enabled: false,
            decay_v: 0,
            sweep_counter: 0,
            sweep_timer: 0,
            sweep_negate: false,
            sweep_shift: 0,
            sweep_reload: false,
            sweep_enabled: false,
            freq_timer: 0,
            freq_counter: 0,
            duty_counter: 0,
            decay_counter: 0,
            decay_reset_flag: false,
            decay_hidden_v: 0,
        }
    }

    /// Silences the channel and clears its counters.
    pub fn reset(&mut self)
        ensures
            *final(self) == Pulse::initial(),
            final(self).wf(),
    {
        *self = Pulse::new();
    }

    /// Writes duty, envelope loop, constant-volume flag and volume.
    pub fn write4000(&mut self, value: u8)
        requires
            old(self).wf(),
        ensures
            *final(self) == old(self).after_write4000(value),
            final(self).wf(),
    {
        self.duty_table = (value / 64) as usize;
        self.decay_loop = value & 0x20 != 0;
        self.length_enabled = !self.decay_loop;
        self.decay_enabled = value & 0x10 == 0;
        self.decay_v = value % 16;
    }

    /// Writes the sweep unit's setup.
    pub fn write4001(&mut self, value: u8)
        requires
            old(self).wf(),
        ensures
            *final(self) == old(self).after_write4001(value),
            final(self).wf(),
    {
        self.sweep_timer = (value / 16) % 8;
        self.sweep_negate = value & 0x08 != 0;
        self.sweep_shift = value % 8;
        self.sweep_reload = true;
        self.sweep_enabled = value & 0x80 != 0 && self.sweep_shift != 0;
    }

    /// Writes the low eight bits of the period.
    pub fn write4002(&mut self, value: u8)
        requires
            old(self).wf(),
        ensures
            *final(self) == old(self).after_write4002(value),
            final(self).wf(),
    {
        self.freq_timer = (self.freq_timer / 256) * 256 + value as u16;
    }

    /// Writes the high three bits of the period and the length index.
    pub fn write4003(&mut self, value: u8)
        requires
            old(self).wf(),
        ensures
            *final(self) == old(self).after_write4003(value),
            final(self).wf(),
    {
        self.freq_timer = self.freq_timer % 256 + (value % 8) as u16 * 256;
        if self.enabled {
            let idx = (value / 8) as usize;
            self.length_counter = LENGTH_TABLE[idx];
        }
        self.freq_counter = self.freq_timer;
        self.duty_counter = 0;
        self.decay_reset_flag = true;
    }

    /// Enables or disables the channel.
    pub fn set_channel_enabled(&mut self, enabled: bool)
        ensures
            *final(self) == old(self).after_set_channel_enabled(enabled),
            old(self).wf() ==> final(self).wf(),
    {
        self.enabled = enabled;
        if !self.enabled {
            self.length_counter = 0;
        }
    }

    /// Clocks the timer.
    pub fn step(&mut self)
        requires
            old(self).wf(),
        ensures
            *final(self) == old(self).after_step(),
            final(self).wf(),
    {
        if self.freq_counter > 0 {
            self.freq_counter -= 1;
        } else {
            self.freq_counter = self.freq_timer;
            self.duty_counter = (self.duty_counter + 1) % 8;
        }
    }

    /// Clocks the envelope.
    pub fn decay(&mut self)
        requires
            old(self).wf(),
        ensures
            *final(self) == old(self).after_decay(),
            final(self).wf(),
    {
        if self.decay_reset_flag {
            self.decay_reset_flag = false;
            self.decay_hidden_v = 0xF;
            self.decay_counter = self.decay_v;
        } else if self.decay_counter > 0 {
            self.decay_counter -= 1;
        } else {
            self.decay_counter = self.decay_v;
            if self.decay_hidden_v > 0 {
                self.decay_hidden_v -= 1;
            } else if self.decay_loop {
                self.decay_hidden_v = 0xF;
            }
        }
    }

    /// Clocks the sweep unit.
    pub fn sweep(&mut self)
        requires
            old(self).wf(),
        ensures
            *final(self) == old(self).after_sweep(),
            final(self).wf(),
    {
        if self.sweep_reload {
            self.sweep_counter = self.sweep_timer;
            self.sweep_reload = false;
        } else if self.sweep_counter > 0 {
            self.sweep_counter -= 1;
        } else {
            self.sweep_counter = self.sweep_timer;
            if self.sweep_enabled && !self.sweep_silence() {
                if self.sweep_negate {
                    proof {
                        lemma_sweep_down(self.freq_timer, self.sweep_shift);
                    }
                    self.freq_timer -= (self.freq_timer >> self.sweep_shift as u16) + 1;
                } else {
                    self.freq_timer += self.freq_timer >> self.sweep_shift as u16;
                }
            }
        }
    }

    /// Clocks the length counter.
    pub fn length(&mut self)
        ensures
            *final(self) == old(self).after_length(),
            old(self).wf() ==> final(self).wf(),
    {
        if self.length_enabled && self.length_counter > 0 {
            self.length_counter -= 1;
        }
    }

    /// Whether the sweep unit silences the channel.
    pub fn sweep_silence(&self) -> (silent: bool)
        requires
            self.wf(),
        ensures
            silent == self.silenced(),
    {
        if self.freq_timer < 8 {
            true
        } else if !self.sweep_negate {
            proof {
                lemma_shift_shrinks(self.freq_timer, self.sweep_shift);
            }
            self.freq_timer + (self.freq_timer >> self.sweep_shift as u16) > 0x7FF
        } else {
            false
        }
    }

    /// The channel's output level, 0 to 15.
    pub fn out(&self) -> (level: u8)
        requires
            self.wf(),
        ensures
            level == self.level(),
            level <= 15,
    {
        if PULSE_DUTY[self.duty_table * 8 + self.duty_counter as usize] == 1 && self.length_counter != 0
            && !self.sweep_silence() {
            if self.decay_enabled {
                self.decay_hidden_v
            } else {
                self.decay_v
            }
        } else {
            0
        }
    }
}

/// A shifted period is no more than the period.
pub proof fn lemma_shift_shrinks(timer: u16, shift: u8)
    by (bit_vector)
    requires
        shift <= 7,
    ensures
        timer >> (shift as u16) <= timer,
{
}

/// The triangle channel; only its enable flag is kept.
#[derive(Clone, Copy, Debug, PartialEq, Eq)]
pub struct Triangle {
    pub enabled: bool,
}

impl Triangle {
    /// A disabled channel.
    pub fn new() -> (t: Triangle)
        ensures
            !t.enabled,
    {
        Triangle { enabled: false }
    }
}

/// The noise channel; only its enable flag is kept.
#[derive(Clone, Copy, Debug, PartialEq, Eq)]
pub struct Noise {
    pub enabled: bool,
}

impl Noise {
    /// A disabled channel.
    pub fn new() -> (n: Noise)
        ensures
            !n.enabled,
    {
        Noise { enabled: false }
    }
}

/// The sample channel; only its enable flag is kept.
#[derive(Clone, Copy, Debug, PartialEq, Eq)]
pub struct DMC {
    pub enabled: bool,
}

impl DMC {
    /// A disabled channel.
    pub fn new() -> (d: DMC)
        ensures
            !d.enabled,
    {
        DMC { enabled: false }
    }
}


/// The sound generator: two pulse channels, the frame sequencer that clocks
/// their envelopes, sweeps and length counters, and the sample block being filled.
pub struct Apu {
    pub pulse1: Pulse,
    pub pulse2: Pulse,
    /// 0 for the four-step sequence, 1 for the five-step one.
    pub sequencer_mode: u8,
    pub irq_enabled: bool,
    pub irq_pending: bool,
    pub next_seq_phase: usize,
    /// Sequencer ticks left before the next phase is due.
    pub sequencer_counter: u16,
    pub cycle: u64,
    pub apu_cycle: u64,
    pub out_buf: [u8; 735],
    pub out_index: usize,
    pub audio_ready: bool,
    /// Ticks run since the generator was made.
    pub ticks: Ghost<nat>,
}

/// Number of phases of a sequence.
pub open spec fn phase_count(mode: u8) -> int {
    if mode == 0 {
        4
    } else {
        5
    }
}

/// The tick at which phase `phase` of a sequence falls.
pub open spec fn phase_time(mode: u8, phase: int) -> int {
    if mode == 0 {
        SEQUENCER_MODE0[phase] as int
    } else {
        SEQUENCER_MODE1[phase] as int
    }
}

/// What the countdown is set to when `phase` has just come due, so that the
/// next phase comes due at its own tick. After the last phase the sequence
/// starts over.
pub open spec fn countdown_after(mode: u8, phase: int) -> int {
    if phase + 1 == phase_count(mode) {
        phase_time(mode, 0) - 1
    } else {
        phase_time(mode, phase + 1) - phase_time(mode, phase) - 1
    }
}

impl Apu {
    /// Both channels are well-formed, the sequencer is within its sequence and the block has room.
    pub open spec fn wf(&self) -> bool {
        &&& self.pulse1.wf()
        &&& self.pulse2.wf()
        &&& self.sequencer_mode <= 1
        &&& self.next_seq_phase < phase_count(self.sequencer_mode)
        &&& self.out_index < AUDIO_BLOCK_LEN
    }

    /// After a quarter-frame clock, which drives the envelopes.
    pub open spec fn after_quarter(self) -> Apu {
        Apu { pulse1: self.pulse1.after_decay(), pulse2: self.pulse2.after_decay(), ..self }
    }

    /// After a half-frame clock, which drives the sweeps and length counters.
    pub open spec fn after_half(self) -> Apu {
        Apu {
            pulse1: self.pulse1.after_sweep().after_length(),
            pulse2: self.pulse2.after_sweep().after_length(),
            ..self
        }
    }

    /// The clocks of the phase that is due: a quarter-frame clock on the
    /// first four phases, a half-frame clock with the second and fourth, and
    /// in the four-step sequence an interrupt request with the fourth if
    /// requests are enabled. The fifth phase of the five-step sequence is idle.
    pub open spec fn after_phase_clocks(self) -> Apu {
        let phase = self.next_seq_phase;
        if phase == 0 || phase == 2 {
            self.after_quarter()
        } else if phase == 1 {
            self.after_quarter().after_half()
        } else if phase == 3 {
            let clocked = self.after_quarter().after_half();
            if self.sequencer_mode == 0 && self.irq_enabled {
                Apu { irq_pending: true, ..clocked }
            } else {
                clocked
            }
        } else {
            self
        }
    }

    /// After the phase that is due: its clocks, then the move to the next phase.
    pub open spec fn after_phase(self) -> Apu {
        Apu {
            next_seq_phase: ((self.next_seq_phase + 1) % phase_count(self.sequencer_mode)) as usize,
            sequencer_counter: countdown_after(self.sequencer_mode, self.next_seq_phase as int) as u16,
            ..self.after_phase_clocks()
        }
    }

    /// After a sequencer tick.
    pub open spec fn after_sequencer(self) -> Apu {
        if self.sequencer_counter > 0 {
            Apu { sequencer_counter: (self.sequencer_counter - 1) as u16, ..self }
        } else {
            self.after_phase()
        }
    }

    /// The sum of the levels of the enabled channels.
    pub open spec fn mixed_sample(&self) -> u8 {
        ((if self.pulse1.enabled {
            self.pulse1.level()
        } else {
            0
        }) + (if self.pulse2.enabled {
            self.pulse2.level()
        } else {
            0
        })) as u8
    }

    /// The generator with the counters, channel timers and sequencer moved on
    /// by a tick, before a sample is taken. The channel timers run on every
    /// second tick.
    pub open spec fn clocked(self) -> Apu {
        let cycle = self.cycle.wrapping_add(1);
        Apu {
            cycle,
            apu_cycle: if cycle % 2 == 0 {
                self.apu_cycle.wrapping_add(1)
            } else {
                self.apu_cycle
            },
            pulse1: if cycle % 2 == 0 {
                self.pulse1.after_step()
            } else {
                self.pulse1
            },
            pulse2: if cycle % 2 == 0 {
                self.pulse2.after_step()
            } else {
                self.pulse2
            },
            ticks: Ghost(self.ticks@ + 1),
            ..self
        }.after_sequencer()
    }

    /// Whether a sample is due: the generator's cycle count, which steps on
    /// every second tick, has just stepped to a multiple of the period.
    pub open spec fn sample_due(&self) -> bool {
        self.cycle % 2 == 0 && self.apu_cycle % SAMPLE_PERIOD == 0
    }

    /// The generator with the mixed sample added to the block.
    pub open spec fn with_sample(self) -> Apu {
        let filled = spec_array_update(self.out_buf, self.out_index as int, self.mixed_sample());
        if self.out_index + 1 == AUDIO_BLOCK_LEN {
            Apu { out_buf: filled, out_index: 0, audio_ready: true, ..self }
        } else {
            Apu { out_buf: filled, out_index: (self.out_index + 1) as usize, ..self }
        }
    }

    /// The generator one tick later.
    pub open spec fn after_step(self) -> Apu {
        if self.clocked().sample_due() {
            self.clocked().with_sample()
        } else {
            self.clocked()
        }
    }

    /// Whether the next tick completes a block of samples.
    pub open spec fn completes_block(self) -> bool {
        self.clocked().sample_due() && self.clocked().out_index + 1 == AUDIO_BLOCK_LEN
    }

    /// The generator `n` ticks later.
    pub open spec fn after_run(self, n: nat) -> Apu
        decreases n,
    {
        if n == 0 {
            self
        } else {
            self.after_run((n - 1) as nat).after_step()
        }
    }

    /// The samples of the blocks completed within the next `n` ticks, in order.
    pub open spec fn audio_in(self, n: nat) -> Seq<u8>
        decreases n,
    {
        if n == 0 {
            Seq::empty()
        } else if self.after_run((n - 1) as nat).completes_block() {
            self.audio_in((n - 1) as nat) + self.after_run(n).out_buf@
        } else {
            self.audio_in((n - 1) as nat)
        }
    }

    /// After a write of the channel enables.
    pub open spec fn after_write4015(self, value: u8) -> Apu {
        Apu {
            pulse1: self.pulse1.after_set_channel_enabled(value & 0x01 != 0),
            pulse2: self.pulse2.after_set_channel_enabled(value & 0x02 != 0),
            ..self
        }
    }

    /// After a write of the frame counter register: the sequence restarts in
    /// the mode given by bit 7, the five-step mode clocks the channels at
    /// once, and bit 6 set disables and clears the interrupt request.
    pub open spec fn after_write4017(self, value: u8) -> Apu {
        let mode = value / 128;
        let restarted = Apu {
            sequencer_mode: mode,
            irq_enabled: value & 0x40 == 0,
            next_seq_phase: 0,
            sequencer_counter: (phase_time(mode, 0) - 1) as u16,
            ..self
        };
        let clocked = if mode == 1 {
            restarted.after_quarter().after_half()
        } else {
            restarted
        };
        Apu { irq_pending: clocked.irq_pending && clocked.irq_enabled, ..clocked }
    }

    /// After a reset: the channels are silent and the cycle count starts over.
    pub open spec fn after_reset(self) -> Apu {
        Apu { pulse1: Pulse::initial(), pulse2: Pulse::initial(), cycle: 0, ..self }
    }

    /// The generator at power-on: silent channels, the four-step sequence
    /// at its start, an empty block.
    pub open spec fn power_on() -> Apu {
        Apu {
            pulse1: Pulse::initial(),
            pulse2: Pulse::initial(),
            sequencer_mode: 0,
            irq_enabled: false,
            irq_pending: false,
            next_seq_phase: 0,
            sequencer_counter: 7456,
            cycle: 0,
            apu_cycle: 0,
            out_buf: spec_array_fill_for_copy_type::<u8, 735>(0),
            out_index: 0,
            audio_ready: false,
            ticks: Ghost(0),
        }
    }

    /// The generator at power-on.
    pub fn new() -> (a: Apu)
        ensures
            a == Apu::power_on(),
            a.wf(),
    {
        Apu {
            pulse1: Pulse::new(),
            pulse2: Pulse::new(),
            sequencer_mode: 0,
            irq_enabled: false,
            irq_pending: false,
            next_seq_phase: 0,
            sequencer_counter: SEQUENCER_MODE0[0] - 1,
            cycle: 0,
            apu_cycle: 0,
            out_buf: [0u8; 735],
            out_index: 0,
            audio_ready: false,
            ticks: Ghost(0),
        }
    }

    /// Silences the channels and restarts the cycle count.
    pub fn reset(&mut self)
        ensures
            *final(self) == old(self).after_reset(),
            old(self).wf() ==> final(self).wf(),
    {
        self.pulse1.reset();
        self.pulse2.reset();
        self.cycle = 0;
    }

    /// Writes the channel enables.
    pub fn write4015(&mut self, value: u8)
        ensures
            *final(self) == old(self).after_write4015(value),
            old(self).wf() ==> final(self).wf(),
    {
        self.pulse1.set_channel_enabled(value & 0x01 != 0);
        self.pulse2.set_channel_enabled(value & 0x02 != 0);
    }

    /// Clocks the envelopes.
    pub fn quarter_clock(&mut self)
        requires
            old(self).wf(),
        ensures
            *final(self) == old(self).after_quarter(),
            final(self).wf(),
    {
        self.pulse1.decay();
        self.pulse2.decay();
    }

    /// Clocks the sweep units and the length counters.
    pub fn half_clock(&mut self)
        requires
            old(self).wf(),
        ensures
            *final(self) == old(self).after_half(),
            final(self).wf(),
    {
        self.pulse1.sweep();
        self.pulse1.length();
        self.pulse2.sweep();
        self.pulse2.length();
    }

    /// Writes the first register of pulse 1.
    pub fn write4000(&mut self, value: u8)
        requires
            old(self).wf(),
        ensures
            *final(self) == (Apu { pulse1: old(self).pulse1.after_write4000(value), ..*old(self) }),
            final(self).wf(),
    {
        self.pulse1.write4000(value);
    }

    /// Writes the second register of pulse 1.
    pub fn write4001(&mut self, value: u8)
        requires
            old(self).wf(),
        ensures
            *final(self) == (Apu { pulse1: old(self).pulse1.after_write4001(value), ..*old(self) }),
            final(self).wf(),
    {
        self.pulse1.write4001(value);
    }

    /// Writes the third register of pulse 1.
    pub fn write4002(&mut self, value: u8)
        requires
            old(self).wf(),
        ensures
            *final(self) == (Apu { pulse1: old(self).pulse1.after_write4002(value), ..*old(self) }),
            final(self).wf(),
    {
        self.pulse1.write4002(value);
    }

    /// Writes the fourth register of pulse 1.
    pub fn write4003(&mut self, value: u8)
        requires
            old(self).wf(),
        ensures
            *final(self) == (Apu { pulse1: old(self).pulse1.after_write4003(value), ..*old(self) }),
            final(self).wf(),
    {
        self.pulse1.write4003(value);
    }

    /// Writes the first register of pulse 2.
    pub fn write4004(&mut self, value: u8)
        requires
            old(self).wf(),
        ensures
            *final(self) == (Apu { pulse2: old(self).pulse2.after_write4000(value), ..*old(self) }),
            final(self).wf(),
    {
        self.pulse2.write4000(value);
    }

    /// Writes the second register of pulse 2.
    pub fn write4005(&mut self, value: u8)
        requires
            old(self).wf(),
        ensures
            *final(self) == (Apu { pulse2: old(self).pulse2.after_write4001(value), ..*old(self) }),
            final(self).wf(),
    {
        self.pulse2.write4001(value);
    }

    /// Writes the third register of pulse 2.
    pub fn write4006(&mut self, value: u8)
        requires
            old(self).wf(),
        ensures
            *final(self) == (Apu { pulse2: old(self).pulse2.after_write4002(value), ..*old(self) }),
            final(self).wf(),
    {
        self.pulse2.write4002(value);
    }

    /// Writes the fourth register of pulse 2.
    pub fn write4007(&mut self, value: u8)
        requires
            old(self).wf(),
        ensures
            *final(self) == (Apu { pulse2: old(self).pulse2.after_write4003(value), ..*old(self) }),
            final(self).wf(),
    {
        self.pulse2.write4003(value);
    }

    /// Writes the frame counter register.
    pub fn write4017(&mut self, value: u8)
        requires
            old(self).wf(),
        ensures
            *final(self) == old(self).after_write4017(value),
            final(self).wf(),
    {
        self.sequencer_mode = value / 128;
        self.irq_enabled = value & 0x40 == 0;
        self.next_seq_phase = 0;
        self.sequencer_counter = if self.sequencer_mode == 0 {
            SEQUENCER_MODE0[0] - 1
        } else {
            SEQUENCER_MODE1[0] - 1
        };
        if self.sequencer_mode == 1 {
            self.quarter_clock();
            self.half_clock();
        }
        if !self.irq_enabled {
            self.irq_pending = false;
        }
    }

    /// Runs the phase that is due in the four-step sequence and returns the
    /// countdown to the next.
    pub fn mode0(&mut self) -> (countdown: u16)
        requires
            old(self).wf(),
            old(self).sequencer_mode == 0,
        ensures
            *final(self) == (Apu {
                sequencer_counter: old(self).sequencer_counter,
                ..old(self).after_phase()
            }),
            countdown == old(self).after_phase().sequencer_counter,
            final(self).wf(),
    {
        let phase = self.next_seq_phase;
        if phase == 0 || phase == 2 {
            self.quarter_clock();
        } else if phase == 1 {
            self.quarter_clock();
            self.half_clock();
        } else if phase == 3 {
            self.quarter_clock();
            self.half_clock();
            if self.irq_enabled {
                self.irq_pending = true;
            }
        }
        self.next_seq_phase = phase + 1;
        if self.next_seq_phase == 4 {
            self.next_seq_phase = 0;
            SEQUENCER_MODE0[0] - 1
        } else {
            SEQUENCER_MODE0[phase + 1] - SEQUENCER_MODE0[phase] - 1
        }
    }

    /// Runs the phase that is due in the five-step sequence and returns the
    /// countdown to the next.
    pub fn mode1(&mut self) -> (countdown: u16)
        requires
            old(self).wf(),
            old(self).sequencer_mode == 1,
        ensures
            *final(self) == (Apu {
                sequencer_counter: old(self).sequencer_counter,
                ..old(self).after_phase()
            }),
            countdown == old(self).after_phase().sequencer_counter,
            final(self).wf(),
    {
        let phase = self.next_seq_phase;
        if phase == 0 || phase == 2 {
            self.quarter_clock();
        } else if phase == 1 || phase == 3 {
            self.quarter_clock();
            self.half_clock();
        }
        self.next_seq_phase = phase + 1;
        if self.next_seq_phase == 5 {
            self.next_seq_phase = 0;
            SEQUENCER_MODE1[0] - 1
        } else {
            SEQUENCER_MODE1[phase + 1] - SEQUENCER_MODE1[phase] - 1
        }
    }

    /// Ticks the frame sequencer.
    pub fn sequencer(&mut self)
        requires
            old(self).wf(),
        ensures
            *final(self) == old(self).after_sequencer(),
            final(self).wf(),
    {
        if self.sequencer_counter > 0 {
            self.sequencer_counter -= 1;
        } else if self.sequencer_mode == 0 {
            self.sequencer_counter = self.mode0();
        } else {
            self.sequencer_counter = self.mode1();
        }
    }

    /// Runs one tick. A block of samples that the tick completes is appended
    /// to `sink`.
    pub fn step(&mut self, sink: &mut Vec<u8>)
        requires
            old(self).wf(),
        ensures
            *final(self) == old(self).after_step(),
            final(self).wf(),
            final(sink)@ == if old(self).completes_block() {
                old(sink)@ + final(self).out_buf@
            } else {
                old(sink)@
            },
    {
        self.cycle = self.cycle.wrapping_add(1);
        self.ticks = Ghost(self.ticks@ + 1);
        if self.cycle % 2 == 0 {
            self.apu_cycle = self.apu_cycle.wrapping_add(1);
            self.pulse1.step();
            self.pulse2.step();
        }
        self.sequencer();
        if self.cycle % 2 == 0 && self.apu_cycle % SAMPLE_PERIOD == 0 {
            let mut sample: u8 = 0;
            if self.pulse1.enabled {
                sample = self.pulse1.out();
            }
            if self.pulse2.enabled {
                sample += self.pulse2.out();
            }
            self.out_buf[self.out_index] = sample;
            self.out_index += 1;
            if self.out_index == AUDIO_BLOCK_LEN {
                self.out_index = 0;
                self.audio_ready = true;
                let mut i: usize = 0;
                while i < AUDIO_BLOCK_LEN
                    invariant
                        i <= AUDIO_BLOCK_LEN,
                        sink@ == old(sink)@ + self.out_buf@.subrange(0, i as int),
                    decreases AUDIO_BLOCK_LEN - i,
                {
                    sink.push(self.out_buf[i]);
                    i += 1;
                    assert(self.out_buf@.subrange(0, i as int) =~= self.out_buf@.subrange(0, i - 1).push(
                        self.out_buf[i - 1],
                    ));
                }
                assert(self.out_buf@.subrange(0, AUDIO_BLOCK_LEN as int) =~= self.out_buf@);
            }
        }
    }

    /// Runs `cycles` ticks; the blocks completed on the way are appended to `sink`.
    pub fn run(&mut self, cycles: u64, sink: &mut Vec<u8>)
        requires
            old(self).wf(),
        ensures
            *final(self) == old(self).after_run(cycles as nat),
            final(self).wf(),
            final(sink)@ == old(sink)@ + old(self).audio_in(cycles as nat),
    {
        let mut left = cycles;
        assert(old(sink)@ + Seq::<u8>::empty() =~= old(sink)@);
        while left > 0
            invariant
                self.wf(),
                left <= cycles,
                *self == old(self).after_run((cycles - left) as nat),
                sink@ == old(sink)@ + old(self).audio_in((cycles - left) as nat),
            decreases left,
        {
            let ghost before = *self;
            let ghost sunk = sink@;
            self.step(sink);
            left -= 1;
            proof {
                let n = (cycles - left) as nat;
                assert(before == old(self).after_run((n - 1) as nat));
                if before.completes_block() {
                    assert(sink@ =~= old(sink)@ + old(self).audio_in(n));
                }
            }
        }
    }

    /// Whether a block of samples was completed and not taken yet.
    pub fn audio_ready(&self) -> (ready: bool)
        ensures
            ready == self.audio_ready,
    {
        self.audio_ready
    }

    /// Hands out the block of samples and marks it as taken.
    pub fn take_audio(&mut self) -> (block: [u8; 735])
        ensures
            block == old(self).out_buf,
            *final(self) == (Apu { audio_ready: false, ..*old(self) }),
    {
        self.audio_ready = false;
        self.out_buf
    }

    /// Whether the sequencer requests an interrupt.
    pub fn irq_pending(&self) -> (pending: bool)
        ensures
            pending == self.irq_pending,
    {
        self.irq_pending
    }
}


impl Apu {
    /// Running `n` ticks adds `n` to the count of ticks run.
    pub proof fn lemma_run_ticks(self, n: nat)
        ensures
            self.after_run(n).ticks@ == self.ticks@ + n,
        decreases n,
    {
        if n > 0 {
            self.lemma_run_ticks((n - 1) as nat);
        }
    }
}

} // verus!
