use nes_core::apu::Apu;
use nes_core::apu::Noise;
use nes_core::apu::Pulse;
use nes_core::apu::Triangle;
use nes_core::apu::DMC;
use nes_core::bus::Bus;
use nes_core::controller::Button;
use nes_core::controller::Controller;
use nes_core::error::NesError;
use nes_core::mapper::from_file;
use nes_core::nes::cycles_for;
use nes_core::nes::Nes;
use nes_core::ppu::Ppu;

fn image() -> Vec<u8> {
    let mut bytes = vec![0x4E, 0x45, 0x53, 0x1A, 1, 1, 0, 0];
    bytes.extend_from_slice(&[0u8; 8]);
    let mut prg = vec![0xEAu8; 16384];
    prg[0x3FFC] = 0x00;
    prg[0x3FFD] = 0x80;
    bytes.extend_from_slice(&prg);
    bytes.extend_from_slice(&vec![0u8; 8192]);
    bytes
}

fn bus() -> Bus {
    let mapper = from_file(&image()).unwrap();
    let ppu = Ppu::new(&mapper);
    Bus::new(mapper, ppu, Apu::new())
}

#[test]
fn controller_reports_buttons_in_order() {
    let mut pad = Controller::new();
    pad.update(Button::A, true);
    pad.update(Button::Start, true);
    pad.update(Button::Right, true);
    pad.store_u8(1);
    assert_eq!(pad.load_u8(), 1);
    assert_eq!(pad.load_u8(), 1);
    pad.update(Button::A, false);
    assert_eq!(pad.load_u8(), 0);
    pad.update(Button::A, true);
    pad.store_u8(0);
    let report: Vec<u8> = (0..8).map(|_| pad.load_u8()).collect();
    assert_eq!(report, vec![1, 0, 0, 1, 0, 0, 0, 1]);
    assert_eq!(pad.load_u8(), 1);
    assert_eq!(pad.load_u8(), 1);
    pad.store_u8(0xFE);
    assert_eq!(pad.load_u8(), 1);
    pad.store_u8(0x03);
    pad.store_u8(0x02);
    let report: Vec<u8> = (0..8).map(|_| pad.load_u8()).collect();
    assert_eq!(report, vec![1, 0, 0, 1, 0, 0, 0, 1]);
}

#[test]
fn every_button_has_its_slot() {
    let order = [
        Button::A,
        Button::B,
        Button::Select,
        Button::Start,
        Button::Up,
        Button::Down,
        Button::Left,
        Button::Right,
    ];
    for (i, b) in order.iter().enumerate() {
        assert_eq!(b.slot(), i);
        let mut pad = Controller::new();
        pad.update(*b, true);
        pad.store_u8(1);
        pad.store_u8(0);
        let report: Vec<u8> = (0..8).map(|_| pad.load_u8()).collect();
        let mut expected = vec![0u8; 8];
        expected[i] = 1;
        assert_eq!(report, expected);
    }
}

#[test]
fn bus_decodes_addresses() {
    let mut bus = bus();
    assert_eq!(bus.store_u8(0x0001, 0x11), Ok(()));
    assert_eq!(bus.load_u8(0x0801), 0x11);
    assert_eq!(bus.load_u8(0x1801), 0x11);
    assert_eq!(bus.store_u8(0x1FFF, 0x22), Ok(()));
    assert_eq!(bus.load_u8(0x07FF), 0x22);
    // registers of the picture processor repeat every eight bytes
    assert_eq!(bus.store_u8(0x3FFE, 0x21), Ok(()));
    assert_eq!(bus.store_u8(0x2006, 0x08), Ok(()));
    assert_eq!(bus.ppu.v, 0x2108);
    bus.ppu.ppu_status = 0x80;
    assert_eq!(bus.load_u8(0x200A), 0x80);
    assert_eq!(bus.load_u8(0x2002), 0x00);
    // sound registers read as zero
    assert_eq!(bus.store_u8(0x4015, 0x03), Ok(()));
    assert!(bus.apu.pulse1.enabled && bus.apu.pulse2.enabled);
    assert_eq!(bus.load_u8(0x4015), 0);
    assert_eq!(bus.store_u8(0x4000, 0xBF), Ok(()));
    assert_eq!(bus.apu.pulse1.duty_table, 2);
    assert_eq!(bus.store_u8(0x4004, 0x7F), Ok(()));
    assert_eq!(bus.apu.pulse2.duty_table, 1);
    assert_eq!(bus.store_u8(0x4006, 0x34), Ok(()));
    assert_eq!(bus.store_u8(0x4007, 0x0A), Ok(()));
    assert_eq!(bus.apu.pulse2.freq_timer, 0x234);
    assert_eq!(bus.apu.pulse2.length_counter, 254);
    assert_eq!(bus.store_u8(0x4017, 0x80), Ok(()));
    assert_eq!(bus.apu.sequencer_mode, 1);
    assert_eq!(bus.load_u8(0x4018), 0);
    assert_eq!(bus.store_u8(0x401F, 0xFF), Ok(()));
    // the gamepad
    bus.controller.update(Button::B, true);
    bus.store_u8(0x4016, 1).unwrap();
    bus.store_u8(0x4016, 0).unwrap();
    assert_eq!(bus.load_u8(0x4016), 0);
    assert_eq!(bus.load_u8(0x4016), 1);
    // the cartridge
    assert_eq!(bus.load_u8(0xFFFD), 0x80);
    assert_eq!(bus.load_u16(0xFFFC), 0x8000);
    assert_eq!(bus.store_u8(0x6000, 0x42), Ok(()));
    assert_eq!(bus.load_u16(0x5FFF), 0x4200);
    assert_eq!(bus.store_u8(0x8000, 0x42), Err(NesError::RomWrite));
    assert_eq!(bus.load_u16(0xFFFF), 0x00EA);
}

#[test]
fn load_into_ram_fills_to_the_end() {
    let mut bus = bus();
    bus.store_u8(0x0000, 0x99).unwrap();
    let data: Vec<u8> = (0..0x700).map(|i| (i % 200) as u8).collect();
    bus.load_into_ram(&data, Some(0x100));
    assert_eq!(bus.ram[0], 0x99);
    assert_eq!(bus.ram[0x100], 0);
    assert_eq!(bus.ram[0x7FF], (0x6FF % 200) as u8);
    let all = vec![7u8; 0x800];
    bus.load_into_ram(&all, None);
    assert_eq!(bus.ram[0], 7);
}

#[test]
fn bus_run_moves_both_processors() {
    let mut bus = bus();
    let mut sink = Vec::new();
    assert!(!bus.run(10, &mut sink));
    assert_eq!((bus.ppu.scanline, bus.ppu.cycles), (241, 29));
    assert_eq!(bus.apu.cycle, 10);
    assert_eq!(bus.apu.apu_cycle, 5);
    // the frame ends 20 lines and 312 dots later
    assert!(!bus.run(2377, &mut sink));
    assert!(bus.run(1, &mut sink));
    bus.reset();
    assert_eq!((bus.ppu.scanline, bus.ppu.cycles), (240, 340));
    assert_eq!(bus.apu.cycle, 0);
}

#[test]
fn pulse_registers() {
    let mut p = Pulse::new();
    p.write4000(0b1011_0101);
    assert_eq!(p.duty_table, 2);
    assert!(p.decay_loop);
    assert!(!p.length_enabled);
    assert!(!p.decay_enabled);
    assert_eq!(p.decay_v, 5);
    p.write4001(0b1010_1011);
    assert_eq!(p.sweep_timer, 2);
    assert!(p.sweep_negate);
    assert_eq!(p.sweep_shift, 3);
    assert!(p.sweep_reload);
    assert!(p.sweep_enabled);
    p.write4001(0b1010_1000);
    assert!(!p.sweep_enabled);
    p.write4002(0xCD);
    p.write4003(0b0000_1101);
    assert_eq!(p.freq_timer, 0x5CD);
    assert_eq!(p.freq_counter, 0x5CD);
    assert_eq!(p.length_counter, 0);
    p.set_channel_enabled(true);
    p.write4003(0b0000_1101);
    assert_eq!(p.length_counter, 254);
    p.write4003(0b1111_1000);
    assert_eq!(p.length_counter, 30);
    assert_eq!(p.freq_timer, 0x0CD);
    p.write4002(0x12);
    assert_eq!(p.freq_timer, 0x012);
    assert!(p.decay_reset_flag);
    p.set_channel_enabled(false);
    assert_eq!(p.length_counter, 0);
    p.reset();
    assert_eq!(p, Pulse::new());
}

#[test]
fn pulse_timer_and_duty() {
    let mut p = Pulse::new();
    p.set_channel_enabled(true);
    p.write4000(0b0101_1010);
    p.write4002(0x10);
    p.write4003(0x08);
    // duty 25%: steps 1 and 2 are high
    assert_eq!(p.out(), 0);
    for _ in 0..0x10 {
        p.step();
    }
    assert_eq!(p.duty_counter, 0);
    p.step();
    assert_eq!(p.duty_counter, 1);
    assert_eq!(p.freq_counter, 0x10);
    assert_eq!(p.out(), 10);
    for _ in 0..2 * 0x11 {
        p.step();
    }
    assert_eq!(p.duty_counter, 3);
    assert_eq!(p.out(), 0);
    for _ in 0..5 * 0x11 {
        p.step();
    }
    assert_eq!(p.duty_counter, 0);
    // a period under 8 silences the channel
    p.write4002(0x07);
    p.duty_counter = 1;
    assert!(p.sweep_silence());
    assert_eq!(p.out(), 0);
    // so does a sweep target beyond eleven bits
    p.write4002(0xFF);
    p.write4003(0x07);
    p.write4001(0x81);
    p.duty_counter = 1;
    assert!(p.sweep_silence());
    p.write4001(0x89);
    assert!(!p.sweep_silence());
    p.write4002(0x55);
    p.write4003(0x05);
    p.write4001(0x81);
    // 0x555 + 0x2AA = 0x7FF still fits
    assert!(!p.sweep_silence());
}

#[test]
fn envelope_sweep_and_length() {
    let mut p = Pulse::new();
    p.set_channel_enabled(true);
    p.write4000(0b0000_0010);
    p.write4003(0x08);
    p.decay();
    assert_eq!((p.decay_hidden_v, p.decay_counter), (15, 2));
    p.decay();
    p.decay();
    assert_eq!((p.decay_hidden_v, p.decay_counter), (15, 0));
    p.decay();
    assert_eq!((p.decay_hidden_v, p.decay_counter), (14, 2));
    p.decay_hidden_v = 0;
    p.decay_counter = 0;
    p.decay();
    assert_eq!(p.decay_hidden_v, 0);
    p.write4000(0b0010_0010);
    p.decay_counter = 0;
    p.decay();
    assert_eq!(p.decay_hidden_v, 15);
    // length counts down unless halted
    p.write4000(0b0000_0010);
    p.length_counter = 2;
    p.length();
    p.length();
    p.length();
    assert_eq!(p.length_counter, 0);
    p.write4000(0b0010_0010);
    p.length_counter = 2;
    p.length();
    assert_eq!(p.length_counter, 2);
    // sweep
    p.write4002(0x00);
    p.write4003(0x01);
    p.write4001(0b1001_0001);
    p.sweep();
    assert_eq!((p.sweep_counter, p.sweep_reload), (1, false));
    p.sweep();
    assert_eq!(p.sweep_counter, 0);
    assert_eq!(p.freq_timer, 0x100);
    p.sweep();
    assert_eq!(p.freq_timer, 0x180);
    assert_eq!(p.sweep_counter, 1);
    p.write4001(0b1000_1001);
    p.sweep();
    p.sweep();
    assert_eq!(p.freq_timer, 0x180 - 0xC0 - 1);
}

#[test]
fn other_channels_start_disabled() {
    assert!(!Triangle::new().enabled);
    assert!(!Noise::new().enabled);
    assert!(!DMC::new().enabled);
}

#[test]
fn sequencer_phases_fall_on_their_ticks() {
    let mut apu = Apu::new();
    let mut sink = Vec::new();
    apu.write4015(0x01);
    apu.write4000(0b0000_0001);
    apu.write4003(0x08);
    assert!(apu.pulse1.decay_reset_flag);
    apu.write4017(0x00);
    assert!(apu.irq_enabled);
    apu.run(7456, &mut sink);
    assert!(apu.pulse1.decay_reset_flag);
    apu.run(1, &mut sink);
    // first quarter clock
    assert!(!apu.pulse1.decay_reset_flag);
    assert_eq!(apu.next_seq_phase, 1);
    let length = apu.pulse1.length_counter;
    apu.run(14913 - 7457 - 1, &mut sink);
    assert_eq!(apu.pulse1.length_counter, length);
    apu.run(1, &mut sink);
    // first half clock
    assert_eq!(apu.pulse1.length_counter, length - 1);
    assert_eq!(apu.next_seq_phase, 2);
    apu.run(29828 - 14913 - 1, &mut sink);
    assert!(!apu.irq_pending());
    apu.run(1, &mut sink);
    assert!(apu.irq_pending());
    assert_eq!(apu.next_seq_phase, 0);
    assert_eq!(apu.pulse1.length_counter, length - 2);
    // the sequence starts over
    apu.run(7457, &mut sink);
    assert_eq!(apu.next_seq_phase, 1);
    // five-step mode clocks at once and never requests an interrupt
    apu.write4017(0xC0);
    assert!(!apu.irq_pending());
    assert_eq!(apu.pulse1.length_counter, length - 3);
    apu.run(29829, &mut sink);
    assert_eq!(apu.next_seq_phase, 4);
    assert_eq!(apu.pulse1.length_counter, length - 5);
    apu.run(37281 - 29829, &mut sink);
    assert_eq!(apu.next_seq_phase, 0);
    assert_eq!(apu.pulse1.length_counter, length - 5);
    assert!(!apu.irq_pending());
}

#[test]
fn samples_are_handed_over_in_blocks() {
    let mut apu = Apu::new();
    let mut sink = Vec::new();
    apu.write4015(0x03);
    // constant volume 9 and 4, halted length, 50% duty
    apu.write4000(0b1011_1001);
    apu.write4002(0x40);
    apu.write4003(0x08);
    apu.write4004(0b1011_0100);
    apu.write4006(0x40);
    apu.write4007(0x08);
    // one sample every 40 cycles of the generator, which are 80 ticks
    apu.run(79, &mut sink);
    assert_eq!(apu.out_index, 0);
    apu.run(1, &mut sink);
    assert_eq!(apu.out_index, 1);
    apu.run(80, &mut sink);
    assert_eq!(apu.out_index, 2);
    assert!(sink.is_empty());
    assert!(!apu.audio_ready());
    apu.run(733 * 80 - 1, &mut sink);
    assert_eq!(apu.out_index, 734);
    assert!(sink.is_empty());
    apu.run(1, &mut sink);
    assert_eq!(apu.out_index, 0);
    assert!(apu.audio_ready());
    assert_eq!(sink.len(), 735);
    assert!(sink.iter().all(|s| *s == 0 || *s == 13));
    assert!(sink.iter().any(|s| *s == 13));
    let block = apu.take_audio();
    assert_eq!(&block[..], &sink[..]);
    assert!(!apu.audio_ready());
    apu.run(2 * 735 * 80, &mut sink);
    assert_eq!(sink.len(), 3 * 735);
    assert_eq!(apu.out_index, 0);
    apu.reset();
    assert_eq!(apu.cycle, 0);
    assert_eq!(apu.pulse1, Pulse::new());
}

#[test]
fn budget_is_rounded_to_the_nearest_cycle() {
    assert_eq!(cycles_for(0), 0);
    assert_eq!(cycles_for(1), 2);
    assert_eq!(cycles_for(2), 4);
    assert_eq!(cycles_for(3), 5);
    assert_eq!(cycles_for(1_000_000), 1_789_773);
    assert_eq!(cycles_for(16_667), 29_830);
    assert_eq!(cycles_for(u64::MAX), u64::MAX - 531);
}

#[test]
fn console_runs_and_hands_out_frames() {
    let mut nes = Nes::new(&image()).unwrap();
    nes.powerup();
    nes.reset();
    nes.update_controller(Button::Select, true);
    assert!(nes.cpu.bus.controller.buttons[2]);
    let mut frame = vec![0x55u8; 245760];
    let mut sink = Vec::new();
    // 1 ms: no frame yet
    assert_eq!(nes.run(1000, &mut frame, &mut sink), Ok(false));
    assert_eq!(nes.cpu.cycles, 1790);
    assert_eq!(frame[0], 0x55);
    assert_eq!(nes.frame, 0);
    // 20 lines to the end of the frame
    assert_eq!(nes.run(1000, &mut frame, &mut sink), Ok(true));
    assert_eq!(nes.frame, 1);
    assert!(!nes.cpu.bus.ppu.frame_ready());
    assert!(frame.iter().all(|b| *b == 0));
    assert_eq!(nes.cpu.bus.apu.cycle, 2 * 1790);
    assert_eq!(nes.run(40_000, &mut frame, &mut sink), Ok(true));
    assert_eq!(sink.len(), 735);
    assert_eq!(nes.cpu.bus.apu.out_index as u64, nes.cpu.bus.apu.cycle / 80 - 735);
}

#[test]
fn store_to_transfer_register_copies_a_page() {
    let mut bus = bus();
    for i in 0..256u16 {
        bus.store_u8(0x0300 + i, (255 - i) as u8).unwrap();
    }
    bus.store_u8(0x2003, 0x10).unwrap();
    assert_eq!(bus.store_u8(0x4014, 0x03), Ok(()));
    // the copy starts at the sprite address and wraps
    assert_eq!(bus.ppu.oam[0x10], 255);
    assert_eq!(bus.ppu.oam[0xFF], 255 - 0xEF);
    assert_eq!(bus.ppu.oam[0x0F], 0);
    assert_eq!(bus.ppu.oam_addr, 0x10);
    assert_eq!(bus.ppu_ahead, 1536);
    // the dots run ahead are taken off the next ones due
    let mut sink = Vec::new();
    let at = (bus.ppu.scanline, bus.ppu.cycles);
    bus.run(512, &mut sink);
    assert_eq!((bus.ppu.scanline, bus.ppu.cycles), at);
    assert_eq!(bus.ppu_ahead, 0);
    assert_eq!(bus.apu.cycle, 512);
    bus.run(1, &mut sink);
    assert_eq!((bus.ppu.scanline, bus.ppu.cycles), (at.0, at.1 + 3));
}

#[test]
fn console_reports_a_halt() {
    let mut bytes = image();
    bytes[16] = 0x02;
    let mut nes = Nes::new(&bytes).unwrap();
    nes.powerup();
    let mut frame = vec![0x55u8; 245760];
    let mut sink = Vec::new();
    assert_eq!(nes.run(1000, &mut frame, &mut sink), Err(NesError::FatalCpuHalt));
    assert_eq!(nes.cpu.pc, 0x8001);
    assert_eq!(nes.frame, 0);
    assert!(frame.iter().all(|b| *b == 0x55));
    assert!(sink.is_empty());
}
