use nes_core::error::NesError;
use nes_core::mapper::from_file;
use nes_core::mapper::Mapper;
use nes_core::nes::Nes;
use nes_core::rom::InesHeader;
use nes_core::rom::Mirroring;
use nes_core::rom::NesRom;

fn image(prg_banks: u8, chr_banks: u8, flags6: u8, flags7: u8) -> Vec<u8> {
    let mut bytes = vec![0x4E, 0x45, 0x53, 0x1A, prg_banks, chr_banks, flags6, flags7];
    bytes.extend_from_slice(&[0u8; 8]);
    if flags6 & 0x04 != 0 {
        bytes.extend_from_slice(&[0xEEu8; 512]);
    }
    for bank in 0..prg_banks as usize {
        for i in 0..16384usize {
            bytes.push(((bank * 7 + i) % 251) as u8);
        }
    }
    for bank in 0..chr_banks as usize {
        for i in 0..8192usize {
            bytes.push(((bank * 3 + i) % 241) as u8);
        }
    }
    bytes
}

#[test]
fn reset_vector_sets_program_counter() {
    let mut bytes = image(1, 1, 0, 0);
    bytes[16 + 0x3FFC] = 0x34;
    bytes[16 + 0x3FFD] = 0x12;
    let mut nes = Nes::new(&bytes).unwrap();
    nes.powerup();
    assert_eq!(nes.cpu.pc, 0x1234);
    assert_eq!(nes.cpu.p, 0x34);
    assert_eq!(nes.cpu.s, 0xFD);
    assert_eq!(nes.cpu.a, 0);
}

#[test]
fn header_round_trip() {
    let mut bytes = image(2, 1, 0x03, 0x00);
    bytes[9] = 0x5A;
    bytes[15] = 0xC3;
    let rom = NesRom::new(&bytes).unwrap();
    assert_eq!(&rom.header.to_bytes()[..], &bytes[..16]);
    let header = InesHeader::parse(&bytes).unwrap();
    assert_eq!(header, rom.header);
}

#[test]
fn short_image_is_invalid() {
    assert_eq!(NesRom::new(&[0x4E, 0x45, 0x53]).err(), Some(NesError::InvalidInesImage));
    let mut bytes = image(1, 1, 0, 0);
    bytes.pop();
    assert_eq!(NesRom::new(&bytes).err(), Some(NesError::InvalidInesImage));
}

#[test]
fn bad_magic_is_invalid() {
    let mut bytes = image(1, 1, 0, 0);
    bytes[3] = 0x1B;
    assert_eq!(NesRom::new(&bytes).err(), Some(NesError::InvalidInesImage));
    let mut bytes = image(1, 1, 0, 0);
    bytes[0] = 0x4F;
    assert_eq!(InesHeader::parse(&bytes).err(), Some(NesError::InvalidInesImage));
}

#[test]
fn unsupported_mapper_is_refused() {
    let bytes = image(1, 1, 0x10, 0);
    assert_eq!(from_file(&bytes).err(), Some(NesError::UnsupportedMapper));
    let bytes = image(1, 1, 0, 0x40);
    assert_eq!(Nes::new(&bytes).err(), Some(NesError::UnsupportedMapper));
}

#[test]
fn rom_fields_follow_header() {
    let bytes = image(2, 1, 0x03, 0x00);
    let rom = NesRom::new(&bytes).unwrap();
    assert_eq!(rom.prg_rom.len(), 32768);
    assert_eq!(rom.chr_rom.len(), 8192);
    assert_eq!(rom.mirroring, Mirroring::Vertical);
    assert!(rom.has_ram);
    assert_eq!(rom.mapper_id, 0);
    assert_eq!(rom.prg_rom[0], bytes[16]);
    assert_eq!(rom.prg_rom[32767], bytes[16 + 32767]);
    assert_eq!(rom.chr_rom[5], bytes[16 + 32768 + 5]);
    let rom = NesRom::new(&image(1, 0, 0xF0, 0xA0)).unwrap();
    assert_eq!(rom.mirroring, Mirroring::Horizontal);
    assert!(!rom.has_ram);
    assert_eq!(rom.mapper_id, 0xAF);
    assert_eq!(rom.chr_rom, vec![0u8; 8192]);
}

#[test]
fn trainer_is_skipped() {
    let bytes = image(1, 1, 0x04, 0);
    let rom = NesRom::new(&bytes).unwrap();
    assert_eq!(rom.prg_rom[0], bytes[16 + 512]);
    assert_eq!(rom.prg_rom[0], 0);
    assert_eq!(rom.prg_rom[1], 1);
    assert_eq!(rom.chr_rom[0], bytes[16 + 512 + 16384]);
}

#[test]
fn mapper0_mirrors_single_bank() {
    let bytes = image(1, 1, 0, 0);
    let mut m = from_file(&bytes).unwrap();
    assert_eq!(m.load_prg_u8(0x8000), m.load_prg_u8(0xC000));
    assert_eq!(m.load_prg_u8(0x8123), bytes[16 + 0x123]);
    assert_eq!(m.load_prg_u8(0xFFFF), bytes[16 + 0x3FFF]);
    assert_eq!(m.store_prg_u8(0x6001, 0x77), Ok(()));
    assert_eq!(m.load_prg_u8(0x6001), 0x77);
    assert_eq!(m.load_prg_u8(0x4001 + 0x2000), 0x77);
    assert_eq!(m.store_prg_u8(0x8000, 1), Err(NesError::RomWrite));
    assert_eq!(m.load_prg_u8(0x8000), bytes[16]);
    assert_eq!(m.load_chr_u8(0x0010), bytes[16 + 16384 + 0x10]);
    m.store_chr_u8(0x0010, 0x99);
    assert_eq!(m.load_chr_u8(0x0010), 0x99);
    assert_eq!(m.mirroring(), [0, 0, 0x400, 0x400]);
    let two = from_file(&image(2, 1, 1, 0)).unwrap();
    assert_eq!(two.load_prg_u8(0xC000), ((7 + 0) % 251) as u8);
    assert_eq!(two.mirroring(), [0, 0x400, 0, 0x400]);
}

#[test]
fn error_messages() {
    assert_eq!(NesError::InvalidInesImage.message(), "invalid iNES image");
    assert_eq!(NesError::UnsupportedMapper.message(), "unsupported mapper");
    assert_eq!(NesError::FatalCpuHalt.message(), "CPU halted");
    assert_eq!(NesError::RomWrite.message(), "write to cartridge ROM");
}
