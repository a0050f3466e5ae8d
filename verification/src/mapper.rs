use vstd::prelude::*;
use vstd::array::spec_array_fill_for_copy_type;
use crate::error::NesError;
use crate::rom::Mirroring;
use crate::rom::NesRom;
use crate::rom::PRG_BANK_LEN;

verus! {

/// A cartridge as the console sees it: a program window for the CPU, a pattern
/// window for the picture processor, and the nametable arrangement.
pub trait Mapper: Sized {
    /// The byte the CPU reads at `address`.
    spec fn prg(&self, address: u16) -> u8;

    /// The byte the picture processor reads at `address`.
    spec fn chr(&self, address: u16) -> u8;

    /// Whether a CPU store at `address` is accepted.
    spec fn prg_writable(&self, address: u16) -> bool;

    /// The cartridge after an accepted CPU store.
    spec fn with_prg(self, address: u16, value: u8) -> Self;

    /// The cartridge after a store from the picture processor.
    spec fn with_chr(self, address: u16, value: u8) -> Self;

    /// Base offsets of the four nametables in the 2 KiB nametable RAM.
    spec fn nt_offsets(&self) -> Seq<u16>;

    fn load_prg_u8(&self, address: u16) -> (value: u8)
        ensures
            value == self.prg(address),
    ;

    fn load_chr_u8(&self, address: u16) -> (value: u8)
        ensures
            value == self.chr(address),
    ;

    /// Stores where the cartridge accepts it; elsewhere the cartridge is left
    /// as it was and the store is reported.
    fn store_prg_u8(&mut self, address: u16, value: u8) -> (r: Result<(), NesError>)
        ensures
            r is Ok <==> old(self).prg_writable(address),
            r is Ok ==> *final(self) == (*old(self)).with_prg(address, value),
            r matches Err(e) ==> e == NesError::RomWrite && *final(self) == *old(self),
    ;

    fn store_chr_u8(&mut self, address: u16, value: u8)
        ensures
            *final(self) == (*old(self)).with_chr(address, value),
    ;

    fn mirroring(&self) -> (table: [u16; 4])
        ensures
            table@ == self.nt_offsets(),
    ;
}

/// Nametable offsets for an arrangement: horizontal pairs the upper and the
/// lower two tables, vertical the left and the right two.
pub open spec fn mirroring_offsets(m: Mirroring) -> Seq<u16> {
    match m {
        Mirroring::Horizontal => seq![0u16, 0u16, 0x400u16, 0x400u16],
        Mirroring::Vertical => seq![0u16, 0x400u16, 0u16, 0x400u16],
    }
}

/// The simplest cartridge: 8 KiB of work RAM below 0x8000, program ROM above
/// it (a single bank appears twice), and one 8 KiB pattern bank.
pub struct Mapper0 {
    pub ram: [u8; 0x2000],
    /// Pattern memory: the first character bank, or RAM where the image has none.
    pub chr: [u8; 0x2000],
    pub rom: NesRom,
}

impl Mapper0 {
    /// Offset into program ROM of a CPU address at or above 0x8000.
    pub open spec fn prg_offset(&self, address: u16) -> int {
        if self.rom.prg_rom@.len() > PRG_BANK_LEN {
            address as int % 0x8000
        } else {
            address as int % 0x4000
        }
    }

    /// What the pattern memory holds when a cartridge is made from `rom`.
    pub open spec fn initial_chr(rom: NesRom, i: int) -> u8 {
        if i < rom.chr_rom@.len() {
            rom.chr_rom@[i]
        } else {
            0
        }
    }

    /// Whether `self` is the cartridge as made from `rom`: work RAM is
    /// clear and pattern memory holds the first character bank.
    pub open spec fn made_from(&self, rom: NesRom) -> bool {
        &&& self.rom == rom
        &&& self.ram == spec_array_fill_for_copy_type::<u8, 0x2000>(0)
        &&& forall|i: int| 0 <= i < 0x2000 ==> self.chr[i] == Mapper0::initial_chr(rom, i)
    }

    /// Makes the cartridge for a parsed image.
    pub fn new(rom: NesRom) -> (m: Mapper0)
        ensures
            m.made_from(rom),
    {
        let mut chr = [0u8; 0x2000];
        let mut i: usize = 0;
        while i < 0x2000 && i < rom.chr_rom.len()
            invariant
                i <= 0x2000,
                forall|k: int| 0 <= k < i ==> chr[k] == Mapper0::initial_chr(rom, k),
                forall|k: int| i <= k < 0x2000 ==> chr[k] == 0,
            decreases 0x2000 - i,
        {
            chr[i] = rom.chr_rom[i];
            i += 1;
        }
        Mapper0 { ram: [0u8; 0x2000], chr, rom }
    }
}

impl Mapper for Mapper0 {
    open spec fn prg(&self, address: u16) -> u8 {
        if address < 0x8000 {
            self.ram[address as int % 0x2000]
        } else if self.prg_offset(address) < self.rom.prg_rom@.len() {
            self.rom.prg_rom@[self.prg_offset(address)]
        } else {
            0
        }
    }

    open spec fn chr(&self, address: u16) -> u8 {
        self.chr[address as int % 0x2000]
    }

    open spec fn prg_writable(&self, address: u16) -> bool {
        address < 0x8000
    }

    open spec fn with_prg(self, address: u16, value: u8) -> Mapper0 {
        Mapper0 { ram: vstd::array::spec_array_update(self.ram, address as int % 0x2000, value), ..self }
    }

    open spec fn with_chr(self, address: u16, value: u8) -> Mapper0 {
        Mapper0 { chr: vstd::array::spec_array_update(self.chr, address as int % 0x2000, value), ..self }
    }

    open spec fn nt_offsets(&self) -> Seq<u16> {
        mirroring_offsets(self.rom.mirroring)
    }

    fn load_prg_u8(&self, address: u16) -> (value: u8) {
        if address < 0x8000 {
            self.ram[(address % 0x2000) as usize]
        } else {
            let offset = if self.rom.prg_rom.len() > PRG_BANK_LEN {
                (address % 0x8000) as usize
            } else {
                (address % 0x4000) as usize
            };
            if offset < self.rom.prg_rom.len() {
                self.rom.prg_rom[offset]
            } else {
                0
            }
        }
    }

    fn load_chr_u8(&self, address: u16) -> (value: u8) {
        self.chr[(address % 0x2000) as usize]
    }

    fn store_prg_u8(&mut self, address: u16, value: u8) -> (r: Result<(), NesError>) {
        if address < 0x8000 {
            self.ram[(address % 0x2000) as usize] = value;
            Ok(())
        } else {
            Err(NesError::RomWrite)
        }
    }

    fn store_chr_u8(&mut self, address: u16, value: u8) {
        self.chr[(address % 0x2000) as usize] = value;
    }

    fn mirroring(&self) -> (table: [u16; 4]) {
        let table: [u16; 4] = match self.rom.mirroring {
            Mirroring::Horizontal => [0, 0, 0x400, 0x400],
            Mirroring::Vertical => [0, 0x400, 0, 0x400],
        };
        assert(table@ =~= mirroring_offsets(self.rom.mirroring));
        table
    }
}

/// Builds the cartridge for the bytes of an image file.
pub fn from_file(image: &[u8]) -> (r: Result<Mapper0, NesError>)
    ensures
        r is Ok <==> NesRom::valid_image(image@) && crate::rom::InesHeader::of_image(image@).mapper_id()
            == 0,
        r matches Ok(m) ==> m.rom.holds(image@) && m.made_from(m.rom),
        r matches Err(e) ==> e == if NesRom::valid_image(image@) {
            NesError::UnsupportedMapper
        } else {
            NesError::InvalidInesImage
        },
{
    let rom = match NesRom::new(image) {
        Ok(rom) => rom,
        Err(e) => {
            return Err(e);
        },
    };
    if rom.mapper_id != 0 {
        return Err(NesError::UnsupportedMapper);
    }
    Ok(Mapper0::new(rom))
}

} // verus!
