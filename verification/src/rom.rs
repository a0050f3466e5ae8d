use vstd::prelude::*;
use vstd::slice::slice_subrange;
use vstd::slice::slice_to_vec;
use byteorder::ByteOrder;
use byteorder::LittleEndian;
use crate::error::NesError;

verus! {

/// The four magic bytes `NES\x1A`, read as a little-endian number.
pub const INES_SIGNATURE: u32 = 0x1A53454E;

/// Bytes in an image's header.
pub const INES_HEADER_LEN: usize = 16;

/// Bytes in a trainer.
pub const INES_TRAINER_LEN: usize = 512;

/// Bytes in a program bank.
pub const PRG_BANK_LEN: usize = 16384;

/// Bytes in a character bank.
pub const CHR_BANK_LEN: usize = 8192;

/// Flags 6: vertical mirroring.
pub const FLAGS6_VERTICAL: u8 = 0x01;

/// Flags 6: battery-backed RAM.
pub const FLAGS6_BATTERY: u8 = 0x02;

/// Flags 6: a trainer precedes the program banks.
pub const FLAGS6_TRAINER: u8 = 0x04;

/// Flags 6: the cartridge provides its own nametable memory.
pub const FLAGS6_IGNORE_MIRRORING: u8 = 0x08;

/// The number whose little-endian encoding is the first four bytes of `bytes`.
pub open spec fn le_u32(bytes: Seq<u8>) -> int {
    bytes[0] + bytes[1] * 0x100 + bytes[2] * 0x1_0000 + bytes[3] * 0x100_0000
}

/// Calls `byteorder::LittleEndian::read_u32`, which decodes the first four
/// bytes of the slice as a little-endian `u32` and panics on a shorter slice.
#[verifier::external_body]
fn read_u32_le(bytes: &[u8]) -> (value: u32)
    requires
        bytes@.len() >= 4,
    ensures
        value == le_u32(bytes@),
{
    LittleEndian::read_u32(bytes)
}

/// How the four nametables share the 2 KiB of nametable RAM.
#[derive(Clone, Copy, Debug, PartialEq, Eq)]
pub enum Mirroring {
    Vertical,
    Horizontal,
}

/// The sixteen header bytes of an image, field by field.
#[derive(Clone, Copy, Debug, PartialEq, Eq)]
pub struct InesHeader {
    /// Number of 16 KiB program banks.
    pub prg_count: u8,
    /// Number of 8 KiB character banks; zero stands for character RAM.
    pub chr_count: u8,
    pub flags6: u8,
    pub flags7: u8,
    /// Bytes 8 to 15, which the format reserves.
    pub reserved: [u8; 8],
}

impl InesHeader {
    /// The header as it lies in a file.
    pub open spec fn bytes(self) -> Seq<u8> {
        seq![0x4Eu8, 0x45u8, 0x53u8, 0x1Au8, self.prg_count, self.chr_count, self.flags6, self.flags7]
            + self.reserved@
    }

    /// Whether `image` starts with a header: sixteen bytes that begin with the magic.
    pub open spec fn present(image: Seq<u8>) -> bool {
        image.len() >= INES_HEADER_LEN && le_u32(image) == INES_SIGNATURE
    }

    /// The header whose bytes are the first sixteen of `image`.
    pub open spec fn of_image(image: Seq<u8>) -> InesHeader {
        choose|h: InesHeader| h.bytes() == image.subrange(0, INES_HEADER_LEN as int)
    }

    /// Whether a trainer precedes the program banks.
    pub open spec fn has_trainer(self) -> bool {
        self.flags6 & FLAGS6_TRAINER != 0
    }

    /// Offset of the first program byte in the image.
    pub open spec fn prg_start(self) -> int {
        if self.has_trainer() {
            INES_HEADER_LEN + INES_TRAINER_LEN
        } else {
            INES_HEADER_LEN as int
        }
    }

    /// Bytes of program ROM.
    pub open spec fn prg_len(self) -> int {
        self.prg_count * PRG_BANK_LEN
    }

    /// Bytes of character ROM.
    pub open spec fn chr_len(self) -> int {
        self.chr_count * CHR_BANK_LEN
    }

    /// Length of the shortest image that holds everything the header announces.
    pub open spec fn image_len(self) -> int {
        self.prg_start() + self.prg_len() + self.chr_len()
    }

    /// The nametable arrangement.
    pub open spec fn mirroring(self) -> Mirroring {
        if self.flags6 & FLAGS6_VERTICAL != 0 {
            Mirroring::Vertical
        } else {
            Mirroring::Horizontal
        }
    }

    /// Whether the cartridge has battery-backed RAM.
    pub open spec fn has_ram(self) -> bool {
        self.flags6 & FLAGS6_BATTERY != 0
    }

    /// Low nibble from flags 6, high nibble from flags 7.
    pub open spec fn mapper_id(self) -> u8 {
        ((self.flags6 & 0xF0) >> 4) | (self.flags7 & 0xF0)
    }

    /// Reads the header at the start of `image`.
    pub fn parse(image: &[u8]) -> (r: Result<InesHeader, NesError>)
        ensures
            r is Ok <==> InesHeader::present(image@),
            r matches Ok(h) ==> h == InesHeader::of_image(image@),
            r matches Err(e) ==> e == NesError::InvalidInesImage,
    {
        if image.len() < INES_HEADER_LEN {
            return Err(NesError::InvalidInesImage);
        }
        if read_u32_le(image) != INES_SIGNATURE {
            return Err(NesError::InvalidInesImage);
        }
        let mut reserved = [0u8; 8];
        let mut i: usize = 0;
        while i < 8
            invariant
                i <= 8,
                image@.len() >= 16,
                forall|k: int| 0 <= k < i ==> reserved[k] == image@[8 + k],
            decreases 8 - i,
        {
            reserved[i] = image[8 + i];
            i += 1;
        }
        let h = InesHeader {
            prg_count: image[4],
            chr_count: image[5],
            flags6: image[6],
            flags7: image[7],
            reserved,
        };
        proof {
            assert(h.bytes() =~= image@.subrange(0, INES_HEADER_LEN as int));
            lemma_bytes_injective();
        }
        Ok(h)
    }

    /// Writes the header back as the sixteen bytes it was read from.
    pub fn to_bytes(&self) -> (out: [u8; 16])
        ensures
            out@ == self.bytes(),
    {
        let mut out = [0u8; 16];
        out[0] = 0x4E;
        out[1] = 0x45;
        out[2] = 0x53;
        out[3] = 0x1A;
        out[4] = self.prg_count;
        out[5] = self.chr_count;
        out[6] = self.flags6;
        out[7] = self.flags7;
        let mut i: usize = 0;
        while i < 8
            invariant
                i <= 8,
                out[0] == 0x4E,
                out[1] == 0x45,
                out[2] == 0x53,
                out[3] == 0x1A,
                out[4] == self.prg_count,
                out[5] == self.chr_count,
                out[6] == self.flags6,
                out[7] == self.flags7,
                forall|k: int| 0 <= k < i ==> out[8 + k] == self.reserved[k],
            decreases 8 - i,
        {
            out[8 + i] = self.reserved[i];
            i += 1;
        }
        assert(out@ =~= self.bytes());
        out
    }
}

/// A parsed cartridge image.
#[derive(Clone, Debug, PartialEq, Eq)]
pub struct NesRom {
    pub header: InesHeader,
    pub prg_rom: Vec<u8>,
    pub chr_rom: Vec<u8>,
    pub mirroring: Mirroring,
    pub has_ram: bool,
    pub mapper_id: u8,
}

impl NesRom {
    /// Whether `image` is a complete image: a header followed by at least the
    /// trainer, program and character bytes that the header announces.
    pub open spec fn valid_image(image: Seq<u8>) -> bool {
        InesHeader::present(image) && image.len() >= InesHeader::of_image(image).image_len()
    }

    /// Whether `self` is what loading `image` yields.
    pub open spec fn holds(self, image: Seq<u8>) -> bool {
        let h = InesHeader::of_image(image);
        &&& self.header == h
        &&& self.prg_rom@ == image.subrange(h.prg_start(), h.prg_start() + h.prg_len())
        &&& self.chr_rom@ == if h.chr_count == 0 {
            Seq::new(CHR_BANK_LEN as nat, |i: int| 0u8)
        } else {
            image.subrange(h.prg_start() + h.prg_len(), h.image_len())
        }
        &&& self.mirroring == h.mirroring()
        &&& self.has_ram == h.has_ram()
        &&& self.mapper_id == h.mapper_id()
    }

    /// Parses the bytes of an image file. Bytes after the last character bank are ignored.
    pub fn new(image: &[u8]) -> (r: Result<NesRom, NesError>)
        ensures
            r is Ok <==> NesRom::valid_image(image@),
            r matches Ok(rom) ==> rom.holds(image@),
            r matches Err(e) ==> e == NesError::InvalidInesImage,
    {
        let h = match InesHeader::parse(image) {
            Ok(h) => h,
            Err(e) => {
                return Err(NesError::InvalidInesImage);
            },
        };
        let prg_start: usize = if h.flags6 & FLAGS6_TRAINER != 0 {
            INES_HEADER_LEN + INES_TRAINER_LEN
        } else {
            INES_HEADER_LEN
        };
        let prg_len: usize = h.prg_count as usize * PRG_BANK_LEN;
        let chr_len: usize = h.chr_count as usize * CHR_BANK_LEN;
        let chr_start: usize = prg_start + prg_len;
        if image.len() < chr_start + chr_len {
            return Err(NesError::InvalidInesImage);
        }
        let prg_rom = slice_to_vec(slice_subrange(image, prg_start, chr_start));
        let chr_rom = if h.chr_count == 0 {
            zeroed(CHR_BANK_LEN)
        } else {
            slice_to_vec(slice_subrange(image, chr_start, chr_start + chr_len))
        };
        let mirroring = if h.flags6 & FLAGS6_VERTICAL != 0 {
            Mirroring::Vertical
        } else {
            Mirroring::Horizontal
        };
        let has_ram = h.flags6 & FLAGS6_BATTERY != 0;
        let mapper_id = ((h.flags6 & 0xF0) >> 4) | (h.flags7 & 0xF0);
        Ok(NesRom { header: h, prg_rom, chr_rom, mirroring, has_ram, mapper_id })
    }
}

/// A vector of `len` zero bytes.
pub fn zeroed(len: usize) -> (v: Vec<u8>)
    ensures
        v@ == Seq::new(len as nat, |i: int| 0u8),
{
    let mut v: Vec<u8> = Vec::new();
    let mut i: usize = 0;
    while i < len
        invariant
            i <= len,
            v@.len() == i,
            forall|k: int| 0 <= k < i ==> v@[k] == 0,
        decreases len - i,
    {
        v.push(0);
        i += 1;
    }
    assert(v@ =~= Seq::new(len as nat, |i: int| 0u8));
    v
}

/// Two headers with the same sixteen bytes are the same header.
pub proof fn lemma_bytes_injective()
    ensures
        forall|a: InesHeader, b: InesHeader| #[trigger] a.bytes() == #[trigger] b.bytes() ==> a == b,
{
    assert forall|a: InesHeader, b: InesHeader| #[trigger] a.bytes() == #[trigger] b.bytes() implies a
        == b by {
        assert(a.bytes()[4] == b.bytes()[4]);
        assert(a.bytes()[5] == b.bytes()[5]);
        assert(a.bytes()[6] == b.bytes()[6]);
        assert(a.bytes()[7] == b.bytes()[7]);
        assert forall|i: int| 0 <= i < 8 implies a.reserved[i] == b.reserved[i] by {
            assert(a.bytes()[8 + i] == a.reserved[i]);
            assert(b.bytes()[8 + i] == b.reserved[i]);
        }
        assert(a.reserved =~= b.reserved);
    }
}

/// Loading an image and writing its header back gives the sixteen bytes the
/// image starts with.
pub proof fn lemma_header_round_trip(image: Seq<u8>)
    requires
        InesHeader::present(image),
    ensures
        InesHeader::of_image(image).bytes() == image.subrange(0, INES_HEADER_LEN as int),
{
    let any = InesHeader::of_image(image);
    let r0 = vstd::array::spec_array_update(any.reserved, 0, image[8]);
    let r1 = vstd::array::spec_array_update(r0, 1, image[9]);
    let r2 = vstd::array::spec_array_update(r1, 2, image[10]);
    let r3 = vstd::array::spec_array_update(r2, 3, image[11]);
    let r4 = vstd::array::spec_array_update(r3, 4, image[12]);
    let r5 = vstd::array::spec_array_update(r4, 5, image[13]);
    let r6 = vstd::array::spec_array_update(r5, 6, image[14]);
    let r7 = vstd::array::spec_array_update(r6, 7, image[15]);
    let h = InesHeader {
        prg_count: image[4],
        chr_count: image[5],
        flags6: image[6],
        flags7: image[7],
        reserved: r7,
    };
    assert(h.bytes() =~= image.subrange(0, INES_HEADER_LEN as int));
}

} // verus!
