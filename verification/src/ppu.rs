use vstd::prelude::*;
use vstd::array::spec_array_fill_for_copy_type;
use vstd::array::spec_array_update;
use crate::mapper::Mapper;
use crate::mapper::Mapper0;

verus! {

/// Pixels in a line of the picture.
pub const SCREEN_WIDTH: usize = 256;

/// Lines in the picture.
pub const SCREEN_HEIGHT: usize = 240;

/// Bytes per pixel in the frame buffer.
pub const SCREEN_BPP: usize = 4;

/// Bytes in a frame.
pub const FRAMEBUFFER_LEN: usize = 245760;

/// Last dot of a scanline; a scanline has 341 dots.
pub const LAST_DOT: u32 = 340;

/// The pre-render scanline, the last of the 262 of a frame.
pub const PRE_RENDER_LINE: u32 = 261;

/// The scanline on whose dot 1 vertical blank begins.
pub const VBLANK_LINE: u32 = 241;

pub const PPUCTRL: u16 = 0;

pub const PPUMASK: u16 = 1;

pub const PPUSTATUS: u16 = 2;

pub const OAMADDR: u16 = 3;

pub const OAMDATA: u16 = 4;

pub const PPUSCROLL: u16 = 5;

pub const PPUADDR: u16 = 6;

pub const PPUDATA: u16 = 7;

pub const CTRL_NMI: u8 = 0x80;

pub const STATUS_SPRITE_OVF: u8 = 0x20;

pub const STATUS_SPRITE0_HIT: u8 = 0x40;

pub const STATUS_VBLANK: u8 = 0x80;

pub const MASK_SHOW_BACKGROUND_LEFT: u8 = 0x02;

pub const MASK_SHOW_SPRITE_LEFT: u8 = 0x04;

pub const MASK_SHOW_BACKGROUND: u8 = 0x08;

pub const MASK_SHOW_SPRITES: u8 = 0x10;

pub const OAM_FLIP_H: u8 = 0x40;

pub const OAM_FLIP_V: u8 = 0x80;

/// The 64 colours of the console as red, green, blue triples.
pub const PALETTE_RGB: [u8; 192] = [
    0x66, 0x66, 0x66, 0x00, 0x2A, 0x88, 0x14, 0x12, 0xA7, 0x3B, 0x00, 0xA4,
    0x5C, 0x00, 0x7E, 0x6E, 0x00, 0x40, 0x6C, 0x06, 0x00, 0x56, 0x1D, 0x00,
    0x33, 0x35, 0x00, 0x0B, 0x48, 0x00, 0x00, 0x52, 0x00, 0x00, 0x4F, 0x08,
    0x00, 0x40, 0x4D, 0x00, 0x00, 0x00, 0x00, 0x00, 0x00, 0x00, 0x00, 0x00,
    0xAD, 0xAD, 0xAD, 0x15, 0x5F, 0xD9, 0x42, 0x40, 0xFF, 0x75, 0x27, 0xFE,
    0xA0, 0x1A, 0xCC, 0xB7, 0x1E, 0x7B, 0xB5, 0x31, 0x20, 0x99, 0x4E, 0x00,
    0x6B, 0x6D, 0x00, 0x38, 0x87, 0x00, 0x0C, 0x93, 0x00, 0x00, 0x8F, 0x32,
    0x00, 0x7C, 0x8D, 0x00, 0x00, 0x00, 0x00, 0x00, 0x00, 0x00, 0x00, 0x00,
    0xFF, 0xFE, 0xFF, 0x64, 0xB0, 0xFF, 0x92, 0x90, 0xFF, 0xC6, 0x76, 0xFF,
    0xF3, 0x6A, 0xFF, 0xFE, 0x6E, 0xCC, 0xFE, 0x81, 0x70, 0xEA, 0x9E, 0x22,
    0xBC, 0xBE, 0x00, 0x88, 0xD8, 0x00, 0x5C, 0xE4, 0x30, 0x45, 0xE0, 0x82,
    0x48, 0xCD, 0xDE, 0x4F, 0x4F, 0x4F, 0x00, 0x00, 0x00, 0x00, 0x00, 0x00,
    0xFF, 0xFE, 0xFF, 0xC0, 0xDF, 0xFF, 0xD3, 0xD2, 0xFF, 0xE8, 0xC8, 0xFF,
    0xFB, 0xC2, 0xFF, 0xFE, 0xC4, 0xEA, 0xFE, 0xCC, 0xC5, 0xF7, 0xD8, 0xA5,
    0xE4, 0xE5, 0x94, 0xCF, 0xEF, 0x96, 0xBD, 0xF4, 0xAB, 0xB3, 0xF3, 0xCC,
    0xB5, 0xEB, 0xF2, 0xB8, 0xB8, 0xB8, 0x00, 0x00, 0x00, 0x00, 0x00, 0x00,
];

/// The picture processor: registers, video memory, sprite memory, the render
/// pipeline's latches and the frame it draws into.
pub struct Ppu {
    pub ppu_ctrl: u8,
    pub ppu_mask: u8,
    pub ppu_status: u8,
    pub oam_addr: u8,
    pub oam: [u8; 256],
    pub ram: [u8; 0x800],
    pub palette: [u8; 0x20],
    pub sec_oam: [u8; 32],
    pub sec_oam_index: usize,
    /// Sprites latched for the scanline being drawn.
    pub sprite_count: usize,
    /// Sprites found so far for the next scanline.
    pub next_sprite_count: usize,
    pub vram_addr_incr: u8,
    pub spr_pattern_table: u16,
    pub bg_pattern_table: u16,
    pub sprite_h: u8,
    /// The current dot, 0 to 340.
    pub cycles: u32,
    /// The current scanline, 0 to 261.
    pub scanline: u32,
    pub odd_frame: bool,
    pub framebuffer: Box<[u8; 245760]>,
    pub frame_ready: bool,
    pub nt_mirror: [u16; 4],
    pub nt: u8,
    pub at: u8,
    pub bg_low: u8,
    pub bg_high: u8,
    /// Sixteen prefetched background pixels, four bits each, next pixel lowest.
    pub tile_data: u64,
    pub sp_low: u8,
    pub sp_high: u8,
    pub sp_at: u8,
    pub sp_x: [u8; 8],
    pub sp_data: [u32; 8],
    pub sp_prio: [u8; 8],
    /// The slot of sprite 0 among the latched sprites, 8 where it is not on
    /// the line.
    pub sp0_slot: usize,
    /// The slot sprite 0 took among the sprites found for the next scanline,
    /// 8 where it was not found.
    pub next_sp0_slot: usize,
    pub read_buffer: u8,
    pub v: u16,
    pub t: u16,
    pub x: u8,
    pub w: bool,
    /// Dots run since the processor was made.
    pub dots: Ghost<nat>,
}

/// Index into the palette RAM of a video address at or above 0x3F00: the
/// entries 0x10, 0x14, 0x18 and 0x1C are those at 0x00, 0x04, 0x08 and 0x0C.
pub open spec fn palette_slot(address: u16) -> int {
    let slot = address as int % 0x20;
    if slot >= 16 && slot % 4 == 0 {
        slot - 16
    } else {
        slot
    }
}

/// Every update of the scroll registers keeps them within fifteen bits.
pub proof fn lemma_scroll_range(v: u16, t: u16, value: u8, y: u16)
    by (bit_vector)
    requires
        v < 0x8000,
        t < 0x8000,
        y < 32,
    ensures
        (t & 0xF3FF) | (((value & 3) as u16) << 10) < 0x8000,
        (t & 0xFFE0) | ((value as u16) >> 3) < 0x8000,
        ((((t & 0x0FFF) | (((value as u16) & 0x07) << 12)) & 0xFC1F) | (((value as u16) & 0xF8) << 2))
            < 0x8000,
        (t & 0x00FF) | (((value as u16) & 0x3F) << 8) < 0x8000,
        (t & 0xFF00) | (value as u16) < 0x8000,
        (v & 0xFFE0) ^ 0x0400 < 0x8000,
        v & 0x001F != 31 ==> v + 1 < 0x8000,
        v & 0x7000 != 0x7000 ==> v + 0x1000 < 0x8000,
        ((v & 0x0FFF) & 0xFC1F) | (y << 5) < 0x8000,
        (((v & 0x0FFF) ^ 0x0800) & 0xFC1F) | (y << 5) < 0x8000,
        ((v & 0x0FFF) & 0x03E0) >> 5 < 32,
        (v & 0xFBE0) | (t & 0x041F) < 0x8000,
        (v & 0x841F) | (t & 0x7BE0) < 0x8000,
{
}

/// A value masked to fifteen bits has fifteen bits.
pub proof fn lemma_fifteen_bits(x: u16)
    by (bit_vector)
    ensures
        x & 0x7FFF < 0x8000,
{
}

/// The second write of an address pair replaces the low byte that the first left.
pub proof fn lemma_address_bits(t: u16, high: u8, low: u8)
    by (bit_vector)
    ensures
        (((t & 0x00FF) | (((high as u16) & 0x3F) << 8)) & 0xFF00) | (low as u16) == ((((high as u16)
            & 0x3F) << 8) | (low as u16)),
{
}

/// A byte masked to its low seven or five bits has bit 7 clear.
pub proof fn lemma_clear_bit7(s: u8)
    by (bit_vector)
    ensures
        (s & 0x7F) & 0x80 == 0,
        (s & 0x1F) & 0x80 == 0,
{
}

impl Ppu {
    /// The beam is on the raster, `v` and `t` have fifteen bits and the
    /// latches are within their ranges.
    pub open spec fn wf(&self) -> bool {
        &&& self.cycles <= LAST_DOT
        &&& self.scanline <= PRE_RENDER_LINE
        &&& self.v < 0x8000
        &&& self.t < 0x8000
        &&& self.x < 8
        &&& self.sec_oam_index < 32
        &&& self.sprite_count <= 8
        &&& self.next_sprite_count <= 8
        &&& self.sp0_slot <= 8
        &&& self.next_sp0_slot <= 8
        &&& (self.vram_addr_incr == 1 || self.vram_addr_incr == 32)
        &&& (self.spr_pattern_table == 0 || self.spr_pattern_table == 0x1000)
        &&& (self.bg_pattern_table == 0 || self.bg_pattern_table == 0x1000)
        &&& (self.sprite_h == 8 || self.sprite_h == 16)
    }

    /// Which of the four nametables a video address in 0x2000..0x3F00 names.
    /// Addresses from 0x2C00 up all name the fourth.
    pub open spec fn nt_select(address: u16) -> int {
        if address < 0x2400 {
            0
        } else if address < 0x2800 {
            1
        } else if address < 0x2C00 {
            2
        } else {
            3
        }
    }

    /// Where in nametable RAM a video address in 0x2000..0x3F00 lands, before
    /// it is reduced to the RAM's size.
    pub open spec fn spec_mirror_address(&self, address: u16) -> u16 {
        self.nt_mirror[Ppu::nt_select(address)].wrapping_add(address % 0x400)
    }

    /// The byte at a video address.
    pub open spec fn peek(&self, mapper: &Mapper0, address: u16) -> u8 {
        let addr = address % 0x4000;
        if addr < 0x2000 {
            mapper.chr(addr)
        } else if addr < 0x3F00 {
            self.ram[self.spec_mirror_address(addr) as int % 0x800]
        } else {
            self.palette[palette_slot(addr)]
        }
    }

    /// The processor after a store to video RAM or the palette. Stores below
    /// 0x2000 go to the cartridge and leave the processor as it is.
    pub open spec fn poke(self, address: u16, value: u8) -> Ppu {
        let addr = address % 0x4000;
        if addr < 0x2000 {
            self
        } else if addr < 0x3F00 {
            Ppu { ram: spec_array_update(self.ram, self.spec_mirror_address(addr) as int % 0x800, value), ..self }
        } else {
            Ppu { palette: spec_array_update(self.palette, palette_slot(addr), value), ..self }
        }
    }

    /// The cartridge after a store to a video address.
    pub open spec fn poke_mapper(mapper: Mapper0, address: u16, value: u8) -> Mapper0 {
        let addr = address % 0x4000;
        if addr < 0x2000 {
            mapper.with_chr(addr, value)
        } else {
            mapper
        }
    }

    /// After a write to sprite memory through the data register.
    pub open spec fn after_write_oam(self, value: u8) -> Ppu {
        Ppu {
            oam: spec_array_update(self.oam, self.oam_addr as int, value),
            oam_addr: self.oam_addr.wrapping_add(1),
            ..self
        }
    }

    /// The video address after an access through the data register.
    pub open spec fn bumped_v(self) -> u16 {
        self.v.wrapping_add(self.vram_addr_incr as u16) & 0x7FFF
    }

    /// The processor after a write to register `address`.
    pub open spec fn after_write_reg(self, address: u16, value: u8) -> Ppu {
        if address == PPUCTRL {
            Ppu {
                ppu_ctrl: value,
                vram_addr_incr: if (value >> 2) & 1 == 0 {
                    1
                } else {
                    32
                },
                spr_pattern_table: if (value >> 3) & 1 == 0 {
                    0
                } else {
                    0x1000
                },
                bg_pattern_table: if (value >> 4) & 1 == 0 {
                    0
                } else {
                    0x1000
                },
                sprite_h: if (value >> 5) & 1 == 0 {
                    8
                } else {
                    16
                },
                t: (self.t & 0xF3FF) | (((value & 3) as u16) << 10),
                ..self
            }
        } else if address == PPUMASK {
            Ppu { ppu_mask: value, ..self }
        } else if address == OAMADDR {
            Ppu { oam_addr: value, ..self }
        } else if address == OAMDATA {
            self.after_write_oam(value)
        } else if address == PPUSCROLL {
            if !self.w {
                Ppu { t: (self.t & 0xFFE0) | ((value as u16) >> 3), x: value % 8, w: true, ..self }
            } else {
                Ppu {
                    t: (((self.t & 0x0FFF) | (((value as u16) & 0x07) << 12)) & 0xFC1F) | (((value as u16)
                        & 0xF8) << 2),
                    w: false,
                    ..self
                }
            }
        } else if address == PPUADDR {
            if !self.w {
                Ppu { t: (self.t & 0x00FF) | (((value as u16) & 0x3F) << 8), w: true, ..self }
            } else {
                Ppu {
                    t: (self.t & 0xFF00) | (value as u16),
                    v: (self.t & 0xFF00) | (value as u16),
                    w: false,
                    ..self
                }
            }
        } else if address == PPUDATA {
            Ppu { v: self.bumped_v(), ..self.poke(self.v, value) }
        } else {
            self
        }
    }

    /// The cartridge after a write to register `address`.
    pub open spec fn mapper_after_write_reg(self, mapper: Mapper0, address: u16, value: u8) -> Mapper0 {
        if address == PPUDATA {
            Ppu::poke_mapper(mapper, self.v, value)
        } else {
            mapper
        }
    }

    /// The byte a read of register `address` returns.
    pub open spec fn reg_value(&self, mapper: &Mapper0, address: u16) -> u8 {
        if address == PPUSTATUS {
            self.ppu_status
        } else if address == OAMDATA {
            self.oam[self.oam_addr as int]
        } else if address == PPUDATA {
            if self.v % 0x4000 < 0x3F00 {
                self.read_buffer
            } else {
                self.peek(mapper, self.v)
            }
        } else {
            0
        }
    }

    /// The processor after a read of register `address`.
    pub open spec fn after_read_reg(self, mapper: &Mapper0, address: u16) -> Ppu {
        if address == PPUSTATUS {
            Ppu { w: false, ppu_status: self.ppu_status & 0x7F, ..self }
        } else if address == PPUDATA {
            Ppu {
                read_buffer: if self.v % 0x4000 < 0x3F00 {
                    self.peek(mapper, self.v)
                } else {
                    self.peek(mapper, self.v.wrapping_sub(0x1000))
                },
                v: self.bumped_v(),
                ..self
            }
        } else {
            self
        }
    }

    /// The processor after a reset: the beam is parked at the end of the
    /// post-render line and the scroll registers are cleared.
    pub open spec fn after_reset(self) -> Ppu {
        Ppu {
            cycles: 340,
            scanline: 240,
            odd_frame: false,
            v: 0,
            t: 0,
            x: 0,
            w: false,
            frame_ready: false,
            sprite_count: 0,
            next_sprite_count: 0,
            sec_oam_index: 0,
            sp0_slot: 8,
            next_sp0_slot: 8,
            ..self
        }
    }

    /// Whether the vertical-blank interrupt line is raised.
    pub open spec fn nmi_line(&self) -> bool {
        (self.ppu_ctrl & CTRL_NMI) & (self.ppu_status & STATUS_VBLANK) != 0
    }

    /// The processor at power-on for a cartridge with the nametable offsets
    /// `nt_mirror`: memory and frame are clear, the address increment is 1,
    /// sprites are eight lines high and the beam is parked at the end of the
    /// post-render line.
    pub open spec fn power_on(nt_mirror: [u16; 4]) -> Ppu {
        Ppu {
            ppu_ctrl: 0,
            ppu_mask: 0,
            ppu_status: 0,
            oam_addr: 0,
            oam: spec_array_fill_for_copy_type::<u8, 256>(0),
            ram: spec_array_fill_for_copy_type::<u8, 0x800>(0),
            palette: spec_array_fill_for_copy_type::<u8, 0x20>(0),
            sec_oam: spec_array_fill_for_copy_type::<u8, 32>(0),
            sec_oam_index: 0,
            sprite_count: 0,
            next_sprite_count: 0,
            vram_addr_incr: 1,
            spr_pattern_table: 0,
            bg_pattern_table: 0,
            sprite_h: 8,
            cycles: 340,
            scanline: 240,
            odd_frame: false,
            framebuffer: Box::new(spec_array_fill_for_copy_type::<u8, 245760>(0)),
            frame_ready: false,
            nt_mirror,
            nt: 0,
            at: 0,
            bg_low: 0,
            bg_high: 0,
            tile_data: 0,
            sp_low: 0,
            sp_high: 0,
            sp_at: 0,
            sp_x: spec_array_fill_for_copy_type::<u8, 8>(0),
            sp_data: spec_array_fill_for_copy_type::<u32, 8>(0),
            sp_prio: spec_array_fill_for_copy_type::<u8, 8>(0),
            sp0_slot: 8,
            next_sp0_slot: 8,
            read_buffer: 0,
            v: 0,
            t: 0,
            x: 0,
            w: false,
            dots: Ghost(0),
        }
    }

    /// The processor at power-on for the given cartridge.
    pub fn new(mapper: &Mapper0) -> (p: Ppu)
        ensures
            p == Ppu::power_on(p.nt_mirror),
            p.nt_mirror@ == mapper.nt_offsets(),
            p.wf(),
            p.frame_in_palette(),
    {
        reveal(Ppu::frame_in_palette);
        let p = Ppu {
            ppu_ctrl: 0,
            ppu_mask: 0,
            ppu_status: 0,
            oam_addr: 0,
            oam: [0u8; 256],
            ram: [0u8; 0x800],
            palette: [0u8; 0x20],
            sec_oam: [0u8; 32],
            sec_oam_index: 0,
            sprite_count: 0,
            next_sprite_count: 0,
            vram_addr_incr: 1,
            spr_pattern_table: 0,
            bg_pattern_table: 0,
            sprite_h: 8,
            cycles: 340,
            scanline: 240,
            odd_frame: false,
            framebuffer: Box::new([0u8; 245760]),
            frame_ready: false,
            nt_mirror: mapper.mirroring(),
            nt: 0,
            at: 0,
            bg_low: 0,
            bg_high: 0,
            tile_data: 0,
            sp_low: 0,
            sp_high: 0,
            sp_at: 0,
            sp_x: [0u8; 8],
            sp_data: [0u32; 8],
            sp_prio: [0u8; 8],
            sp0_slot: 8,
            next_sp0_slot: 8,
            read_buffer: 0,
            v: 0,
            t: 0,
            x: 0,
            w: false,
            dots: Ghost(0),
        };
        proof {
            assert forall|pixel: int| 0 <= pixel < 61440 implies #[trigger] p.pixel_in_palette(pixel) by {
                assert(p.pixel_is(pixel, 13));
            }
        }
        p
    }

    /// Parks the beam and clears the scroll registers.
    pub fn reset(&mut self)
        ensures
            *final(self) == old(self).after_reset(),
            old(self).wf() ==> final(self).wf(),
            old(self).frame_in_palette() ==> final(self).frame_in_palette(),
    {
        self.cycles = 340;
        self.scanline = 240;
        self.odd_frame = false;
        self.v = 0;
        self.t = 0;
        self.x = 0;
        self.w = false;
        self.frame_ready = false;
        self.sprite_count = 0;
        self.next_sprite_count = 0;
        self.sec_oam_index = 0;
        self.sp0_slot = 8;
        self.next_sp0_slot = 8;
        proof {
            old(self).lemma_frame_only(*self);
        }
    }

    /// Writes a byte of sprite memory and steps the sprite address.
    pub fn write_oam(&mut self, value: u8)
        ensures
            *final(self) == old(self).after_write_oam(value),
    {
        self.oam[self.oam_addr as usize] = value;
        self.oam_addr = self.oam_addr.wrapping_add(1);
    }

    /// Where in nametable RAM a video address in 0x2000..0x3F00 lands.
    pub fn mirror_address(&self, address: u16) -> (r: u16)
        ensures
            r == self.spec_mirror_address(address),
    {
        let index = address % 0x400;
        if address < 0x2400 {
            self.nt_mirror[0].wrapping_add(index)
        } else if address < 0x2800 {
            self.nt_mirror[1].wrapping_add(index)
        } else if address < 0x2C00 {
            self.nt_mirror[2].wrapping_add(index)
        } else {
            self.nt_mirror[3].wrapping_add(index)
        }
    }

    /// Loads a pattern byte from the cartridge.
    pub fn load_chr(&self, mapper: &Mapper0, address: u16) -> (value: u8)
        ensures
            value == mapper.chr(address),
    {
        mapper.load_chr_u8(address)
    }

    /// Loads the byte at a video address.
    pub fn load_u8(&self, mapper: &Mapper0, address: u16) -> (value: u8)
        ensures
            value == self.peek(mapper, address),
    {
        let addr = address % 0x4000;
        if addr < 0x2000 {
            self.load_chr(mapper, addr)
        } else if addr < 0x3F00 {
            let mirrored = self.mirror_address(addr) % 0x800;
            self.ram[mirrored as usize]
        } else {
            let mut slot = addr % 0x20;
            if slot >= 16 && slot % 4 == 0 {
                slot -= 16;
            }
            self.palette[slot as usize]
        }
    }

    /// Stores a byte at a video address.
    pub fn store_u8(&mut self, mapper: &mut Mapper0, address: u16, value: u8)
        ensures
            *final(self) == old(self).poke(address, value),
            *final(mapper) == Ppu::poke_mapper(*old(mapper), address, value),
    {
        let addr = address % 0x4000;
        if addr < 0x2000 {
            mapper.store_chr_u8(addr, value);
        } else if addr < 0x3F00 {
            let mirrored = self.mirror_address(addr) % 0x800;
            self.ram[mirrored as usize] = value;
        } else {
            let mut slot = addr % 0x20;
            if slot >= 16 && slot % 4 == 0 {
                slot -= 16;
            }
            self.palette[slot as usize] = value;
        }
    }

    /// Writes one of the eight registers; other addresses are ignored.
    #[verifier::rlimit(40)]
    pub fn write_reg(&mut self, mapper: &mut Mapper0, address: u16, value: u8)
        ensures
            *final(self) == old(self).after_write_reg(address, value),
            *final(mapper) == old(self).mapper_after_write_reg(*old(mapper), address, value),
            old(self).wf() ==> final(self).wf(),
            old(self).frame_in_palette() ==> final(self).frame_in_palette(),
            address == PPUADDR && old(self).w ==> final(self).v == final(self).t,
    {
        if address == PPUCTRL {
            self.ppu_ctrl = value;
            self.vram_addr_incr = if (value >> 2) & 1 == 0 {
                1
            } else {
                32
            };
            self.spr_pattern_table = if (value >> 3) & 1 == 0 {
                0
            } else {
                0x1000
            };
            self.bg_pattern_table = if (value >> 4) & 1 == 0 {
                0
            } else {
                0x1000
            };
            self.sprite_h = if (value >> 5) & 1 == 0 {
                8
            } else {
                16
            };
            self.t = (self.t & 0xF3FF) | (((value & 3) as u16) << 10);
        } else if address == PPUMASK {
            self.ppu_mask = value;
        } else if address == OAMADDR {
            self.oam_addr = value;
        } else if address == OAMDATA {
            self.write_oam(value);
        } else if address == PPUSCROLL {
            if !self.w {
                self.t = (self.t & 0xFFE0) | ((value as u16) >> 3);
                self.x = value % 8;
            } else {
                self.t = (self.t & 0x0FFF) | (((value as u16) & 0x07) << 12);
                self.t = (self.t & 0xFC1F) | (((value as u16) & 0xF8) << 2);
            }
            self.w = !self.w;
        } else if address == PPUADDR {
            if !self.w {
                self.t = (self.t & 0x00FF) | (((value as u16) & 0x3F) << 8);
            } else {
                self.t = (self.t & 0xFF00) | (value as u16);
                self.v = self.t;
            }
            self.w = !self.w;
        } else if address == PPUDATA {
            let next = self.v.wrapping_add(self.vram_addr_incr as u16) & 0x7FFF;
            self.store_u8(mapper, self.v, value);
            self.v = next;
        }
        proof {
            if old(self).wf() {
                lemma_scroll_range(old(self).v, old(self).t, value, 0);
                lemma_fifteen_bits(old(self).v.wrapping_add(old(self).vram_addr_incr as u16));
            }
            old(self).lemma_frame_only(*self);
        }
    }

    /// Reads one of the eight registers. Reading the status register clears the
    /// vertical-blank flag and the write toggle; reading the data register returns
    /// the buffered byte below the palette and the palette byte itself above.
    #[verifier::rlimit(40)]
    pub fn read_reg(&mut self, mapper: &Mapper0, address: u16) -> (value: u8)
        ensures
            value == old(self).reg_value(mapper, address),
            *final(self) == old(self).after_read_reg(mapper, address),
            old(self).wf() ==> final(self).wf(),
            old(self).frame_in_palette() ==> final(self).frame_in_palette(),
            address == PPUSTATUS ==> final(self).ppu_status & STATUS_VBLANK == 0 && !final(self).w,
    {
        let mut value: u8 = 0;
        if address == PPUSTATUS {
            self.w = false;
            value = self.ppu_status;
            self.ppu_status = self.ppu_status & 0x7F;
            proof {
                lemma_clear_bit7(value);
            }
        } else if address == OAMDATA {
            value = self.oam[self.oam_addr as usize];
        } else if address == PPUDATA {
            let next = self.v.wrapping_add(self.vram_addr_incr as u16) & 0x7FFF;
            if self.v % 0x4000 < 0x3F00 {
                value = self.read_buffer;
                self.read_buffer = self.load_u8(mapper, self.v);
            } else {
                value = self.load_u8(mapper, self.v);
                self.read_buffer = self.load_u8(mapper, self.v.wrapping_sub(0x1000));
            }
            self.v = next;
        }
        proof {
            lemma_fifteen_bits(old(self).v.wrapping_add(old(self).vram_addr_incr as u16));
            old(self).lemma_frame_only(*self);
        }
        value
    }

    /// Whether the interrupt line is raised: interrupts are enabled in vertical blank.
    pub fn pending_nmi(&self) -> (line: bool)
        ensures
            line == self.nmi_line(),
    {
        (self.ppu_ctrl & CTRL_NMI) & (self.ppu_status & STATUS_VBLANK) != 0
    }

    /// Whether the mask shows the background.
    pub open spec fn background_shown(&self) -> bool {
        self.ppu_mask & MASK_SHOW_BACKGROUND != 0
    }

    /// Whether the mask shows sprites.
    pub open spec fn sprites_shown(&self) -> bool {
        self.ppu_mask & MASK_SHOW_SPRITES != 0
    }

    /// Whether the mask shows the background or sprites.
    pub open spec fn rendering(&self) -> bool {
        self.background_shown() || self.sprites_shown()
    }

    /// Whether the mask shows the background.
    pub fn show_background(&self) -> (b: bool)
        ensures
            b == self.background_shown(),
    {
        self.ppu_mask & MASK_SHOW_BACKGROUND != 0
    }

    /// Whether the mask shows sprites.
    pub fn show_sprites(&self) -> (b: bool)
        ensures
            b == self.sprites_shown(),
    {
        self.ppu_mask & MASK_SHOW_SPRITES != 0
    }

    /// Whether the mask shows the background or sprites.
    pub fn rendering_enabled(&self) -> (b: bool)
        ensures
            b == self.rendering(),
    {
        self.show_background() || self.show_sprites()
    }

    /// Whether the pixel's red, green and blue are those of palette entry `k`.
    pub open spec fn pixel_is(&self, pixel: int, k: int) -> bool {
        &&& self.framebuffer[4 * pixel] == PALETTE_RGB[3 * k + 2]
        &&& self.framebuffer[4 * pixel + 1] == PALETTE_RGB[3 * k + 1]
        &&& self.framebuffer[4 * pixel + 2] == PALETTE_RGB[3 * k]
    }

    /// Whether the pixel has the colour of one of the 64 palette entries.
    pub open spec fn pixel_in_palette(&self, pixel: int) -> bool {
        exists|k: int| 0 <= k < 64 && #[trigger] self.pixel_is(pixel, k)
    }

    /// Every pixel of the frame has the colour of one of the 64 palette entries.
    #[verifier::opaque]
    pub open spec fn frame_in_palette(&self) -> bool {
        forall|pixel: int| 0 <= pixel < 61440 ==> #[trigger] self.pixel_in_palette(pixel)
    }

    /// A processor with the same frame has its pixels in the palette too.
    pub proof fn lemma_frame_only(self, other: Ppu)
        requires
            other.framebuffer == self.framebuffer,
        ensures
            self.frame_in_palette() ==> other.frame_in_palette(),
    {
        reveal(Ppu::frame_in_palette);
        if self.frame_in_palette() {
            assert forall|pixel: int| 0 <= pixel < 61440 implies #[trigger] other.pixel_in_palette(
                pixel,
            ) by {
                assert(self.pixel_in_palette(pixel));
                let k = choose|k: int| 0 <= k < 64 && #[trigger] self.pixel_is(pixel, k);
                assert(other.pixel_is(pixel, k));
            }
        }
    }
}


/// The four-bit palette entry of one pixel of a tile row: the attribute bits
/// above the two pattern planes' bits at position `bit`.
pub open spec fn tile_pixel(low: u8, high: u8, at: u8, bit: u8) -> u8 {
    at | (((high >> bit) & 1) << 1) | ((low >> bit) & 1)
}

/// Pattern bit of the pixel `i` places from the left: the most significant
/// bit comes first unless the row is flipped.
pub open spec fn pattern_bit(i: u8, flip: bool) -> u8 {
    if flip {
        i
    } else {
        (7 - i) as u8
    }
}

/// The first `n` pixels of a tile row, four bits each, leftmost lowest.
pub open spec fn spec_pack_row(low: u8, high: u8, at: u8, flip: bool, n: u8) -> u32
    decreases n,
{
    if n == 0 {
        0
    } else {
        let i = (n - 1) as u8;
        spec_pack_row(low, high, at, flip, i) | ((tile_pixel(low, high, at, pattern_bit(i, flip)) as u32) << (
        4 * i))
    }
}

/// Packs the eight pixels of a tile row.
pub fn pack_row(low: u8, high: u8, at: u8, flip: bool) -> (data: u32)
    ensures
        data == spec_pack_row(low, high, at, flip, 8),
{
    let mut data: u32 = 0;
    let mut i: u8 = 0;
    while i < 8
        invariant
            i <= 8,
            data == spec_pack_row(low, high, at, flip, i),
        decreases 8 - i,
    {
        let bit: u8 = if flip {
            i
        } else {
            7 - i
        };
        let color: u8 = at | (((high >> bit) & 1) << 1) | ((low >> bit) & 1);
        data = data | ((color as u32) << (4 * i));
        i += 1;
    }
    data
}

/// The low four bits of a row of sprite pixels fit in a byte.
pub proof fn lemma_sprite_nibble(a: u32)
    by (bit_vector)
    ensures
        a & 0x0F <= 0x0F,
{
}

/// The position of a tile's bits in its attribute byte is 0, 2, 4 or 6.
pub proof fn lemma_attribute_shift(v: u16)
    by (bit_vector)
    ensures
        ((v >> 4) & 4) | (v & 2) < 8,
{
}

impl Ppu {
    /// Address of the nametable byte for the tile `v` points at.
    pub open spec fn nt_address(&self) -> u16 {
        0x2000 | (self.v & 0xFFF)
    }

    /// Address of the attribute byte for the tile `v` points at.
    pub open spec fn at_address(&self) -> u16 {
        0x23C0 | (self.v & 0x0C00) | ((self.v >> 4) & 0x38) | ((self.v >> 2) & 0x07)
    }

    /// Position in the attribute byte of the two bits for the current tile.
    pub open spec fn at_shift(&self) -> u16 {
        ((self.v >> 4) & 4) | (self.v & 2)
    }

    /// The palette selector of the current tile, already in bits 2 and 3.
    pub open spec fn spec_fetch_at(&self, mapper: &Mapper0) -> u8 {
        ((self.peek(mapper, self.at_address()) >> self.at_shift()) & 3) << 2
    }

    /// The row within the tile that `v` points at.
    pub open spec fn fine_y(&self) -> u16 {
        (self.v / 0x1000) % 8
    }

    /// Address of the current tile's row in the low pattern plane.
    pub open spec fn bg_tile_address(&self) -> u16 {
        (self.bg_pattern_table + self.nt * 16 + self.fine_y()) as u16
    }

    /// Row of the sprite in secondary slot `oam_idx / 4` that the current
    /// scanline shows.
    pub open spec fn sprite_row(&self, oam_idx: int) -> u16 {
        let row = (self.scanline.wrapping_sub(self.sec_oam[oam_idx] as u32) % 8) as u16;
        if self.sp_at & OAM_FLIP_V != 0 {
            (7 - row) as u16
        } else {
            row
        }
    }

    /// Address of the row of a sprite's tile in the low pattern plane.
    pub open spec fn sp_tile_address(&self, oam_idx: int) -> u16 {
        (self.spr_pattern_table + self.sec_oam[oam_idx + 1] * 16 + self.sprite_row(oam_idx)) as u16
    }

    /// The pattern byte for a sprite; sprites sixteen lines high fetch nothing.
    pub open spec fn spec_fetch_sp_tile(&self, mapper: &Mapper0, oam_idx: int, low: bool) -> u8 {
        if self.sprite_h == 8 {
            mapper.chr(
                if low {
                    self.sp_tile_address(oam_idx)
                } else {
                    (self.sp_tile_address(oam_idx) + 8) as u16
                },
            )
        } else {
            0
        }
    }

    /// Steps coarse X, switching the horizontal nametable after column 31.
    pub open spec fn after_update_x(self) -> Ppu {
        if self.v & 0x001F == 31 {
            Ppu { v: (self.v & 0xFFE0) ^ 0x0400, ..self }
        } else {
            Ppu { v: self.v.wrapping_add(1), ..self }
        }
    }

    /// Coarse Y after a step from `y`: row 29 wraps to 0, as does row 31.
    pub open spec fn next_coarse_y(y: u16) -> u16 {
        if y == 29 || y == 31 {
            0
        } else {
            (y + 1) as u16
        }
    }

    /// Steps fine Y, and coarse Y when fine Y wraps; the vertical nametable
    /// switches after row 29.
    pub open spec fn after_update_y(self) -> Ppu {
        if self.v & 0x7000 != 0x7000 {
            Ppu { v: self.v.wrapping_add(0x1000), ..self }
        } else {
            let v = self.v & 0x0FFF;
            let y = (v & 0x03E0) >> 5;
            let flipped = if y == 29 {
                v ^ 0x0800
            } else {
                v
            };
            Ppu { v: (flipped & 0xFC1F) | (Ppu::next_coarse_y(y) << 5), ..self }
        }
    }

    /// After the horizontal position was copied from `t`.
    pub open spec fn after_copy_horiz(self) -> Ppu {
        Ppu { v: (self.v & 0xFBE0) | (self.t & 0x041F), ..self }
    }

    /// After the vertical position was copied from `t`.
    pub open spec fn after_copy_vert(self) -> Ppu {
        Ppu { v: (self.v & 0x841F) | (self.t & 0x7BE0), ..self }
    }

    /// The processor after the fetch that belongs to the current dot: the
    /// nametable byte on dot 1 of every eight, the attribute on 3, the pattern
    /// planes on 5 and 7, and on 0 the finished row enters the upper half of
    /// the shift register and coarse X steps.
    pub open spec fn after_fetch_tile(self, mapper: &Mapper0) -> Ppu {
        let phase = self.cycles % 8;
        if phase == 1 {
            Ppu { nt: self.peek(mapper, self.nt_address()), ..self }
        } else if phase == 3 {
            Ppu { at: self.spec_fetch_at(mapper), ..self }
        } else if phase == 5 {
            Ppu { bg_low: mapper.chr(self.bg_tile_address()), ..self }
        } else if phase == 7 {
            Ppu { bg_high: mapper.chr((self.bg_tile_address() + 8) as u16), ..self }
        } else if phase == 0 {
            Ppu {
                tile_data: self.tile_data | ((spec_pack_row(self.bg_low, self.bg_high, self.at, false, 8) as u64)
                    << 32),
                ..self
            }.after_update_x()
        } else {
            self
        }
    }

    /// One dot of the background pipeline: the shift register moves on by a
    /// pixel, then the dot's fetch happens.
    pub open spec fn after_fetch_cycle(self, mapper: &Mapper0) -> Ppu {
        Ppu { tile_data: self.tile_data >> 4, ..self }.after_fetch_tile(mapper)
    }

    /// The four bits of the shift register at the fine X position.
    pub open spec fn spec_background_pixel(&self) -> u8 {
        ((self.tile_data >> (self.x as u64 * 4)) & 0x0F) as u8
    }

    /// Whether sprites are hidden in the eight leftmost columns.
    pub open spec fn sprites_hidden_left(&self) -> bool {
        self.ppu_mask & MASK_SHOW_SPRITE_LEFT == 0
    }

    /// Whether the background is hidden in the eight leftmost columns.
    pub open spec fn background_hidden_left(&self) -> bool {
        self.ppu_mask & MASK_SHOW_BACKGROUND_LEFT == 0
    }

    /// Whether latched sprite `i` covers screen column `x`.
    pub open spec fn sprite_covers(&self, i: int, x: u32) -> bool {
        self.sp_x[i] <= x && x - self.sp_x[i] < 8
    }

    /// The palette entry latched sprite `i` shows at column `x`.
    pub open spec fn sprite_color(&self, i: int, x: u32) -> u32 {
        (self.sp_data[i] >> ((4 * (x - self.sp_x[i])) as u32)) & 0x0F
    }

    /// Whether latched sprite `i` has an opaque pixel at column `x`.
    pub open spec fn sprite_opaque(&self, i: int, x: u32) -> bool {
        self.sprite_covers(i, x) && self.sprite_color(i, x) % 4 != 0
    }

    /// The first latched sprite from `from` on with an opaque pixel at column
    /// `x`, or the number of latched sprites where there is none.
    pub open spec fn first_opaque_sprite(&self, x: u32, from: int) -> int
        decreases self.sprite_count - from,
    {
        if from >= self.sprite_count {
            self.sprite_count as int
        } else if self.sprite_opaque(from, x) {
            from
        } else {
            self.first_opaque_sprite(x, from + 1)
        }
    }

    /// The slot of the sprite that wins at column `x`, or the number of latched
    /// sprites where sprites are off or none is opaque there.
    pub open spec fn sprite_slot_at(&self, x: u32) -> int {
        if self.sprites_shown() {
            self.first_opaque_sprite(x, 0)
        } else {
            self.sprite_count as int
        }
    }

    /// The sprite pixel at column `x`; zero is transparent.
    pub open spec fn sprite_pixel_at(&self, x: u32) -> u8 {
        if self.sprite_slot_at(x) < self.sprite_count {
            self.sprite_color(self.sprite_slot_at(x), x) as u8
        } else {
            0
        }
    }

    /// Sprite pixel and slot for the current dot once the left-edge mask is applied.
    pub open spec fn masked_sprite_slot(&self) -> int {
        let x = (self.cycles - 1) as u32;
        if x < 8 && self.sprites_hidden_left() {
            self.sprite_count as int
        } else {
            self.sprite_slot_at(x)
        }
    }

    /// The sprite pixel of the current dot once the left-edge mask is applied.
    pub open spec fn masked_sprite_pixel(&self) -> u8 {
        let x = (self.cycles - 1) as u32;
        if x < 8 && self.sprites_hidden_left() {
            0
        } else {
            self.sprite_pixel_at(x)
        }
    }

    /// The background pixel of the current dot once the left-edge mask is applied.
    pub open spec fn masked_background_pixel(&self) -> u8 {
        if self.cycles - 1 < 8 && self.background_hidden_left() {
            0
        } else {
            self.spec_background_pixel()
        }
    }

    /// Whether both the background and the sprite pixel of the current dot are opaque.
    pub open spec fn both_opaque(&self) -> bool {
        self.masked_background_pixel() & 3 != 0 && self.masked_sprite_pixel() & 3 != 0
    }

    /// The palette RAM entry the current dot shows: the universal background
    /// colour where both pixels are transparent, the sprite's entry in the
    /// sprite half of the palette over a transparent background, the
    /// background's entry under a transparent sprite, and where both are
    /// opaque the sprite's if it has front priority, else the background's.
    pub open spec fn mux_color(&self) -> u8 {
        let bg = self.masked_background_pixel();
        let sp = self.masked_sprite_pixel();
        if bg & 3 == 0 {
            if sp & 3 == 0 {
                0
            } else {
                sp | 0x10
            }
        } else if sp & 3 == 0 {
            bg
        } else if self.sp_prio[self.masked_sprite_slot()] == 0 {
            sp
        } else {
            bg
        }
    }

    /// Whether the current dot is a sprite-0 hit: both pixels are opaque and
    /// the sprite that shows is sprite 0.
    pub open spec fn sprite0_hit(&self) -> bool {
        self.both_opaque() && self.masked_sprite_slot() == self.sp0_slot
    }

    /// The frame with pixel (`x`, `y`) set to palette colour `k`: blue, green,
    /// red, then an opaque alpha.
    pub open spec fn with_pixel(self, x: int, y: int, k: int) -> Ppu {
        let o = (y * 256 + x) * 4;
        Ppu {
            framebuffer: Box::new(
                spec_array_update(
                    spec_array_update(
                        spec_array_update(
                            spec_array_update(*self.framebuffer, o, PALETTE_RGB[3 * k + 2]),
                            o + 1,
                            PALETTE_RGB[3 * k + 1],
                        ),
                        o + 2,
                        PALETTE_RGB[3 * k],
                    ),
                    o + 3,
                    0xFF,
                ),
            ),
            ..self
        }
    }

    /// The processor after the current dot's pixel is drawn.
    pub open spec fn after_draw_pixel(self, mapper: &Mapper0) -> Ppu {
        let k = self.peek(mapper, (0x3F00 + self.mux_color()) as u16) % 64;
        Ppu {
            ppu_status: if self.sprite0_hit() {
                self.ppu_status | STATUS_SPRITE0_HIT
            } else {
                self.ppu_status
            },
            ..self
        }.with_pixel(self.cycles - 1, self.scanline as int, k as int)
    }

    /// The sprite table entry looked at on the current dot of the scan.
    pub open spec fn scan_entry(&self) -> int {
        ((self.cycles - 65) / 3 + self.oam_addr) % 64
    }

    /// Whether the entry's sprite shows on the current scanline.
    pub open spec fn scan_in_range(&self) -> bool {
        let y = self.oam[4 * self.scan_entry()];
        y <= self.scanline && self.scanline < y + self.sprite_h
    }

    /// The processor after one step of the sprite scan: an entry in range is
    /// copied to the next free secondary slot, and when all eight are taken
    /// the overflow flag is raised. The slot that sprite 0 takes is noted,
    /// for the hit to be raised by that sprite and no other.
    pub open spec fn after_scan(self) -> Ppu {
        let e = self.scan_entry();
        let n = self.next_sprite_count as int;
        if !self.scan_in_range() {
            self
        } else if n < 8 {
            Ppu {
                sec_oam: spec_array_update(
                    spec_array_update(
                        spec_array_update(
                            spec_array_update(self.sec_oam, 4 * n, self.oam[4 * e]),
                            4 * n + 1,
                            self.oam[4 * e + 1],
                        ),
                        4 * n + 2,
                        self.oam[4 * e + 2],
                    ),
                    4 * n + 3,
                    self.oam[4 * e + 3],
                ),
                next_sprite_count: (n + 1) as usize,
                next_sp0_slot: if e == 0 {
                    n as usize
                } else {
                    self.next_sp0_slot
                },
                ..self
            }
        } else {
            Ppu { ppu_status: self.ppu_status | STATUS_SPRITE_OVF, ..self }
        }
    }

    /// Sprite evaluation on a drawn dot: secondary memory is cleared on the
    /// even dots up to 64, the sprite table is scanned on every third dot
    /// from 65, and on dot 256 Y steps and the sprites found become current.
    pub open spec fn after_evaluate(self) -> Ppu {
        if self.cycles <= 64 {
            if self.cycles % 2 == 0 {
                Ppu {
                    sec_oam: spec_array_update(self.sec_oam, self.sec_oam_index as int, 0xFF),
                    sec_oam_index: ((self.sec_oam_index + 1) % 32) as usize,
                    ..self
                }
            } else {
                self
            }
        } else {
            let p = if self.cycles % 3 == 2 {
                self.after_scan()
            } else {
                self
            };
            if self.cycles == 256 {
                let q = p.after_update_y();
                Ppu { sprite_count: q.next_sprite_count, sp0_slot: q.next_sp0_slot, ..q }
            } else {
                p
            }
        }
    }

    /// The processor after the current dot's share of loading a sprite found
    /// for the next scanline into the latches.
    pub open spec fn after_latch_sprite(self, mapper: &Mapper0) -> Ppu {
        let slot = (self.cycles - 257) / 8;
        let phase = self.cycles % 8;
        let p = if slot >= self.next_sprite_count {
            self
        } else if phase == 2 {
            Ppu { sp_at: self.sec_oam[4 * slot + 2], ..self }
        } else if phase == 3 {
            Ppu { sp_x: spec_array_update(self.sp_x, slot, self.sec_oam[4 * slot + 3]), ..self }
        } else if phase == 5 {
            Ppu { sp_low: self.spec_fetch_sp_tile(mapper, 4 * slot, true), ..self }
        } else if phase == 7 {
            Ppu { sp_high: self.spec_fetch_sp_tile(mapper, 4 * slot, false), ..self }
        } else if phase == 0 {
            Ppu {
                sp_data: spec_array_update(
                    self.sp_data,
                    slot,
                    spec_pack_row(
                        self.sp_low,
                        self.sp_high,
                        (self.sp_at & 3) << 2,
                        self.sp_at & OAM_FLIP_H != 0,
                        8,
                    ),
                ),
                sp_prio: spec_array_update(self.sp_prio, slot, (self.sp_at >> 5) & 1),
                ..self
            }
        } else {
            self
        };
        if self.cycles == 257 {
            p.after_copy_horiz()
        } else {
            p
        }
    }

    /// The work of a dot on a visible scanline.
    pub open spec fn after_visible(self, mapper: &Mapper0) -> Ppu {
        if !self.rendering() {
            self
        } else if 1 <= self.cycles <= 256 {
            self.after_draw_pixel(mapper).after_fetch_cycle(mapper).after_evaluate()
        } else if 257 <= self.cycles <= 320 {
            self.after_latch_sprite(mapper)
        } else if 321 <= self.cycles <= 336 {
            self.after_fetch_cycle(mapper)
        } else {
            self
        }
    }

    /// The work of a dot on the pre-render scanline: dot 1 clears the three
    /// status flags; with rendering on, the background pipeline refills and
    /// the scroll position is copied from `t`.
    pub open spec fn after_pre_render(self, mapper: &Mapper0) -> Ppu {
        let p = if self.cycles == 1 {
            Ppu { ppu_status: self.ppu_status & 0x1F, ..self }
        } else {
            self
        };
        if !p.rendering() {
            p
        } else if 1 <= p.cycles <= 256 {
            if p.cycles == 256 {
                p.after_fetch_cycle(mapper).after_update_y()
            } else {
                p.after_fetch_cycle(mapper)
            }
        } else if p.cycles == 257 {
            p.after_copy_horiz()
        } else if 280 <= p.cycles <= 304 {
            p.after_copy_vert()
        } else if 321 <= p.cycles <= 336 {
            p.after_fetch_cycle(mapper)
        } else {
            p
        }
    }

    /// The work of a dot on the first line of vertical blank: dot 1 raises the flag.
    pub open spec fn after_vblank(self) -> Ppu {
        if self.cycles == 1 {
            Ppu { ppu_status: self.ppu_status | STATUS_VBLANK, ..self }
        } else {
            self
        }
    }

    /// Fetches the nametable byte of the current tile.
    pub fn fetch_nt(&self, mapper: &Mapper0) -> (value: u8)
        ensures
            value == self.peek(mapper, self.nt_address()),
    {
        let address = 0x2000 | (self.v & 0xFFF);
        self.load_u8(mapper, address)
    }

    /// Fetches the palette selector of the current tile.
    pub fn fetch_at(&self, mapper: &Mapper0) -> (value: u8)
        ensures
            value == self.spec_fetch_at(mapper),
    {
        let address = 0x23C0 | (self.v & 0x0C00) | ((self.v >> 4) & 0x38) | ((self.v >> 2) & 0x07);
        let shift = ((self.v >> 4) & 4) | (self.v & 2);
        proof {
            lemma_attribute_shift(self.v);
        }
        ((self.load_u8(mapper, address) >> shift) & 3) << 2
    }

    /// Fetches a pattern plane of the current tile's row.
    pub fn fetch_bg_tile(&self, mapper: &Mapper0, low: bool) -> (value: u8)
        requires
            self.wf(),
        ensures
            value == mapper.chr(
                if low {
                    self.bg_tile_address()
                } else {
                    (self.bg_tile_address() + 8) as u16
                },
            ),
    {
        let fine_y = (self.v / 0x1000) % 8;
        let address = self.bg_pattern_table + self.nt as u16 * 16 + fine_y;
        self.load_chr(
            mapper,
            if low {
                address
            } else {
                address + 8
            },
        )
    }

    /// Fetches a pattern plane of the row of the sprite in secondary slot `idx / 4`.
    pub fn fetch_sp_tile(&self, mapper: &Mapper0, idx: usize, low: bool) -> (value: u8)
        requires
            self.wf(),
            idx <= 28,
        ensures
            value == self.spec_fetch_sp_tile(mapper, idx as int, low),
    {
        let tile = self.sec_oam[idx + 1];
        let mut sprow = (self.scanline.wrapping_sub(self.sec_oam[idx] as u32) % 8) as u16;
        if self.sprite_h == 8 {
            if self.sp_at & OAM_FLIP_V != 0 {
                sprow = 7 - sprow;
            }
            let address = self.spr_pattern_table + tile as u16 * 16 + sprow;
            self.load_chr(
                mapper,
                if low {
                    address
                } else {
                    address + 8
                },
            )
        } else {
            0
        }
    }

    /// Steps coarse X.
    pub fn update_x(&mut self)
        ensures
            *final(self) == old(self).after_update_x(),
            old(self).wf() ==> final(self).wf(),
    {
        proof {
            if old(self).wf() {
                lemma_scroll_range(old(self).v, 0, 0, 0);
            }
        }
        if self.v & 0x001F == 31 {
            self.v = (self.v & 0xFFE0) ^ 0x0400;
        } else {
            self.v = self.v.wrapping_add(1);
        }
    }

    /// Steps fine Y, and coarse Y when fine Y wraps.
    pub fn update_y(&mut self)
        ensures
            *final(self) == old(self).after_update_y(),
            old(self).wf() ==> final(self).wf(),
    {
        proof {
            if old(self).wf() {
                lemma_scroll_range(old(self).v, 0, 0, 0);
                lemma_scroll_range(
                    old(self).v,
                    0,
                    0,
                    Ppu::next_coarse_y(((old(self).v & 0x0FFF) & 0x03E0) >> 5),
                );
            }
        }
        if self.v & 0x7000 != 0x7000 {
            self.v = self.v.wrapping_add(0x1000);
        } else {
            self.v = self.v & 0x0FFF;
            let mut y = (self.v & 0x03E0) >> 5;
            if y == 29 {
                y = 0;
                self.v = self.v ^ 0x0800;
            } else if y == 31 {
                y = 0;
            } else {
                proof {
                    lemma_coarse_y(self.v);
                }
                y += 1;
            }
            self.v = (self.v & 0xFC1F) | (y << 5);
        }
    }

    /// Coarse Y, the row of the tile `v` points at.
    pub fn extract_y(&self) -> (y: u8)
        ensures
            y == (self.v / 32) % 32,
    {
        ((self.v / 32) % 32) as u8
    }

    /// Copies the horizontal position from `t`.
    pub fn copy_horiz(&mut self)
        ensures
            *final(self) == old(self).after_copy_horiz(),
            old(self).wf() ==> final(self).wf(),
    {
        proof {
            if old(self).wf() {
                lemma_scroll_range(old(self).v, old(self).t, 0, 0);
            }
        }
        self.v = (self.v & 0xFBE0) | (self.t & 0x041F);
    }

    /// Copies the vertical position from `t`.
    pub fn copy_vert(&mut self)
        ensures
            *final(self) == old(self).after_copy_vert(),
            old(self).wf() ==> final(self).wf(),
    {
        proof {
            if old(self).wf() {
                lemma_scroll_range(old(self).v, old(self).t, 0, 0);
            }
        }
        self.v = (self.v & 0x841F) | (self.t & 0x7BE0);
    }

    /// Does the current dot's fetch of the background pipeline.
    #[verifier::rlimit(40)]
    pub fn fetch_tile(&mut self, mapper: &Mapper0)
        requires
            old(self).wf(),
        ensures
            *final(self) == old(self).after_fetch_tile(mapper),
            final(self).wf(),
            old(self).beam_kept(final(self)),
            final(self).framebuffer == old(self).framebuffer,
    {
        let phase = self.cycles % 8;
        if phase == 1 {
            self.nt = self.fetch_nt(mapper);
        } else if phase == 3 {
            self.at = self.fetch_at(mapper);
        } else if phase == 5 {
            self.bg_low = self.fetch_bg_tile(mapper, true);
        } else if phase == 7 {
            self.bg_high = self.fetch_bg_tile(mapper, false);
        } else if phase == 0 {
            let data = pack_row(self.bg_low, self.bg_high, self.at, false);
            self.tile_data = self.tile_data | ((data as u64) << 32);
            self.update_x();
        }
    }

    /// Runs the background pipeline for a dot.
    pub fn fetch_cycle(&mut self, mapper: &Mapper0)
        requires
            old(self).wf(),
        ensures
            *final(self) == old(self).after_fetch_cycle(mapper),
            final(self).wf(),
            old(self).beam_kept(final(self)),
            final(self).framebuffer == old(self).framebuffer,
    {
        self.tile_data = self.tile_data >> 4;
        self.fetch_tile(mapper);
    }

    /// Whether sprites are hidden in the eight leftmost columns.
    pub fn hide_sprite8(&self) -> (b: bool)
        ensures
            b == self.sprites_hidden_left(),
    {
        self.ppu_mask & MASK_SHOW_SPRITE_LEFT == 0
    }

    /// Whether the background is hidden in the eight leftmost columns.
    pub fn hide_back8(&self) -> (b: bool)
        ensures
            b == self.background_hidden_left(),
    {
        self.ppu_mask & MASK_SHOW_BACKGROUND_LEFT == 0
    }

    /// The background pixel at the fine X position.
    pub fn background_pixel(&self) -> (color: u8)
        requires
            self.wf(),
        ensures
            color == self.spec_background_pixel(),
    {
        let bits = (self.tile_data >> (self.x as u64 * 4)) & 0x0F;
        proof {
            lemma_low_nibble(self.tile_data >> (self.x as u64 * 4));
        }
        bits as u8
    }

    /// The sprite pixel at screen column `x` and the slot of the sprite that
    /// shows it: the first latched sprite with an opaque pixel there.
    pub fn sprite_pixel(&self, x: u32) -> (r: (u8, usize))
        requires
            self.wf(),
            x < 256,
        ensures
            r.0 == self.sprite_pixel_at(x),
            r.1 == self.sprite_slot_at(x),
            r.1 <= self.sprite_count,
            r.1 < self.sprite_count <==> r.0 & 3 != 0,
    {
        proof {
            lemma_transparent(0);
        }
        if !self.show_sprites() {
            return (0, self.sprite_count);
        }
        let mut i: usize = 0;
        while i < self.sprite_count
            invariant
                self.wf(),
                x < 256,
                i <= self.sprite_count,
                self.sprites_shown(),
                self.first_opaque_sprite(x, 0) == self.first_opaque_sprite(x, i as int),
            decreases self.sprite_count - i,
        {
            let sx = self.sp_x[i] as u32;
            if sx <= x && x - sx < 8 {
                let color = (self.sp_data[i] >> (4 * (x - sx))) & 0x0F;
                proof {
                    lemma_sprite_nibble(self.sp_data[i as int] >> ((4 * (x - sx)) as u32));
                }
                if color % 4 != 0 {
                    proof {
                        lemma_transparent(color as u8);
                    }
                    return (color as u8, i);
                }
            }
            i += 1;
        }
        (0, self.sprite_count)
    }

    /// Draws pixel (`x`, `y`) in palette colour `palette_index`.
    #[verifier::rlimit(40)]
    pub fn put_pixel(&mut self, x: usize, y: usize, palette_index: usize)
        requires
            x < 256,
            y < 240,
            palette_index < 64,
        ensures
            *final(self) == old(self).with_pixel(x as int, y as int, palette_index as int),
            old(self).frame_in_palette() ==> final(self).frame_in_palette(),
    {
        reveal(Ppu::frame_in_palette);
        let offset = (y * SCREEN_WIDTH + x) * SCREEN_BPP;
        self.framebuffer[offset] = PALETTE_RGB[palette_index * 3 + 2];
        self.framebuffer[offset + 1] = PALETTE_RGB[palette_index * 3 + 1];
        self.framebuffer[offset + 2] = PALETTE_RGB[palette_index * 3];
        self.framebuffer[offset + 3] = 0xFF;
        proof {
            if old(self).frame_in_palette() {
                assert forall|pixel: int| 0 <= pixel < 61440 implies #[trigger] self.pixel_in_palette(
                    pixel,
                ) by {
                    if pixel == y * 256 + x {
                        assert(self.pixel_is(pixel, palette_index as int));
                    } else {
                        assert(old(self).pixel_in_palette(pixel));
                        let k = choose|k: int| 0 <= k < 64 && #[trigger] old(self).pixel_is(pixel, k);
                        assert(self.pixel_is(pixel, k));
                    }
                }
            }
        }
    }
}

/// The low four bits of the shift register fit in a byte.
pub proof fn lemma_low_nibble(a: u64)
    by (bit_vector)
    ensures
        a & 0x0F <= 0x0F,
{
}

/// Coarse Y has five bits.
pub proof fn lemma_coarse_y(v: u16)
    by (bit_vector)
    ensures
        (v & 0x03E0) >> 5 < 32,
{
}

/// A pixel is transparent exactly when its two pattern bits are zero.
pub proof fn lemma_transparent(c: u8)
    by (bit_vector)
    ensures
        c & 3 == 0 <==> c % 4 == 0,
{
}


impl Ppu {
    /// Whether `other` has the beam, the mask, the dot count and the frame
    /// hand-off where `self` has them.
    pub open spec fn beam_kept(&self, other: &Ppu) -> bool {
        &&& other.cycles == self.cycles
        &&& other.scanline == self.scanline
        &&& other.odd_frame == self.odd_frame
        &&& other.ppu_mask == self.ppu_mask
        &&& other.ppu_ctrl == self.ppu_ctrl
        &&& other.frame_ready == self.frame_ready
        &&& other.dots == self.dots
    }

    /// Whether the dot after the current one is left out: the next-to-last dot
    /// of the pre-render line of an odd frame, with the background shown.
    pub open spec fn skips_last_dot(&self) -> bool {
        self.scanline == PRE_RENDER_LINE && self.cycles == 339 && self.odd_frame && self.background_shown()
    }

    /// Whether the current dot is the last of its scanline.
    pub open spec fn ends_line(&self) -> bool {
        self.cycles == LAST_DOT || self.skips_last_dot()
    }

    /// Whether the current dot is the last of its frame.
    pub open spec fn ends_frame(&self) -> bool {
        self.scanline == PRE_RENDER_LINE && self.ends_line()
    }

    /// The work of the current dot, before the beam moves.
    pub open spec fn after_dot_work(self, mapper: &Mapper0) -> Ppu {
        if self.scanline == PRE_RENDER_LINE {
            self.after_pre_render(mapper)
        } else if self.scanline < 240 {
            self.after_visible(mapper)
        } else if self.scanline == VBLANK_LINE {
            self.after_vblank()
        } else {
            self
        }
    }

    /// The processor with the beam moved on by a dot. At the end of a line
    /// the sprite search starts over; at the end of the frame the frame is
    /// handed off and the frame parity flips.
    pub open spec fn advanced(self) -> Ppu {
        let counted = Ppu { dots: Ghost(self.dots@ + 1), ..self };
        if !self.ends_line() {
            Ppu { cycles: (self.cycles + 1) as u32, ..counted }
        } else if self.scanline < PRE_RENDER_LINE {
            Ppu {
                cycles: 0,
                scanline: (self.scanline + 1) as u32,
                sec_oam_index: 0,
                next_sprite_count: 0,
                next_sp0_slot: 8,
                ..counted
            }
        } else {
            Ppu {
                cycles: 0,
                scanline: 0,
                sec_oam_index: 0,
                next_sprite_count: 0,
                next_sp0_slot: 8,
                odd_frame: !self.odd_frame,
                frame_ready: true,
                ..counted
            }
        }
    }

    /// The processor one dot later.
    pub open spec fn after_tick(self, mapper: &Mapper0) -> Ppu {
        self.after_dot_work(mapper).advanced()
    }

    /// The processor `n` dots later.
    pub open spec fn after_run(self, mapper: &Mapper0, n: nat) -> Ppu
        decreases n,
    {
        if n == 0 {
            self
        } else {
            self.after_run(mapper, (n - 1) as nat).after_tick(mapper)
        }
    }

    /// How many frames end within the next `n` dots.
    pub open spec fn frames_in(self, mapper: &Mapper0, n: nat) -> nat
        decreases n,
    {
        if n == 0 {
            0
        } else {
            self.frames_in(mapper, (n - 1) as nat) + if self.after_run(mapper, (n - 1) as nat).ends_frame() {
                1nat
            } else {
                0nat
            }
        }
    }

    /// Draws the pixel of the current dot.
    #[verifier::rlimit(40)]
    pub fn draw_pixel(&mut self, mapper: &Mapper0)
        requires
            old(self).wf(),
            1 <= old(self).cycles <= 256,
            old(self).scanline < 240,
        ensures
            *final(self) == old(self).after_draw_pixel(mapper),
            final(self).wf(),
            old(self).beam_kept(final(self)),
            old(self).frame_in_palette() ==> final(self).frame_in_palette(),
    {
        let x = self.cycles - 1;
        let y = self.scanline;
        let bg_pixel = if x < 8 && self.hide_back8() {
            0
        } else {
            self.background_pixel()
        };
        let (sp_pixel, slot) = if x < 8 && self.hide_sprite8() {
            (0u8, self.sprite_count)
        } else {
            self.sprite_pixel(x)
        };
        proof {
            lemma_transparent(0);
        }
        let sp_transp = sp_pixel & 3 == 0;
        let bg_transp = bg_pixel & 3 == 0;
        let color: u8 = if bg_transp {
            if sp_transp {
                0
            } else {
                sp_pixel | 0x10
            }
        } else if sp_transp {
            bg_pixel
        } else {
            if slot == self.sp0_slot {
                self.ppu_status = self.ppu_status | STATUS_SPRITE0_HIT;
            }
            if self.sp_prio[slot] == 0 {
                sp_pixel
            } else {
                bg_pixel
            }
        };
        let palette_index = self.load_u8(mapper, 0x3F00 + color as u16) % 64;
        proof {
            old(self).lemma_frame_only(*self);
        }
        self.put_pixel(x as usize, y as usize, palette_index as usize);
    }

    /// Looks at the sprite table entry that is due on the current dot.
    #[verifier::rlimit(40)]
    pub fn scan_sprite(&mut self)
        requires
            old(self).wf(),
            65 <= old(self).cycles <= 256,
        ensures
            *final(self) == old(self).after_scan(),
            final(self).wf(),
            old(self).beam_kept(final(self)),
            final(self).framebuffer == old(self).framebuffer,
    {
        let e = (((self.cycles - 65) / 3 + self.oam_addr as u32) % 64) as usize;
        let spy = self.oam[e * 4] as u32;
        if spy <= self.scanline && self.scanline < spy + self.sprite_h as u32 {
            if self.next_sprite_count < 8 {
                let n = self.next_sprite_count;
                self.sec_oam[4 * n] = self.oam[4 * e];
                self.sec_oam[4 * n + 1] = self.oam[4 * e + 1];
                self.sec_oam[4 * n + 2] = self.oam[4 * e + 2];
                self.sec_oam[4 * n + 3] = self.oam[4 * e + 3];
                self.next_sprite_count = n + 1;
                if e == 0 {
                    self.next_sp0_slot = n;
                }
            } else {
                self.ppu_status = self.ppu_status | STATUS_SPRITE_OVF;
            }
        }
    }

    /// Does the current dot's share of sprite evaluation.
    #[verifier::rlimit(40)]
    pub fn evaluate_sprites(&mut self)
        requires
            old(self).wf(),
            1 <= old(self).cycles <= 256,
        ensures
            *final(self) == old(self).after_evaluate(),
            final(self).wf(),
            old(self).beam_kept(final(self)),
            final(self).framebuffer == old(self).framebuffer,
    {
        if self.cycles <= 64 {
            if self.cycles % 2 == 0 {
                self.sec_oam[self.sec_oam_index] = 0xFF;
                self.sec_oam_index = (self.sec_oam_index + 1) % 32;
            }
        } else {
            if self.cycles % 3 == 2 {
                self.scan_sprite();
            }
            if self.cycles == 256 {
                self.update_y();
                self.sprite_count = self.next_sprite_count;
                self.sp0_slot = self.next_sp0_slot;
            }
        }
    }

    /// Does the current dot's share of loading the sprites found.
    #[verifier::rlimit(40)]
    pub fn latch_sprite(&mut self, mapper: &Mapper0)
        requires
            old(self).wf(),
            257 <= old(self).cycles <= 320,
        ensures
            *final(self) == old(self).after_latch_sprite(mapper),
            final(self).wf(),
            old(self).beam_kept(final(self)),
            final(self).framebuffer == old(self).framebuffer,
    {
        let slot = ((self.cycles - 257) / 8) as usize;
        let oam_idx = slot * 4;
        let phase = self.cycles % 8;
        if slot < self.next_sprite_count {
            if phase == 2 {
                self.sp_at = self.sec_oam[oam_idx + 2];
            } else if phase == 3 {
                self.sp_x[slot] = self.sec_oam[oam_idx + 3];
            } else if phase == 5 {
                self.sp_low = self.fetch_sp_tile(mapper, oam_idx, true);
            } else if phase == 7 {
                self.sp_high = self.fetch_sp_tile(mapper, oam_idx, false);
            } else if phase == 0 {
                let fliph = self.sp_at & OAM_FLIP_H != 0;
                let at = (self.sp_at & 3) << 2;
                self.sp_data[slot] = pack_row(self.sp_low, self.sp_high, at, fliph);
                self.sp_prio[slot] = (self.sp_at >> 5) & 1;
            }
        }
        if self.cycles == 257 {
            self.copy_horiz();
        }
    }

    /// Does the work of a dot on a visible scanline.
    #[verifier::rlimit(40)]
    pub fn visible(&mut self, mapper: &Mapper0)
        requires
            old(self).wf(),
            old(self).scanline < 240,
        ensures
            *final(self) == old(self).after_visible(mapper),
            final(self).wf(),
            old(self).beam_kept(final(self)),
            old(self).frame_in_palette() ==> final(self).frame_in_palette(),
    {
        if self.rendering_enabled() {
            if self.cycles >= 1 && self.cycles <= 256 {
                self.draw_pixel(mapper);
                let ghost drawn = *self;
                self.fetch_cycle(mapper);
                self.evaluate_sprites();
                proof {
                    drawn.lemma_frame_only(*self);
                }
            } else if self.cycles >= 257 && self.cycles <= 320 {
                self.latch_sprite(mapper);
                proof {
                    old(self).lemma_frame_only(*self);
                }
            } else if self.cycles >= 321 && self.cycles <= 336 {
                self.fetch_cycle(mapper);
                proof {
                    old(self).lemma_frame_only(*self);
                }
            } else if self.cycles == 337 || self.cycles == 339 {
                let _ = self.fetch_nt(mapper);
            }
        }
    }

    /// Does the work of a dot on the pre-render scanline.
    #[verifier::rlimit(40)]
    pub fn pre_render(&mut self, mapper: &Mapper0)
        requires
            old(self).wf(),
        ensures
            *final(self) == old(self).after_pre_render(mapper),
            final(self).wf(),
            old(self).beam_kept(final(self)),
            final(self).framebuffer == old(self).framebuffer,
    {
        if self.cycles == 1 {
            self.ppu_status = self.ppu_status & 0x1F;
        }
        if self.rendering_enabled() {
            if self.cycles >= 1 && self.cycles <= 256 {
                self.fetch_cycle(mapper);
                if self.cycles == 256 {
                    self.update_y();
                }
            } else if self.cycles == 257 {
                self.copy_horiz();
            } else if self.cycles >= 280 && self.cycles <= 304 {
                self.copy_vert();
            } else if self.cycles >= 321 && self.cycles <= 336 {
                self.fetch_cycle(mapper);
            } else if self.cycles == 337 || self.cycles == 339 {
                let _ = self.fetch_nt(mapper);
            }
        }
    }

    /// Does the work of a dot on the first line of vertical blank.
    pub fn vblank(&mut self)
        ensures
            *final(self) == old(self).after_vblank(),
            old(self).wf() ==> final(self).wf(),
            old(self).beam_kept(final(self)),
            final(self).framebuffer == old(self).framebuffer,
    {
        if self.cycles == 1 {
            self.ppu_status = self.ppu_status | STATUS_VBLANK;
        }
    }

    /// Runs one dot and says whether it completed a frame.
    #[verifier::rlimit(40)]
    pub fn tick(&mut self, mapper: &Mapper0) -> (frame: bool)
        requires
            old(self).wf(),
        ensures
            *final(self) == old(self).after_tick(mapper),
            frame == old(self).ends_frame(),
            final(self).wf(),
            old(self).frame_in_palette() ==> final(self).frame_in_palette(),
    {
        if self.scanline == PRE_RENDER_LINE {
            self.pre_render(mapper);
            proof {
                old(self).lemma_frame_only(*self);
            }
        } else if self.scanline < 240 {
            self.visible(mapper);
        } else if self.scanline == VBLANK_LINE {
            self.vblank();
            proof {
                old(self).lemma_frame_only(*self);
            }
        }
        let ghost worked = *self;
        let skip = self.scanline == PRE_RENDER_LINE && self.cycles == 339 && self.odd_frame
            && self.show_background();
        let mut frame = false;
        self.dots = Ghost(self.dots@ + 1);
        if self.cycles == LAST_DOT || skip {
            self.cycles = 0;
            self.sec_oam_index = 0;
            self.next_sprite_count = 0;
            self.next_sp0_slot = 8;
            if self.scanline < PRE_RENDER_LINE {
                self.scanline += 1;
            } else {
                self.scanline = 0;
                self.odd_frame = !self.odd_frame;
                self.frame_ready = true;
                frame = true;
            }
        } else {
            self.cycles += 1;
        }
        proof {
            worked.lemma_frame_only(*self);
        }
        frame
    }

    /// Runs `num_cycles` dots and says whether a frame was completed on the way.
    #[verifier::rlimit(40)]
    pub fn run(&mut self, mapper: &Mapper0, num_cycles: u64) -> (frame: bool)
        requires
            old(self).wf(),
        ensures
            *final(self) == old(self).after_run(mapper, num_cycles as nat),
            frame == (old(self).frames_in(mapper, num_cycles as nat) > 0),
            final(self).wf(),
            old(self).frame_in_palette() ==> final(self).frame_in_palette(),
    {
        let mut frame = false;
        let mut left = num_cycles;
        while left > 0
            invariant
                self.wf(),
                left <= num_cycles,
                *self == old(self).after_run(mapper, (num_cycles - left) as nat),
                frame == (old(self).frames_in(mapper, (num_cycles - left) as nat) > 0),
                old(self).frame_in_palette() ==> self.frame_in_palette(),
            decreases left,
        {
            if self.tick(mapper) {
                frame = true;
            }
            left -= 1;
        }
        frame
    }

    /// Whether a frame was completed and not taken yet.
    pub fn frame_ready(&self) -> (ready: bool)
        ensures
            ready == self.frame_ready,
    {
        self.frame_ready
    }

    /// Copies the frame out and marks it as taken.
    pub fn copy_frame(&mut self, dst: &mut [u8])
        requires
            old(dst)@.len() == FRAMEBUFFER_LEN,
        ensures
            final(dst)@ == old(self).framebuffer@,
            *final(self) == (Ppu { frame_ready: false, ..*old(self) }),
    {
        let mut i: usize = 0;
        while i < FRAMEBUFFER_LEN
            invariant
                i <= FRAMEBUFFER_LEN,
                dst@.len() == FRAMEBUFFER_LEN,
                *self == *old(self),
                forall|k: int| 0 <= k < i ==> dst@[k] == self.framebuffer[k],
            decreases FRAMEBUFFER_LEN - i,
        {
            dst[i] = self.framebuffer[i];
            i += 1;
        }
        self.frame_ready = false;
        assert(dst@ =~= old(self).framebuffer@);
    }
}


impl Ppu {
    /// Running `n` dots adds `n` to the count of dots run.
    pub proof fn lemma_run_dots(self, mapper: &Mapper0, n: nat)
        ensures
            self.after_run(mapper, n).dots@ == self.dots@ + n,
        decreases n,
    {
        if n > 0 {
            self.lemma_run_dots(mapper, (n - 1) as nat);
            self.after_run(mapper, (n - 1) as nat).lemma_tick_keeps_beam(mapper);
        }
    }

    /// The work of a dot leaves the beam, the mask and the dot count alone.
    pub proof fn lemma_tick_keeps_beam(self, mapper: &Mapper0)
        ensures
            self.beam_kept(&self.after_dot_work(mapper)),
    {
    }
}


/// Dots in a frame in which none is left out: 262 scanlines of 341 dots.
pub const FRAME_DOTS: u64 = 89342;

impl Ppu {
    /// Whether the current frame is a short one: an odd frame with the
    /// background shown, which leaves out the last dot of the pre-render line.
    pub open spec fn short_frame(&self) -> bool {
        self.odd_frame && self.background_shown()
    }

    /// How far into the frame the beam is, in dots.
    pub open spec fn beam_position(&self) -> int {
        self.scanline * 341 + self.cycles
    }

    /// Dots left to run in the current frame, the current one included.
    pub open spec fn dots_left(&self) -> int {
        FRAME_DOTS - self.beam_position() - if self.short_frame() && self.beam_position() <= FRAME_DOTS - 2 {
            1int
        } else {
            0int
        }
    }

    /// Whether the beam is on the screen's raster.
    pub open spec fn beam_in_range(&self) -> bool {
        self.cycles <= LAST_DOT && self.scanline <= PRE_RENDER_LINE
    }

    /// A dot moves the beam on by one place; the last dot of the frame takes
    /// it back to the start, flips the frame parity and hands the frame off.
    pub proof fn lemma_tick_moves_beam(self, mapper: &Mapper0)
        requires
            self.beam_in_range(),
        ensures
            self.after_tick(mapper).beam_in_range(),
            self.after_tick(mapper).ppu_mask == self.ppu_mask,
            self.ends_frame() <==> self.dots_left() == 1,
            self.dots_left() >= 1,
            !self.ends_frame() ==> self.after_tick(mapper).dots_left() == self.dots_left() - 1
                && self.after_tick(mapper).odd_frame == self.odd_frame,
            self.ends_frame() ==> self.after_tick(mapper).beam_position() == 0 && self.after_tick(
                mapper,
            ).odd_frame == !self.odd_frame && self.after_tick(mapper).frame_ready,
    {
        self.lemma_tick_keeps_beam(mapper);
    }

    /// While dots are left in the frame, running them ends no frame and
    /// leaves as many fewer.
    pub proof fn lemma_run_within_frame(self, mapper: &Mapper0, n: nat)
        requires
            self.beam_in_range(),
            n < self.dots_left(),
        ensures
            self.after_run(mapper, n).beam_in_range(),
            self.after_run(mapper, n).ppu_mask == self.ppu_mask,
            self.after_run(mapper, n).odd_frame == self.odd_frame,
            self.after_run(mapper, n).dots_left() == self.dots_left() - n,
            self.frames_in(mapper, n) == 0,
        decreases n,
    {
        if n > 0 {
            self.lemma_run_within_frame(mapper, (n - 1) as nat);
            self.after_run(mapper, (n - 1) as nat).lemma_tick_moves_beam(mapper);
        }
    }

    /// A frame that starts at dot 0 of scanline 0 and is run with the mask
    /// left alone takes 89 342 dots, or 89 341 when it is an odd frame with
    /// the background shown: no frame ends before its last dot, and the last
    /// dot ends it, leaves the beam at the start of the next frame, flips the
    /// frame parity and marks the frame as ready.
    pub proof fn lemma_frame_length(self, mapper: &Mapper0)
        requires
            self.scanline == 0,
            self.cycles == 0,
        ensures
            self.dots_left() == if self.short_frame() {
                FRAME_DOTS - 1
            } else {
                FRAME_DOTS as int
            },
            self.frames_in(mapper, (self.dots_left() - 1) as nat) == 0,
            self.frames_in(mapper, self.dots_left() as nat) == 1,
            self.after_run(mapper, self.dots_left() as nat).scanline == 0,
            self.after_run(mapper, self.dots_left() as nat).cycles == 0,
            self.after_run(mapper, self.dots_left() as nat).odd_frame == !self.odd_frame,
            self.after_run(mapper, self.dots_left() as nat).frame_ready,
    {
        let last = (self.dots_left() - 1) as nat;
        self.lemma_run_within_frame(mapper, last);
        self.after_run(mapper, last).lemma_tick_moves_beam(mapper);
    }

    /// After a read of the status register the vertical-blank flag is clear
    /// and the write toggle is off, whatever they were before.
    pub proof fn lemma_status_read(self, mapper: &Mapper0)
        ensures
            self.after_read_reg(mapper, PPUSTATUS).ppu_status & STATUS_VBLANK == 0,
            !self.after_read_reg(mapper, PPUSTATUS).w,
    {
        lemma_clear_bit7(self.ppu_status);
    }

    /// The two writes of an address pair set `v` and `t` to the fourteen-bit
    /// address they spell, high six bits first, leave the toggle ready for
    /// the next pair and change nothing else.
    pub proof fn lemma_address_pair(self, high: u8, low: u8)
        requires
            !self.w,
        ensures
            self.after_write_reg(PPUADDR, high).after_write_reg(PPUADDR, low) == (Ppu {
                t: (((high as u16) & 0x3F) << 8) | (low as u16),
                v: (((high as u16) & 0x3F) << 8) | (low as u16),
                w: false,
                ..self
            }),
    {
        lemma_address_bits(self.t, high, low);
    }

    /// The palette entries 0x10, 0x14, 0x18 and 0x1C are the entries 0x00,
    /// 0x04, 0x08 and 0x0C: a load from either address gives the same byte
    /// and a store to either has the same effect.
    pub proof fn lemma_palette_mirrors(self, mapper: &Mapper0, entry: u16, value: u8)
        requires
            entry == 0 || entry == 4 || entry == 8 || entry == 12,
        ensures
            self.peek(mapper, (0x3F10 + entry) as u16) == self.peek(mapper, (0x3F00 + entry) as u16),
            self.poke((0x3F10 + entry) as u16, value) == self.poke((0x3F00 + entry) as u16, value),
    {
    }
}

} // verus!
