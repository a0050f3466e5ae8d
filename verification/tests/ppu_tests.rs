use nes_core::mapper::from_file;
use nes_core::mapper::Mapper0;
use nes_core::ppu::pack_row;
use nes_core::ppu::Ppu;
use nes_core::ppu::PALETTE_RGB;

fn cartridge(chr_fill: u8, vertical: bool) -> Mapper0 {
    let mut bytes = vec![0x4E, 0x45, 0x53, 0x1A, 1, 1, if vertical { 1 } else { 0 }, 0];
    bytes.extend_from_slice(&[0u8; 8]);
    bytes.extend_from_slice(&vec![0xEAu8; 16384]);
    bytes.extend_from_slice(&vec![chr_fill; 8192]);
    from_file(&bytes).unwrap()
}

fn set_address(ppu: &mut Ppu, m: &mut Mapper0, address: u16) {
    let _ = ppu.read_reg(m, 2);
    ppu.write_reg(m, 6, (address >> 8) as u8);
    ppu.write_reg(m, 6, (address & 0xFF) as u8);
}

#[test]
fn status_read_clears_vblank_and_toggle() {
    let mut m = cartridge(0, false);
    let mut ppu = Ppu::new(&m);
    ppu.ppu_status = 0xE0;
    ppu.write_reg(&mut m, 6, 0x20);
    assert!(ppu.w);
    assert_eq!(ppu.read_reg(&m, 2), 0xE0);
    assert_eq!(ppu.ppu_status, 0x60);
    assert!(!ppu.w);
    assert_eq!(ppu.read_reg(&m, 2), 0x60);
}

#[test]
fn address_pair_restarts_after_status_read() {
    let mut m = cartridge(0, false);
    let mut ppu = Ppu::new(&m);
    ppu.write_reg(&mut m, 6, 0x20);
    ppu.write_reg(&mut m, 6, 0x00);
    assert_eq!(ppu.v, 0x2000);
    assert_eq!(ppu.t, 0x2000);
    let _ = ppu.read_reg(&m, 2);
    ppu.write_reg(&mut m, 6, 0x21);
    ppu.write_reg(&mut m, 6, 0x23);
    assert_eq!(ppu.v, 0x2123);
    assert_eq!(ppu.v, ppu.t);
    // a lone first write leaves v alone; the read then restarts the pair
    ppu.write_reg(&mut m, 6, 0x3F);
    assert_eq!(ppu.v, 0x2123);
    let _ = ppu.read_reg(&m, 2);
    ppu.write_reg(&mut m, 6, 0x24);
    ppu.write_reg(&mut m, 6, 0x56);
    assert_eq!(ppu.v, 0x2456);
}

#[test]
fn palette_mirrors() {
    let mut m = cartridge(0, false);
    let mut ppu = Ppu::new(&m);
    for (i, base) in [0x3F00u16, 0x3F04, 0x3F08, 0x3F0C].iter().enumerate() {
        ppu.store_u8(&mut m, *base, 0x11 + i as u8);
        assert_eq!(ppu.load_u8(&m, base + 0x10), 0x11 + i as u8);
        ppu.store_u8(&mut m, base + 0x10, 0x21 + i as u8);
        assert_eq!(ppu.load_u8(&m, *base), 0x21 + i as u8);
    }
    ppu.store_u8(&mut m, 0x3F11, 0x05);
    ppu.store_u8(&mut m, 0x3F01, 0x06);
    assert_eq!(ppu.load_u8(&m, 0x3F11), 0x05);
    assert_eq!(ppu.load_u8(&m, 0x3F31), 0x05);
    assert_eq!(ppu.load_u8(&m, 0x7F01), 0x06);
}

#[test]
fn nametable_mirroring() {
    let mut m = cartridge(0, false);
    let mut ppu = Ppu::new(&m);
    ppu.store_u8(&mut m, 0x2005, 0xAA);
    assert_eq!(ppu.load_u8(&m, 0x2405), 0xAA);
    ppu.store_u8(&mut m, 0x2805, 0xBB);
    assert_eq!(ppu.load_u8(&m, 0x2C05), 0xBB);
    assert_eq!(ppu.load_u8(&m, 0x2005), 0xAA);
    assert_eq!(ppu.mirror_address(0x2C05), 0x405);
    let mut m = cartridge(0, true);
    let mut ppu = Ppu::new(&m);
    ppu.store_u8(&mut m, 0x2005, 0xAA);
    assert_eq!(ppu.load_u8(&m, 0x2805), 0xAA);
    ppu.store_u8(&mut m, 0x2405, 0xBB);
    assert_eq!(ppu.load_u8(&m, 0x2C05), 0xBB);
    assert_eq!(ppu.load_u8(&m, 0x2005), 0xAA);
}

#[test]
fn data_port_reads_are_buffered_below_the_palette() {
    let mut m = cartridge(0, false);
    let mut ppu = Ppu::new(&m);
    set_address(&mut ppu, &mut m, 0x2000);
    ppu.write_reg(&mut m, 7, 0x12);
    ppu.write_reg(&mut m, 7, 0x34);
    assert_eq!(ppu.v, 0x2002);
    set_address(&mut ppu, &mut m, 0x2000);
    let _ = ppu.read_reg(&m, 7);
    assert_eq!(ppu.read_reg(&m, 7), 0x12);
    assert_eq!(ppu.read_reg(&m, 7), 0x34);
    set_address(&mut ppu, &mut m, 0x3F00);
    ppu.write_reg(&mut m, 7, 0x2A);
    set_address(&mut ppu, &mut m, 0x3F00);
    assert_eq!(ppu.read_reg(&m, 7), 0x2A);
    // increment by 32 when bit 2 of the control register is set
    ppu.write_reg(&mut m, 0, 0x04);
    set_address(&mut ppu, &mut m, 0x2000);
    ppu.write_reg(&mut m, 7, 0x01);
    assert_eq!(ppu.v, 0x2020);
    // pattern stores reach the cartridge
    set_address(&mut ppu, &mut m, 0x0123);
    ppu.write_reg(&mut m, 7, 0x77);
    assert_eq!(m.chr[0x123], 0x77);
}

#[test]
fn control_and_scroll_writes() {
    let mut m = cartridge(0, false);
    let mut ppu = Ppu::new(&m);
    ppu.write_reg(&mut m, 0, 0xBB);
    assert_eq!(ppu.t, 0x0C00);
    assert_eq!(ppu.vram_addr_incr, 1);
    assert_eq!(ppu.spr_pattern_table, 0x1000);
    assert_eq!(ppu.bg_pattern_table, 0x1000);
    assert_eq!(ppu.sprite_h, 16);
    ppu.write_reg(&mut m, 0, 0x00);
    ppu.write_reg(&mut m, 5, 0x7D);
    assert_eq!(ppu.t, 0x000F);
    assert_eq!(ppu.x, 5);
    assert!(ppu.w);
    ppu.write_reg(&mut m, 5, 0x5E);
    assert_eq!(ppu.t, 0x616F);
    assert!(!ppu.w);
    ppu.write_reg(&mut m, 3, 0xFE);
    ppu.write_reg(&mut m, 4, 0x11);
    ppu.write_reg(&mut m, 4, 0x22);
    ppu.write_reg(&mut m, 4, 0x33);
    assert_eq!(ppu.oam[0xFE], 0x11);
    assert_eq!(ppu.oam[0xFF], 0x22);
    assert_eq!(ppu.oam[0x00], 0x33);
    assert_eq!(ppu.oam_addr, 1);
    ppu.write_reg(&mut m, 3, 0xFF);
    assert_eq!(ppu.read_reg(&m, 4), 0x22);
    assert_eq!(ppu.read_reg(&m, 0), 0);
    assert_eq!(ppu.read_reg(&m, 5), 0);
}

#[test]
fn vblank_raises_the_interrupt_line() {
    let mut m = cartridge(0, false);
    let mut ppu = Ppu::new(&m);
    ppu.write_reg(&mut m, 0, 0x80);
    assert!(!ppu.pending_nmi());
    ppu.run(&m, 2);
    assert_eq!((ppu.scanline, ppu.cycles), (241, 1));
    assert!(!ppu.pending_nmi());
    ppu.run(&m, 1);
    assert!(ppu.pending_nmi());
    assert_eq!(ppu.ppu_status & 0x80, 0x80);
    // the pre-render line clears the flag on its dot 1
    ppu.run(&m, 20 * 341);
    assert_eq!((ppu.scanline, ppu.cycles), (261, 2));
    assert!(!ppu.pending_nmi());
    assert_eq!(ppu.ppu_status & 0xE0, 0);
}

#[test]
fn frame_lengths() {
    let m = cartridge(0, false);
    let mut ppu = Ppu::new(&m);
    // from the parked beam to the start of the first frame
    assert!(!ppu.run(&m, 22 * 341 - 340 - 1));
    assert!(ppu.run(&m, 1));
    assert_eq!((ppu.scanline, ppu.cycles), (0, 0));
    assert!(ppu.odd_frame);
    assert!(ppu.frame_ready());
    // rendering off: every frame has 262 * 341 dots
    assert!(!ppu.run(&m, 89341));
    assert!(ppu.run(&m, 1));
    assert_eq!((ppu.scanline, ppu.cycles), (0, 0));
    assert!(!ppu.odd_frame);
    // rendering on: an even frame is full, an odd one a dot short
    ppu.ppu_mask = 0x08;
    assert!(!ppu.run(&m, 89341));
    assert!(ppu.run(&m, 1));
    assert!(ppu.odd_frame);
    assert!(!ppu.run(&m, 89340));
    assert!(ppu.run(&m, 1));
    assert_eq!((ppu.scanline, ppu.cycles), (0, 0));
    assert!(!ppu.odd_frame);
    // sprites alone do not shorten the odd frame
    ppu.ppu_mask = 0x10;
    ppu.run(&m, 89342);
    assert!(ppu.odd_frame);
    assert!(!ppu.run(&m, 89341));
    assert!(ppu.run(&m, 1));
}

#[test]
fn copy_frame_hands_off() {
    let m = cartridge(0, false);
    let mut ppu = Ppu::new(&m);
    ppu.run(&m, 22 * 341);
    assert!(ppu.frame_ready());
    ppu.put_pixel(3, 2, 0x16);
    let mut dst = vec![0u8; 245760];
    ppu.copy_frame(&mut dst);
    assert!(!ppu.frame_ready());
    let o = (2 * 256 + 3) * 4;
    assert_eq!(&dst[o..o + 4], &[0x20, 0x31, 0xB5, 0xFF]);
    assert_eq!(dst[o], PALETTE_RGB[0x16 * 3 + 2]);
}

#[test]
fn pack_row_orders_pixels_left_to_right() {
    // low plane 1000_0001, high plane 1100_0000, attribute bits 0b1000
    assert_eq!(pack_row(0x81, 0xC0, 0x08, false), 0x9888_88AB);
    assert_eq!(pack_row(0x81, 0xC0, 0x08, true), 0xBA88_8889);
    assert_eq!(pack_row(0, 0, 0, false), 0);
}

#[test]
fn scroll_increments() {
    let m = cartridge(0, false);
    let mut ppu = Ppu::new(&m);
    ppu.v = 0x001E;
    ppu.update_x();
    assert_eq!(ppu.v, 0x001F);
    ppu.update_x();
    assert_eq!(ppu.v, 0x0400);
    ppu.v = 0x6000;
    ppu.update_y();
    assert_eq!(ppu.v, 0x7000);
    ppu.update_y();
    assert_eq!(ppu.v, 0x0020);
    ppu.v = 0x7000 | (29 << 5);
    ppu.update_y();
    assert_eq!(ppu.v, 0x0800);
    ppu.v = 0x7000 | (31 << 5);
    ppu.update_y();
    assert_eq!(ppu.v, 0x0000);
    ppu.v = 0x7BE5;
    ppu.t = 0x041F;
    ppu.copy_horiz();
    assert_eq!(ppu.v, 0x7FFF);
    ppu.v = 0x0415;
    ppu.t = 0x7BE0;
    ppu.copy_vert();
    assert_eq!(ppu.v, 0x7FF5);
    assert_eq!(ppu.extract_y(), 31);
}

#[test]
fn background_is_drawn_with_the_palette() {
    // every tile is solid colour 3
    let mut m = cartridge(0xFF, false);
    let mut ppu = Ppu::new(&m);
    ppu.store_u8(&mut m, 0x3F00, 0x0F);
    ppu.store_u8(&mut m, 0x3F03, 0x21);
    ppu.write_reg(&mut m, 1, 0x0A);
    // run through the pre-render line and the first visible line
    ppu.run(&m, 22 * 341 + 1);
    assert_eq!((ppu.scanline, ppu.cycles), (1, 0));
    for x in 0..256usize {
        let o = x * 4;
        assert_eq!(ppu.framebuffer[o], PALETTE_RGB[0x21 * 3 + 2], "x = {}", x);
        assert_eq!(ppu.framebuffer[o + 1], PALETTE_RGB[0x21 * 3 + 1]);
        assert_eq!(ppu.framebuffer[o + 2], PALETTE_RGB[0x21 * 3]);
        assert_eq!(ppu.framebuffer[o + 3], 0xFF);
    }
    // with the left column hidden the universal colour shows there
    ppu.write_reg(&mut m, 1, 0x08);
    ppu.run(&m, 341);
    let o = 256 * 4;
    assert_eq!(ppu.framebuffer[o + 2], PALETTE_RGB[0x0F * 3]);
    assert_eq!(ppu.framebuffer[o], PALETTE_RGB[0x0F * 3 + 2]);
    assert_eq!(ppu.framebuffer[o + 8 * 4], PALETTE_RGB[0x21 * 3 + 2]);
}

#[test]
fn sprite_zero_hit() {
    let mut m = cartridge(0xFF, false);
    let mut ppu = Ppu::new(&m);
    // sprite 0: first shown on line 16, column 8, in front of the background
    ppu.write_reg(&mut m, 3, 0);
    for b in [15u8, 0x01, 0x00, 8] {
        ppu.write_reg(&mut m, 4, b);
    }
    // park the others below the screen
    for _ in 1..64 {
        for b in [0xF0u8, 0, 0, 0] {
            ppu.write_reg(&mut m, 4, b);
        }
    }
    ppu.write_reg(&mut m, 1, 0x1E);
    // to line 16, dot 9: the pixel at column 8 is not drawn yet
    ppu.run(&m, 1 + 21 * 341 + 16 * 341 + 9);
    assert_eq!((ppu.scanline, ppu.cycles), (16, 9));
    assert_eq!(ppu.ppu_status & 0x40, 0);
    ppu.run(&m, 1);
    assert_eq!(ppu.ppu_status & 0x40, 0x40);
    assert_eq!(ppu.read_reg(&m, 2) & 0x40, 0x40);
    // it stays set through vertical blank
    ppu.run(&m, 240 * 341);
    assert_eq!(ppu.scanline, 256);
    assert_eq!(ppu.ppu_status & 0x40, 0x40);
    // and the pre-render line clears it
    ppu.run(&m, 5 * 341);
    assert_eq!((ppu.scanline, ppu.cycles), (261, 10));
    assert_eq!(ppu.ppu_status & 0x40, 0);
}

#[test]
fn sprite_overflow_and_priority() {
    let mut m = cartridge(0xFF, false);
    let mut ppu = Ppu::new(&m);
    ppu.store_u8(&mut m, 0x3F00, 0x0F);
    ppu.store_u8(&mut m, 0x3F03, 0x21);
    ppu.store_u8(&mut m, 0x3F13, 0x16);
    ppu.write_reg(&mut m, 3, 0);
    // nine sprites on line 40, the first behind the background
    for i in 0..64u8 {
        let (y, attr) = if i < 9 { (39u8, if i == 0 { 0x20 } else { 0x00 }) } else { (0xF0, 0) };
        for b in [y, 0x01, attr, 100 + 8 * i.min(9)] {
            ppu.write_reg(&mut m, 4, b);
        }
    }
    ppu.write_reg(&mut m, 1, 0x1E);
    ppu.run(&m, 1 + 21 * 341 + 39 * 341 + 64);
    assert_eq!(ppu.ppu_status & 0x20, 0);
    ppu.run(&m, 341);
    assert_eq!(ppu.ppu_status & 0x20, 0x20);
    assert_eq!(ppu.sprite_count, 8);
    ppu.run(&m, 341);
    // behind the background: the background's colour shows
    let o = (40 * 256 + 100) * 4;
    assert_eq!(ppu.framebuffer[o + 2], PALETTE_RGB[0x21 * 3]);
    // in front: the sprite's entry is looked up as it stands
    let o = (40 * 256 + 108) * 4;
    assert_eq!(ppu.framebuffer[o + 2], PALETTE_RGB[0x21 * 3]);
    assert_eq!(ppu.sp_prio[0], 1);
    assert_eq!(ppu.sp_prio[1], 0);
}

#[test]
fn sprite_over_transparent_background_uses_sprite_palette() {
    let mut bytes = vec![0x4E, 0x45, 0x53, 0x1A, 1, 1, 0, 0];
    bytes.extend_from_slice(&[0u8; 8]);
    bytes.extend_from_slice(&vec![0xEAu8; 16384]);
    // tile 0 empty, tile 1 solid colour 3
    let mut chr = vec![0u8; 8192];
    for b in chr.iter_mut().skip(16).take(16) {
        *b = 0xFF;
    }
    bytes.extend_from_slice(&chr);
    let mut m = from_file(&bytes).unwrap();
    let mut ppu = Ppu::new(&m);
    ppu.store_u8(&mut m, 0x3F00, 0x0F);
    ppu.store_u8(&mut m, 0x3F13, 0x16);
    ppu.store_u8(&mut m, 0x3F17, 0x2A);
    ppu.write_reg(&mut m, 3, 0);
    for i in 0..64u8 {
        let sprite = match i {
            0 => [19u8, 0x01, 0x00, 50],
            1 => [19u8, 0x01, 0x01, 54],
            _ => [0xF0, 0, 0, 0],
        };
        for b in sprite {
            ppu.write_reg(&mut m, 4, b);
        }
    }
    ppu.write_reg(&mut m, 1, 0x1E);
    ppu.run(&m, 1 + 21 * 341 + 21 * 341);
    let at = |ppu: &Ppu, x: usize| ppu.framebuffer[(20 * 256 + x) * 4 + 2];
    assert_eq!(at(&ppu, 49), PALETTE_RGB[0x0F * 3]);
    assert_eq!(at(&ppu, 50), PALETTE_RGB[0x16 * 3]);
    // the first sprite wins where two overlap
    assert_eq!(at(&ppu, 57), PALETTE_RGB[0x16 * 3]);
    assert_eq!(at(&ppu, 58), PALETTE_RGB[0x2A * 3]);
    assert_eq!(at(&ppu, 62), PALETTE_RGB[0x0F * 3]);
    // no hit over a transparent background
    assert_eq!(ppu.ppu_status & 0x40, 0);
}

#[test]
fn every_pixel_is_a_palette_colour() {
    let mut m = cartridge(0xA5, false);
    let mut ppu = Ppu::new(&m);
    for i in 0..32u16 {
        ppu.store_u8(&mut m, 0x3F00 + i, (i * 7 + 3) as u8);
    }
    ppu.write_reg(&mut m, 1, 0x1E);
    ppu.run(&m, 2 * 89342);
    for p in 0..(256 * 240) {
        let (b, g, r) = (ppu.framebuffer[4 * p], ppu.framebuffer[4 * p + 1], ppu.framebuffer[4 * p + 2]);
        assert!((0..64).any(|k| PALETTE_RGB[3 * k] == r && PALETTE_RGB[3 * k + 1] == g && PALETTE_RGB[3 * k + 2] == b));
    }
}

#[test]
fn reset_parks_the_beam() {
    let mut m = cartridge(0, false);
    let mut ppu = Ppu::new(&m);
    ppu.write_reg(&mut m, 6, 0x21);
    ppu.run(&m, 5000);
    ppu.reset();
    assert_eq!((ppu.scanline, ppu.cycles), (240, 340));
    assert_eq!((ppu.v, ppu.t, ppu.x, ppu.w), (0, 0, 0, false));
    assert!(!ppu.frame_ready());
    assert!(!ppu.odd_frame);
}

fn patterned_cartridge() -> Mapper0 {
    let mut bytes = vec![0x4E, 0x45, 0x53, 0x1A, 1, 1, 0, 0];
    bytes.extend_from_slice(&[0u8; 8]);
    bytes.extend_from_slice(&vec![0xEAu8; 16384]);
    let chr: Vec<u8> = (0..8192usize).map(|i| (i % 251) as u8).collect();
    bytes.extend_from_slice(&chr);
    from_file(&bytes).unwrap()
}

#[test]
fn attribute_fetch_selects_the_quadrant() {
    let mut m = cartridge(0, false);
    let mut ppu = Ppu::new(&m);
    ppu.store_u8(&mut m, 0x23C0, 0b11_10_01_00);
    ppu.store_u8(&mut m, 0x23C9, 0b00_00_00_11);
    ppu.v = 0x0000;
    assert_eq!(ppu.fetch_at(&m), 0b0000);
    ppu.v = 0x0002;
    assert_eq!(ppu.fetch_at(&m), 0b0100);
    ppu.v = 0x0040;
    assert_eq!(ppu.fetch_at(&m), 0b1000);
    ppu.v = 0x0042;
    assert_eq!(ppu.fetch_at(&m), 0b1100);
    // tile column 4, row 4 lies in the second attribute byte of the second row
    ppu.v = (4 << 5) | 4;
    assert_eq!(ppu.fetch_at(&m), 0b1100);
    ppu.store_u8(&mut m, 0x2000 + (4 << 5) + 4, 0x5D);
    assert_eq!(ppu.fetch_nt(&m), 0x5D);
}

#[test]
fn pattern_fetch_addresses() {
    let mut m = patterned_cartridge();
    let mut ppu = Ppu::new(&m);
    ppu.write_reg(&mut m, 0, 0x10);
    ppu.nt = 0x24;
    ppu.v = 5 << 12;
    assert_eq!(ppu.fetch_bg_tile(&m, true), (0x1245 % 251) as u8);
    assert_eq!(ppu.fetch_bg_tile(&m, false), (0x124D % 251) as u8);
    // a sprite of tile 0x31, shown on its row 2
    ppu.write_reg(&mut m, 0, 0x08);
    ppu.sec_oam[4] = 10;
    ppu.sec_oam[5] = 0x31;
    ppu.scanline = 12;
    ppu.sp_at = 0x00;
    assert_eq!(ppu.fetch_sp_tile(&m, 4, true), (0x1312 % 251) as u8);
    assert_eq!(ppu.fetch_sp_tile(&m, 4, false), (0x131A % 251) as u8);
    // flipped vertically it is row 5
    ppu.sp_at = 0x80;
    assert_eq!(ppu.fetch_sp_tile(&m, 4, true), (0x1315 % 251) as u8);
    // sprites sixteen lines high fetch nothing
    ppu.write_reg(&mut m, 0, 0x28);
    assert_eq!(ppu.fetch_sp_tile(&m, 4, true), 0);
}

#[test]
fn shift_register_feeds_the_pixels() {
    let m = cartridge(0, false);
    let mut ppu = Ppu::new(&m);
    ppu.tile_data = 0x0000_0000_FEDC_BA98;
    ppu.x = 0;
    assert_eq!(ppu.background_pixel(), 0x8);
    ppu.x = 3;
    assert_eq!(ppu.background_pixel(), 0xB);
    ppu.x = 7;
    assert_eq!(ppu.background_pixel(), 0xF);
    // sprites: columns 20 to 27 of the second latched sprite
    ppu.ppu_mask = 0x10;
    ppu.sprite_count = 2;
    ppu.sp_x = [100, 20, 0, 0, 0, 0, 0, 0];
    ppu.sp_data[0] = 0x3333_3333;
    ppu.sp_data[1] = 0x7654_3210;
    assert_eq!(ppu.sprite_pixel(19), (0, 2));
    assert_eq!(ppu.sprite_pixel(20), (0, 2));
    assert_eq!(ppu.sprite_pixel(21), (1, 1));
    assert_eq!(ppu.sprite_pixel(24), (0, 2));
    assert_eq!(ppu.sprite_pixel(27), (7, 1));
    assert_eq!(ppu.sprite_pixel(28), (0, 2));
    assert_eq!(ppu.sprite_pixel(103), (3, 0));
    ppu.ppu_mask = 0x00;
    assert_eq!(ppu.sprite_pixel(103), (0, 2));
    assert!(ppu.hide_sprite8() && ppu.hide_back8());
    ppu.ppu_mask = 0x06;
    assert!(!ppu.hide_sprite8() && !ppu.hide_back8());
    assert!(!ppu.show_background() && !ppu.show_sprites() && !ppu.rendering_enabled());
    ppu.ppu_mask = 0x08;
    assert!(ppu.show_background() && ppu.rendering_enabled());
}

fn two_sprites_on_line_16(m: &mut Mapper0, first_scanned: u8) -> Ppu {
    let mut ppu = Ppu::new(m);
    ppu.write_reg(m, 3, 0);
    // sprite 0 at column 100, sprite 1 at column 8, both first shown on line 16
    for i in 0..64u8 {
        let sprite = match i {
            0 => [15u8, 0x01, 0x00, 100],
            1 => [15u8, 0x01, 0x00, 8],
            _ => [0xF0, 0, 0, 0],
        };
        for b in sprite {
            ppu.write_reg(m, 4, b);
        }
    }
    ppu.write_reg(m, 3, first_scanned);
    ppu.write_reg(m, 1, 0x1E);
    ppu
}

#[test]
fn only_sprite_zero_raises_the_hit() {
    // the scan starts at entry 1: sprite 1 takes the first slot, sprite 0 the second
    let mut m = cartridge(0xFF, false);
    let mut ppu = two_sprites_on_line_16(&mut m, 1);
    ppu.run(&m, 1 + 21 * 341 + 16 * 341);
    assert_eq!(ppu.sprite_count, 2);
    assert_eq!((ppu.sp_x[0], ppu.sp_x[1]), (8, 100));
    assert_eq!(ppu.sp0_slot, 1);
    // sprite 1 over the background raises nothing
    ppu.run(&m, 100);
    assert_eq!(ppu.ppu_status & 0x40, 0);
    // sprite 0 does, from its own slot
    ppu.run(&m, 2);
    assert_eq!(ppu.ppu_status & 0x40, 0x40);
    // scanned from entry 0, sprite 0 is in the first slot
    let mut m = cartridge(0xFF, false);
    let mut ppu = two_sprites_on_line_16(&mut m, 0);
    ppu.run(&m, 1 + 21 * 341 + 16 * 341 + 100);
    assert_eq!(ppu.sp0_slot, 0);
    assert_eq!((ppu.sp_x[0], ppu.sp_x[1]), (100, 8));
    assert_eq!(ppu.ppu_status & 0x40, 0);
    ppu.run(&m, 2);
    assert_eq!(ppu.ppu_status & 0x40, 0x40);
    // with sprite 0 off the screen no other sprite raises the hit
    let mut m = cartridge(0xFF, false);
    let mut ppu = two_sprites_on_line_16(&mut m, 0);
    ppu.oam[0] = 0xF0;
    ppu.run(&m, 1 + 21 * 341 + 40 * 341);
    assert_eq!(ppu.sp0_slot, 8);
    assert_eq!(ppu.ppu_status & 0x40, 0);
}

#[test]
fn hit_needs_both_pixels_opaque() {
    // an empty pattern table: background and sprite are transparent
    let mut m = cartridge(0x00, false);
    let mut ppu = two_sprites_on_line_16(&mut m, 0);
    ppu.run(&m, 1 + 21 * 341 + 40 * 341);
    assert_eq!(ppu.ppu_status & 0x40, 0);
}

#[test]
fn address_registers_have_fifteen_bits() {
    let mut m = cartridge(0, false);
    let mut ppu = Ppu::new(&m);
    ppu.write_reg(&mut m, 5, 0xFF);
    ppu.write_reg(&mut m, 5, 0xFF);
    assert_eq!(ppu.t, 0x73FF);
    ppu.write_reg(&mut m, 0, 0xFF);
    assert_eq!(ppu.t, 0x7FFF);
    ppu.write_reg(&mut m, 6, 0xFF);
    assert_eq!(ppu.t, 0x3FFF);
    ppu.write_reg(&mut m, 6, 0xFE);
    assert_eq!((ppu.t, ppu.v, ppu.w), (0x3FFE, 0x3FFE, false));
    // the data register steps within fifteen bits
    ppu.v = 0x7FFF;
    let _ = ppu.read_reg(&m, 7);
    assert_eq!(ppu.v, 0x001F);
}
