use gb_core::ppu::{Colour, Interrupts, ObjectPalette, ObjectSize, PPUModes, Palette, TilePixelValue, PPU};

#[test]
fn oam_scan_ends_after_80_cycles() {
    let mut p = PPU::new();
    assert_eq!(p.mode(), PPUModes::OAMScan);
    assert_eq!(p.step(79), Interrupts::Neither);
    assert_eq!(p.mode(), PPUModes::OAMScan);
    p.step(1);
    assert_eq!(p.mode(), PPUModes::PixelTransfer);
    assert_eq!(p.cycles(), 0);
    let mut q = PPU::new();
    q.step(40);
    assert_eq!(q.mode(), PPUModes::OAMScan);
    q.step(40);
    assert_eq!(q.mode(), PPUModes::PixelTransfer);
    q.step(40);
    assert_eq!(q.mode(), PPUModes::PixelTransfer);
}

#[test]
fn a_scanline_is_456_cycles() {
    let mut p = PPU::new();
    p.step(80);
    assert_eq!(p.mode(), PPUModes::PixelTransfer);
    p.step(172);
    assert_eq!(p.mode(), PPUModes::HBlank);
    assert_eq!(p.ly(), 0);
    p.step(203);
    assert_eq!(p.mode(), PPUModes::HBlank);
    p.step(1);
    assert_eq!(p.mode(), PPUModes::OAMScan);
    assert_eq!(p.ly(), 1);
    assert_eq!(p.cycles(), 0);
}

#[test]
fn vertical_blank_then_wrap() {
    let mut p = PPU::new();
    let mut vblank_requests = 0;
    for _ in 0..144 {
        p.step(80);
        p.step(172);
        let r = p.step(204);
        if r == Interrupts::VBlank || r == Interrupts::Both {
            vblank_requests += 1;
        }
    }
    assert_eq!(vblank_requests, 1);
    assert_eq!(p.mode(), PPUModes::VBlank);
    assert_eq!(p.ly(), 144);
    for line in 145..154u32 {
        p.step(228);
        p.step(228);
        assert_eq!(p.ly() as u32, line);
        assert_eq!(p.mode(), PPUModes::VBlank);
    }
    p.step(228);
    p.step(228);
    assert_eq!(p.ly(), 0);
    assert_eq!(p.mode(), PPUModes::OAMScan);
}

#[test]
fn lyc_match_requests_lcd_interrupt() {
    let mut p = PPU::new();
    p.write_register(5, 1);
    p.write_register(1, 0x40);
    p.step(80);
    p.step(172);
    let r = p.step(204);
    assert_eq!(r, Interrupts::LCD);
    assert_eq!(p.read_register(1) & 0x04, 0x04);
}

#[test]
fn hblank_select_requests_on_entry() {
    let mut p = PPU::new();
    p.write_register(1, 0x08);
    p.step(80);
    assert_eq!(p.step(172), Interrupts::LCD);
}

#[test]
fn interrupt_union() {
    let mut i = Interrupts::Neither;
    i.add(Interrupts::LCD);
    assert_eq!(i, Interrupts::LCD);
    i.add(Interrupts::LCD);
    assert_eq!(i, Interrupts::LCD);
    i.add(Interrupts::VBlank);
    assert_eq!(i, Interrupts::Both);
    let mut j = Interrupts::LCD;
    j.add(Interrupts::Both);
    assert_eq!(j, Interrupts::Both);
}

#[test]
fn tile_cache_follows_vram() {
    let mut p = PPU::new();
    p.write_to_vram(0x0012, 0b1010_0000);
    p.write_to_vram(0x0013, 0b1100_0000);
    assert_eq!(p.tile_pixel(1, 1, 0), TilePixelValue::Three);
    assert_eq!(p.tile_pixel(1, 1, 1), TilePixelValue::Two);
    assert_eq!(p.tile_pixel(1, 1, 2), TilePixelValue::One);
    assert_eq!(p.tile_pixel(1, 1, 3), TilePixelValue::Zero);
    assert_eq!(p.tile_pixel(1, 0, 0), TilePixelValue::Zero);
    assert_eq!(p.read_from_vram(0x0012), 0b1010_0000);
    p.write_to_vram(0x1900, 0xFF);
    assert_eq!(p.read_from_vram(0x1900), 0xFF);
}

#[test]
fn object_records_are_decoded() {
    let mut p = PPU::new();
    p.write_oam(4, 16);
    p.write_oam(5, 8);
    p.write_oam(6, 0x03);
    p.write_oam(7, 0xF0);
    let o = p.object(1);
    assert_eq!((o.y, o.x, o.tile_index), (16, 8, 0x03));
    assert!(o.priority && o.y_flip && o.x_flip);
    assert_eq!(o.palette, ObjectPalette::One);
    assert_eq!(p.read_oam(6), 0x03);
    p.write_register(0, 0x91 | 0x04);
    assert_eq!(p.object_size(), ObjectSize::O8x16);
    assert_eq!(p.object(1).tile_index, 0x02);
}

#[test]
fn palettes() {
    assert_eq!(
        Palette::from_byte(0xE4),
        Palette(Colour::White, Colour::LightGray, Colour::DarkGray, Colour::Black)
    );
    assert_eq!(Palette::new(), Palette::from_byte(0xE4));
    assert_eq!(Colour::from_bits(2).level(), 96);
}
