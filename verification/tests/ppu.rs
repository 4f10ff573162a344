use rust_gb::error::CoreError;
use rust_gb::ppu::{Ppu, PpuMode};

fn ppu_on() -> Ppu {
    let mut ppu = Ppu::new();
    ppu.write_byte(0xFF40, 0x80).unwrap();
    ppu
}

#[test]
fn new_ppu_is_zeroed() {
    let ppu = Ppu::new();
    assert!(ppu.is_valid());
    assert_eq!(ppu.vram.len(), 0x2000);
    assert_eq!(ppu.oam.len(), 0xA0);
    assert_eq!(ppu.display_buffer.len(), 160 * 144);
    assert!(ppu.display_buffer.iter().all(|&b| b == 0));
    assert_eq!(ppu.ly, 0);
    assert_eq!(ppu.ppu_mode, PpuMode::Mode2);
    assert_eq!(ppu.read_byte(0xFF40), Ok(0x00));
    assert_eq!(ppu.read_byte(0xFF41), Ok(0x82));
    assert!(!ppu.lcd_on());
}

#[test]
fn booted_ppu_has_the_register_snapshot() {
    let ppu = Ppu::boot();
    assert!(ppu.is_valid());
    assert_eq!(ppu.read_byte(0xFF40), Ok(0x91));
    assert_eq!(ppu.read_byte(0xFF41), Ok(0x85));
    assert_eq!(ppu.read_byte(0xFF47), Ok(0xFC));
    assert_eq!(ppu.read_byte(0xFF44), Ok(0x00));
    assert!(ppu.lcd_on());
}

#[test]
fn mode_numbers() {
    assert_eq!(PpuMode::Mode0.bits(), 0);
    assert_eq!(PpuMode::Mode1.bits(), 1);
    assert_eq!(PpuMode::Mode2.bits(), 2);
    assert_eq!(PpuMode::Mode3.bits(), 3);
}

#[test]
fn lcd_off_freezes_the_unit() {
    let mut ppu = Ppu::new();
    ppu.vblank = true;
    ppu.cycle(1000);
    assert_eq!(ppu.ly, 0);
    assert_eq!(ppu.dots, 0);
    assert!(!ppu.vblank);
    ppu.write_byte(0x8000, 0x12).unwrap();
    assert_eq!(ppu.read_byte(0x8000), Ok(0x12));
    ppu.write_byte(0xFE00, 0x34).unwrap();
    assert_eq!(ppu.read_byte(0xFE00), Ok(0x34));
}

#[test]
fn modes_follow_the_dots_of_a_line() {
    let mut ppu = ppu_on();
    ppu.cycle(19);
    assert_eq!(ppu.dots, 76);
    assert_eq!(ppu.ppu_mode, PpuMode::Mode2);
    assert_eq!(ppu.read_byte(0xFF41).unwrap() & 3, 2);
    ppu.cycle(1);
    assert_eq!(ppu.dots, 80);
    assert_eq!(ppu.ppu_mode, PpuMode::Mode3);
    assert_eq!(ppu.read_byte(0xFF41).unwrap() & 3, 3);
    ppu.cycle(42);
    assert_eq!(ppu.dots, 248);
    assert_eq!(ppu.ppu_mode, PpuMode::Mode3);
    ppu.cycle(1);
    assert_eq!(ppu.dots, 252);
    assert_eq!(ppu.ppu_mode, PpuMode::Mode0);
    assert_eq!(ppu.read_byte(0xFF41).unwrap() & 3, 0);
    ppu.cycle(50);
    assert_eq!(ppu.dots, 452);
    assert_eq!(ppu.ly, 0);
    ppu.cycle(1);
    assert_eq!(ppu.dots, 0);
    assert_eq!(ppu.ly, 1);
    assert_eq!(ppu.ppu_mode, PpuMode::Mode2);
}

#[test]
fn a_line_lasts_456_dots_and_a_frame_70224() {
    let mut ppu = ppu_on();
    for line in 0..154u32 {
        assert_eq!(ppu.ly as u32, line);
        ppu.cycle(113);
        assert_eq!(ppu.ly as u32, line);
        ppu.cycle(1);
    }
    assert_eq!(ppu.ly, 0);
    assert_eq!(ppu.dots, 0);
    let mut ppu = ppu_on();
    ppu.cycle(5);
    ppu.cycle(17556);
    assert_eq!(ppu.ly, 0);
    assert_eq!(ppu.dots, 20);
    ppu.cycle(17555);
    assert_eq!(ppu.ly, 0);
    assert_eq!(ppu.dots, 16);
    ppu.cycle(110);
    assert_eq!(ppu.ly, 1);
    assert_eq!(ppu.dots, 0);
}

#[test]
fn vertical_blank_begins_at_line_144() {
    let mut ppu = ppu_on();
    ppu.cycle(143 * 114 + 113);
    assert_eq!(ppu.ly, 143);
    assert!(!ppu.vblank);
    ppu.cycle(1);
    assert_eq!(ppu.ly, 144);
    assert!(ppu.vblank);
    assert_eq!(ppu.ppu_mode, PpuMode::Mode1);
    assert_eq!(ppu.read_byte(0xFF41).unwrap() & 3, 1);
    ppu.cycle(1);
    assert!(!ppu.vblank);
    assert_eq!(ppu.ppu_mode, PpuMode::Mode1);
    ppu.cycle(10 * 114 - 2);
    assert_eq!(ppu.ly, 153);
    assert_eq!(ppu.ppu_mode, PpuMode::Mode1);
    ppu.cycle(1);
    assert_eq!(ppu.ly, 0);
    assert_eq!(ppu.ppu_mode, PpuMode::Mode2);
    assert!(!ppu.vblank);
}

#[test]
fn vram_lockout() {
    let mut ppu = ppu_on();
    ppu.cycle(20);
    assert_eq!(ppu.ppu_mode, PpuMode::Mode3);
    assert_eq!(ppu.write_byte(0x8000, 0x5A), Ok(()));
    assert_eq!(ppu.vram[0], 0x00);
    assert_eq!(ppu.read_byte(0x8000), Ok(0xFF));
    ppu.cycle(43);
    assert_eq!(ppu.ppu_mode, PpuMode::Mode0);
    assert_eq!(ppu.read_byte(0x8000), Ok(0x00));
    assert_eq!(ppu.write_byte(0x8000, 0x5A), Ok(()));
    assert_eq!(ppu.vram[0], 0x5A);
    assert_eq!(ppu.read_byte(0x8000), Ok(0x5A));
}

#[test]
fn oam_lockout_in_scan_and_drawing() {
    let mut ppu = ppu_on();
    assert_eq!(ppu.ppu_mode, PpuMode::Mode2);
    ppu.write_byte(0xFE10, 0x77).unwrap();
    assert_eq!(ppu.oam[0x10], 0x00);
    assert_eq!(ppu.read_byte(0xFE10), Ok(0xFF));
    ppu.cycle(20);
    ppu.write_byte(0xFE10, 0x77).unwrap();
    assert_eq!(ppu.oam[0x10], 0x00);
    assert_eq!(ppu.read_byte(0xFE10), Ok(0xFF));
    ppu.cycle(43);
    ppu.write_byte(0xFE10, 0x77).unwrap();
    assert_eq!(ppu.read_byte(0xFE10), Ok(0x77));
    assert_eq!(ppu.write_byte(0xFE9F, 0x01), Ok(()));
    assert_eq!(ppu.oam[0x9F], 0x01);
}

#[test]
fn unused_region_reads_zero_or_ff_during_a_transfer() {
    let mut ppu = Ppu::new();
    assert_eq!(ppu.read_byte(0xFEA0), Ok(0x00));
    assert_eq!(ppu.read_byte(0xFEFF), Ok(0x00));
    assert_eq!(ppu.write_byte(0xFEA0, 0x12), Ok(()));
    assert_eq!(ppu.read_byte(0xFEA0), Ok(0x00));
    ppu.write_byte(0xFF46, 0xC0).unwrap();
    assert!(ppu.dma);
    assert_eq!(ppu.dma_src, 0xC000);
    assert_eq!(ppu.dma_count, 0);
    assert_eq!(ppu.read_byte(0xFEA0), Ok(0xFF));
    assert_eq!(ppu.read_byte(0xFF46), Ok(0xC0));
}

#[test]
fn registers_read_back() {
    let mut ppu = Ppu::new();
    for (addr, value) in [
        (0xFF40u16, 0x13u8),
        (0xFF42, 0x21),
        (0xFF43, 0x32),
        (0xFF45, 0x43),
        (0xFF47, 0xE4),
        (0xFF48, 0xD2),
        (0xFF49, 0x1B),
        (0xFF4A, 0x77),
        (0xFF4B, 0x07),
    ] {
        assert_eq!(ppu.write_byte(addr, value), Ok(()));
        assert_eq!(ppu.read_byte(addr), Ok(value));
    }
    assert_eq!((ppu.lcdc, ppu.scy, ppu.scx, ppu.lyc), (0x13, 0x21, 0x32, 0x43));
    assert_eq!((ppu.bgp, ppu.obp0, ppu.obp1, ppu.wy, ppu.wx), (0xE4, 0xD2, 0x1B, 0x77, 0x07));
}

#[test]
fn stat_keeps_mode_and_match_and_reads_bit_7_set() {
    let mut ppu = Ppu::new();
    ppu.write_byte(0xFF41, 0xFF).unwrap();
    assert_eq!(ppu.read_byte(0xFF41), Ok(0xFA));
    ppu.write_byte(0xFF41, 0x00).unwrap();
    assert_eq!(ppu.read_byte(0xFF41), Ok(0x82));
    let mut ppu = Ppu::boot();
    ppu.write_byte(0xFF41, 0x28).unwrap();
    assert_eq!(ppu.read_byte(0xFF41), Ok(0xAD));
}

#[test]
fn ly_is_read_only() {
    let mut ppu = ppu_on();
    ppu.cycle(114 * 3);
    assert_eq!(ppu.read_byte(0xFF44), Ok(3));
    assert_eq!(ppu.write_byte(0xFF44, 0x55), Ok(()));
    assert_eq!(ppu.read_byte(0xFF44), Ok(3));
}

#[test]
fn addresses_outside_the_unit_are_unmapped() {
    let mut ppu = Ppu::new();
    for addr in [0x0000u16, 0x7FFF, 0xA000, 0xC000, 0xFDFF, 0xFF00, 0xFF3F, 0xFF4C, 0xFFFF] {
        assert_eq!(ppu.read_byte(addr), Err(CoreError::Unmapped(addr)));
        assert_eq!(ppu.write_byte(addr, 1), Err(CoreError::Unmapped(addr)));
    }
    assert!(ppu.is_valid());
}

#[test]
fn lyc_match_bit_follows_line_changes() {
    let mut ppu = ppu_on();
    ppu.write_byte(0xFF45, 2).unwrap();
    ppu.cycle(114);
    assert_eq!(ppu.read_byte(0xFF41).unwrap() & 0x04, 0x00);
    ppu.cycle(114);
    assert_eq!(ppu.ly, 2);
    assert_eq!(ppu.read_byte(0xFF41).unwrap() & 0x04, 0x04);
    ppu.cycle(114);
    assert_eq!(ppu.read_byte(0xFF41).unwrap() & 0x04, 0x00);
}

#[test]
fn stat_line_rises_with_a_selected_source() {
    let mut ppu = ppu_on();
    ppu.write_byte(0xFF41, 0x08).unwrap();
    ppu.cycle(62);
    assert!(!ppu.int_line);
    ppu.cycle(1);
    assert_eq!(ppu.ppu_mode, PpuMode::Mode0);
    assert!(ppu.int_line);
    ppu.cycle(51);
    assert_eq!(ppu.ppu_mode, PpuMode::Mode2);
    assert!(!ppu.int_line);
    let mut ppu = ppu_on();
    ppu.write_byte(0xFF41, 0x40).unwrap();
    ppu.write_byte(0xFF45, 1).unwrap();
    ppu.cycle(113);
    assert!(!ppu.int_line);
    ppu.cycle(1);
    assert!(ppu.int_line);
    let mut ppu = ppu_on();
    ppu.write_byte(0xFF41, 0x10).unwrap();
    ppu.cycle(144 * 114 - 1);
    assert!(!ppu.int_line);
    ppu.cycle(1);
    assert!(ppu.int_line);
    let mut ppu = ppu_on();
    ppu.write_byte(0xFF41, 0x20).unwrap();
    ppu.cycle(1);
    assert!(ppu.int_line);
    ppu.cycle(19);
    assert!(!ppu.int_line);
}

#[test]
fn dma_transfer_stores_one_byte() {
    let mut ppu = Ppu::new();
    ppu.dma_transfer(0xAB, 0);
    ppu.dma_transfer(0xCD, 159);
    assert_eq!(ppu.oam[0], 0xAB);
    assert_eq!(ppu.oam[159], 0xCD);
    assert_eq!(ppu.oam[1], 0x00);
    let mut locked = ppu_on();
    locked.dma_transfer(0x11, 5);
    assert_eq!(locked.oam[5], 0x11);
}

#[test]
fn background_line_is_drawn_from_map_data_and_palette() {
    let mut ppu = Ppu::new();
    ppu.write_byte(0xFF47, 0xE4).unwrap();
    ppu.write_byte(0x9800, 0x01).unwrap();
    ppu.write_byte(0x9801, 0x02).unwrap();
    ppu.write_byte(0x8010, 0b1010_0101).unwrap();
    ppu.write_byte(0x8011, 0b1100_0011).unwrap();
    ppu.write_byte(0x8020, 0xFF).unwrap();
    ppu.write_byte(0x8021, 0x00).unwrap();
    ppu.write_byte(0xFF40, 0x90).unwrap();
    ppu.cycle(20);
    assert_eq!(ppu.ppu_mode, PpuMode::Mode3);
    assert_eq!(&ppu.display_buffer[0..8], &[3, 2, 1, 0, 0, 1, 2, 3]);
    assert_eq!(&ppu.display_buffer[8..16], &[1, 1, 1, 1, 1, 1, 1, 1]);
    assert!(ppu.display_buffer[16..160].iter().all(|&b| b == 0));
    assert!(ppu.display_buffer[160..].iter().all(|&b| b == 0));
    assert_eq!(ppu.bg_pixel(0), 3);
    assert_eq!(ppu.bg_pixel(9), 1);
}

#[test]
fn palette_maps_colour_numbers_to_shades() {
    let mut ppu = Ppu::new();
    ppu.write_byte(0xFF47, 0x1B).unwrap();
    ppu.write_byte(0x8000, 0b1010_0101).unwrap();
    ppu.write_byte(0x8001, 0b1100_0011).unwrap();
    ppu.write_byte(0xFF40, 0x90).unwrap();
    ppu.draw_bg();
    assert_eq!(&ppu.display_buffer[0..8], &[0, 1, 2, 3, 3, 2, 1, 0]);
}

#[test]
fn scroll_wraps_around_the_background() {
    let mut ppu = Ppu::new();
    ppu.write_byte(0xFF47, 0xE4).unwrap();
    ppu.write_byte(0x9800 + 31 * 32 + 31, 0x01).unwrap();
    ppu.write_byte(0x8010 + 14, 0x01).unwrap();
    ppu.write_byte(0x8010 + 15, 0x01).unwrap();
    ppu.write_byte(0xFF42, 0xFF).unwrap();
    ppu.write_byte(0xFF43, 0xFF).unwrap();
    ppu.write_byte(0xFF40, 0x90).unwrap();
    ppu.draw_bg();
    assert_eq!(ppu.display_buffer[0], 3);
    assert!(ppu.display_buffer[1..160].iter().all(|&b| b == 0));
    ppu.ly = 1;
    ppu.draw_bg();
    assert!(ppu.display_buffer[160..320].iter().all(|&b| b == 0));
}

#[test]
fn signed_tile_numbers_and_the_second_map() {
    let mut ppu = Ppu::new();
    ppu.write_byte(0xFF47, 0xE4).unwrap();
    ppu.write_byte(0x9C00, 0x80).unwrap();
    ppu.write_byte(0x9C01, 0x00).unwrap();
    ppu.write_byte(0x9C02, 0xFF).unwrap();
    ppu.write_byte(0x8800, 0x80).unwrap();
    ppu.write_byte(0x9001, 0x80).unwrap();
    ppu.write_byte(0x8FF0, 0x80).unwrap();
    ppu.write_byte(0x8FF1, 0x80).unwrap();
    ppu.write_byte(0xFF40, 0x88).unwrap();
    ppu.draw_bg();
    assert_eq!(ppu.display_buffer[0], 1);
    assert_eq!(ppu.display_buffer[8], 2);
    assert_eq!(ppu.display_buffer[16], 3);
    assert_eq!(ppu.display_buffer[24], 2);
}

#[test]
fn each_visible_line_is_drawn_into_its_row() {
    let mut ppu = Ppu::new();
    ppu.write_byte(0xFF47, 0xE4).unwrap();
    for row in 0..8u16 {
        ppu.write_byte(0x8000 + 2 * row, 0x80).unwrap();
        ppu.write_byte(0x8000 + 2 * row + 1, if row % 2 == 1 { 0x80 } else { 0x00 }).unwrap();
    }
    ppu.write_byte(0xFF40, 0x90).unwrap();
    ppu.cycle(114 * 4);
    assert_eq!(ppu.ly, 4);
    assert_eq!(ppu.display_buffer[0], 1);
    assert_eq!(ppu.display_buffer[160], 3);
    assert_eq!(ppu.display_buffer[320], 1);
    assert_eq!(ppu.display_buffer[480], 3);
    assert_eq!(ppu.display_buffer[640], 0);
    ppu.cycle(20);
    assert_eq!(ppu.display_buffer[640], 1);
    assert_eq!(ppu.display_buffer[8], 1);
}

#[test]
fn raw_video_memory_access() {
    let mut ppu = ppu_on();
    ppu.cycle(20);
    ppu.write_vram(0x9FFF, 0x42);
    assert_eq!(ppu.read_vram(0x9FFF), 0x42);
    assert_eq!(ppu.read_byte(0x9FFF), Ok(0xFF));
    ppu.write_vram(0x8000, 0x24);
    assert_eq!(ppu.vram[0], 0x24);
}
