use gameboy::ppu::mode::Mode;
use gameboy::ppu::sprite::Sprite;
use gameboy::ppu::PPU;

const LINE: u32 = 456;

/// A unit with the LCD on, at the start of scanline 0.
fn ppu_at_line_start(control: u8) -> PPU {
    let mut ppu = PPU::new();
    ppu.write_byte(0x40, control);
    ppu.write_byte(0x47, 0xe4);
    ppu.write_byte(0x48, 0xe4);
    ppu.write_byte(0x49, 0x1b);
    ppu.mode = Mode::OAMScan;
    ppu
}

/// Tile `tile` gets `low` and `high` as the two bytes of each of its rows.
fn ppu_fill_tile(ppu: &mut PPU, tile: usize, low: u8, high: u8) {
    for row in 0..8 {
        ppu.video_ram[tile * 16 + row * 2] = low;
        ppu.video_ram[tile * 16 + row * 2 + 1] = high;
    }
}

fn ppu_set_sprite(ppu: &mut PPU, entry: usize, y: u8, x: u8, tile: u8, flags: u8) {
    ppu.oam[entry * 4] = y;
    ppu.oam[entry * 4 + 1] = x;
    ppu.oam[entry * 4 + 2] = tile;
    ppu.oam[entry * 4 + 3] = flags;
}

fn ppu_line(ppu: &PPU, line: usize) -> Vec<u8> {
    ppu.read_frame_buffer()[line * 160..line * 160 + 160].to_vec()
}

#[test]
fn power_on_state() {
    let mut ppu = PPU::new();
    assert_eq!(ppu.mode, Mode::HorizontalBlank);
    assert_eq!(ppu.read_byte(0x40), 0x00);
    assert_eq!(ppu.read_byte(0x44), 0);
    assert!(!ppu.check_and_reset_updated());
    assert!(ppu.read_frame_buffer().iter().all(|shade| *shade == 0));
    assert_eq!(ppu.sprites().len(), 0);
}

#[test]
fn lcd_off_stands_still() {
    let mut ppu = PPU::new();
    ppu.cycle(100_000);
    assert_eq!(ppu.mode, Mode::HorizontalBlank);
    assert_eq!(ppu.read_byte(0x44), 0);
    assert_eq!(ppu.t_cycles, 0);
    assert_eq!(ppu.interrupt, 0);
}

#[test]
fn scanline_phases_last_80_172_204_ticks() {
    let mut ppu = ppu_at_line_start(0x91);
    ppu.cycle(79);
    assert_eq!(ppu.mode, Mode::OAMScan);
    ppu.cycle(1);
    assert_eq!(ppu.mode, Mode::Drawing);
    ppu.cycle(171);
    assert_eq!(ppu.mode, Mode::Drawing);
    ppu.cycle(1);
    assert_eq!(ppu.mode, Mode::HorizontalBlank);
    assert_eq!(ppu.read_byte(0x44), 0);
    ppu.cycle(203);
    assert_eq!(ppu.mode, Mode::HorizontalBlank);
    assert_eq!(ppu.read_byte(0x44), 0);
    ppu.cycle(1);
    assert_eq!(ppu.mode, Mode::OAMScan);
    assert_eq!(ppu.read_byte(0x44), 1);
}

#[test]
fn one_call_can_cross_many_phases() {
    let mut ppu = ppu_at_line_start(0x91);
    ppu.cycle(10 * LINE + 100);
    assert_eq!(ppu.read_byte(0x44), 10);
    assert_eq!(ppu.mode, Mode::Drawing);
    assert_eq!(ppu.t_cycles, 20);
}

#[test]
fn vertical_blank_runs_from_line_144_to_153() {
    let mut ppu = ppu_at_line_start(0x91);
    ppu.cycle(144 * LINE - 1);
    assert_eq!(ppu.read_byte(0x44), 143);
    assert_eq!(ppu.mode, Mode::HorizontalBlank);
    assert_eq!(ppu.interrupt & 0x01, 0);
    ppu.cycle(1);
    assert_eq!(ppu.read_byte(0x44), 144);
    assert_eq!(ppu.mode, Mode::VerticalBlank);
    assert_eq!(ppu.interrupt & 0x01, 0x01);
    ppu.interrupt = 0;
    ppu.cycle(9 * LINE);
    assert_eq!(ppu.read_byte(0x44), 153);
    assert_eq!(ppu.mode, Mode::VerticalBlank);
    ppu.cycle(LINE - 1);
    assert_eq!(ppu.read_byte(0x44), 153);
    ppu.cycle(1);
    assert_eq!(ppu.read_byte(0x44), 0);
    assert_eq!(ppu.mode, Mode::OAMScan);
    assert_eq!(ppu.interrupt & 0x01, 0);
}

#[test]
fn ly_rises_by_one_per_line_and_wraps_after_153() {
    let mut ppu = ppu_at_line_start(0x91);
    for line in 0..154u32 {
        assert_eq!(ppu.read_byte(0x44) as u32, line);
        ppu.cycle(LINE);
    }
    assert_eq!(ppu.read_byte(0x44), 0);
}

#[test]
fn a_frame_of_ticks_comes_round_from_anywhere() {
    for start in [0u32, 79, 80, 251, 252, 455, 456, 65_663, 65_664, 70_000] {
        let mut ppu = ppu_at_line_start(0x91);
        ppu.cycle(start);
        ppu.interrupt = 0;
        let (mode, line, ticks) = (ppu.mode, ppu.read_byte(0x44), ppu.t_cycles);
        let mut vblanks = 0;
        // in uneven steps that add up to the 70224 ticks of a frame
        let steps = [4u32, 8, 12, 16, 20, 24];
        let mut run = 0;
        let mut i = 0;
        while run < 70_224 {
            let step = steps[i % steps.len()].min(70_224 - run);
            ppu.cycle(step);
            if ppu.interrupt & 0x01 != 0 {
                vblanks += 1;
                ppu.interrupt = 0;
            }
            run += step;
            i += 1;
        }
        assert_eq!((ppu.mode, ppu.read_byte(0x44), ppu.t_cycles), (mode, line, ticks));
        assert_eq!(vblanks, 1);
    }
}

#[test]
fn status_register_reads_mode_and_compare_bit() {
    let mut ppu = ppu_at_line_start(0x91);
    ppu.write_byte(0x45, 0);
    assert_eq!(ppu.read_byte(0x41), 0x04 | 0x02);
    ppu.cycle(80);
    assert_eq!(ppu.read_byte(0x41), 0x04 | 0x03);
    ppu.cycle(172);
    assert_eq!(ppu.read_byte(0x41), 0x04);
    ppu.cycle(204);
    assert_eq!(ppu.read_byte(0x41), 0x02);
    ppu.cycle(144 * LINE);
    assert_eq!(ppu.read_byte(0x41), 0x01);
}

#[test]
fn status_register_takes_only_the_selects() {
    let mut ppu = ppu_at_line_start(0x91);
    ppu.write_byte(0x45, 5);
    ppu.write_byte(0x41, 0xff);
    assert_eq!(ppu.read_byte(0x41), 0x78 | 0x02);
    ppu.write_byte(0x41, 0x00);
    assert_eq!(ppu.read_byte(0x41), 0x02);
    ppu.write_byte(0x41, 0x47);
    assert_eq!(ppu.read_byte(0x41), 0x40 | 0x02);
}

#[test]
fn ly_is_read_only() {
    let mut ppu = ppu_at_line_start(0x91);
    ppu.cycle(3 * LINE);
    ppu.write_byte(0x44, 100);
    assert_eq!(ppu.read_byte(0x44), 3);
}

#[test]
fn plain_registers_read_back() {
    let mut ppu = PPU::new();
    for (address, value) in [(0x42u8, 0x11u8), (0x43, 0x22), (0x45, 0x33), (0x47, 0x44), (0x48, 0x55), (0x49, 0x66), (0x4a, 0x77), (0x4b, 0x88), (0x40, 0x13)] {
        ppu.write_byte(address, value);
        assert_eq!(ppu.read_byte(address), value);
    }
    assert_eq!(ppu.read_byte(0x46), 0);
}

#[test]
fn stat_interrupts_follow_their_selects() {
    // mode 0: at the end of drawing
    let mut ppu = ppu_at_line_start(0x91);
    ppu.write_byte(0x45, 200);
    ppu.write_byte(0x41, 0x08);
    ppu.cycle(251);
    assert_eq!(ppu.interrupt, 0);
    ppu.cycle(1);
    assert_eq!(ppu.interrupt, 0x02);
    // unselected: none
    let mut ppu = ppu_at_line_start(0x91);
    ppu.write_byte(0x45, 200);
    ppu.cycle(143 * LINE);
    assert_eq!(ppu.interrupt, 0);
    // mode 1: with the vertical blank
    let mut ppu = ppu_at_line_start(0x91);
    ppu.write_byte(0x45, 200);
    ppu.write_byte(0x41, 0x10);
    ppu.cycle(144 * LINE);
    assert_eq!(ppu.interrupt, 0x03);
    // mode 2: at the start of the next frame
    let mut ppu = ppu_at_line_start(0x91);
    ppu.write_byte(0x45, 200);
    ppu.write_byte(0x41, 0x20);
    ppu.cycle(154 * LINE - 1);
    assert_eq!(ppu.interrupt, 0x01);
    ppu.cycle(1);
    assert_eq!(ppu.interrupt, 0x03);
}

#[test]
fn lyc_interrupt_fires_on_the_compared_line() {
    let mut ppu = ppu_at_line_start(0x91);
    ppu.write_byte(0x41, 0x40);
    ppu.write_byte(0x45, 2);
    ppu.cycle(2 * LINE - 1);
    assert_eq!(ppu.interrupt, 0);
    ppu.cycle(1);
    assert_eq!(ppu.interrupt, 0x02);
    assert_eq!(ppu.read_byte(0x41) & 0x04, 0x04);
    // writing the current line to LYC fires at once
    ppu.interrupt = 0;
    ppu.write_byte(0x45, 7);
    assert_eq!(ppu.interrupt, 0);
    ppu.write_byte(0x45, 2);
    assert_eq!(ppu.interrupt, 0x02);
}

#[test]
fn switching_the_lcd_off_resets_the_unit() {
    let mut ppu = ppu_at_line_start(0x91);
    ppu_fill_tile(&mut ppu, 0, 0xff, 0xff);
    ppu.cycle(20 * LINE + 100);
    assert!(ppu.read_frame_buffer().iter().any(|shade| *shade != 0));
    ppu.check_and_reset_updated();
    ppu.write_byte(0x40, 0x11);
    assert_eq!(ppu.mode, Mode::HorizontalBlank);
    assert_eq!(ppu.read_byte(0x44), 0);
    assert!(ppu.read_frame_buffer().iter().all(|shade| *shade == 0));
    assert!(ppu.check_and_reset_updated());
    // writing it off again changes nothing more
    ppu.write_byte(0x40, 0x01);
    assert!(!ppu.check_and_reset_updated());
}

#[test]
fn video_ram_is_closed_while_drawing() {
    let mut ppu = ppu_at_line_start(0x91);
    ppu.write_video_ram(0x8010, 0x12);
    assert_eq!(ppu.read_video_ram(0x8010), 0x12);
    assert_eq!(ppu.video_ram[0x0010], 0x12);
    ppu.cycle(80);
    assert_eq!(ppu.mode, Mode::Drawing);
    assert_eq!(ppu.read_video_ram(0x8010), 0xff);
    ppu.write_video_ram(0x8010, 0x34);
    ppu.cycle(172);
    assert_eq!(ppu.read_video_ram(0x8010), 0x12);
    ppu.write_video_ram(0x9fff, 0x56);
    assert_eq!(ppu.read_video_ram(0x9fff), 0x56);
    assert_eq!(ppu.video_ram[0x1fff], 0x56);
}

#[test]
fn oam_is_closed_while_scanned_and_while_drawing() {
    let mut ppu = ppu_at_line_start(0x91);
    assert_eq!(ppu.mode, Mode::OAMScan);
    ppu.write_oam(0xfe00, 0x12);
    assert_eq!(ppu.read_oam(0xfe00), 0xff);
    ppu.cycle(80);
    ppu.write_oam(0xfe00, 0x12);
    assert_eq!(ppu.read_oam(0xfe00), 0xff);
    ppu.cycle(172);
    assert_eq!(ppu.mode, Mode::HorizontalBlank);
    assert_eq!(ppu.read_oam(0xfe00), 0x00);
    ppu.write_oam(0xfe00, 0x12);
    ppu.write_oam(0xfe9f, 0x34);
    assert_eq!(ppu.read_oam(0xfe00), 0x12);
    assert_eq!(ppu.read_oam(0xfe9f), 0x34);
    assert_eq!(ppu.oam[0x9f], 0x34);
    ppu.cycle(144 * LINE);
    assert_eq!(ppu.mode, Mode::VerticalBlank);
    assert_eq!(ppu.read_oam(0xfe00), 0x12);
}

#[test]
fn dma_writes_reach_oam_in_any_mode() {
    let mut ppu = ppu_at_line_start(0x91);
    ppu.cycle(80);
    assert_eq!(ppu.mode, Mode::Drawing);
    ppu.dma_write_oam(0x00, 0x12);
    ppu.dma_write_oam(0x9f, 0x34);
    assert_eq!(ppu.oam[0x00], 0x12);
    assert_eq!(ppu.oam[0x9f], 0x34);
}

#[test]
fn background_tile_pixels() {
    let mut ppu = ppu_at_line_start(0x91);
    ppu_fill_tile(&mut ppu, 1, 0xaa, 0xcc);
    ppu.video_ram[0x1800] = 1;
    ppu.cycle(252);
    assert!(ppu.check_and_reset_updated());
    let line = ppu_line(&ppu, 0);
    assert_eq!(line[0..8], [3, 2, 1, 0, 3, 2, 1, 0]);
    assert!(line[8..].iter().all(|shade| *shade == 0));
}

#[test]
fn background_palette_maps_colours_to_shades() {
    let mut ppu = ppu_at_line_start(0x91);
    ppu_fill_tile(&mut ppu, 1, 0xaa, 0xcc);
    ppu.video_ram[0x1800] = 1;
    ppu.write_byte(0x47, 0x1b);
    ppu.cycle(252);
    let line = ppu_line(&ppu, 0);
    assert_eq!(line[0..8], [0, 1, 2, 3, 0, 1, 2, 3]);
    // colour 0 of the other tiles shows as shade 3
    assert!(line[8..].iter().all(|shade| *shade == 3));
}

#[test]
fn background_scrolls() {
    let mut ppu = ppu_at_line_start(0x91);
    ppu_fill_tile(&mut ppu, 1, 0xaa, 0xcc);
    ppu.video_ram[0x1800 + 32 + 1] = 1;
    // the tile at map row 1, column 1 appears at the top left
    ppu.write_byte(0x42, 8);
    ppu.write_byte(0x43, 10);
    ppu.cycle(252);
    let line = ppu_line(&ppu, 0);
    assert_eq!(line[0..6], [1, 0, 3, 2, 1, 0]);
    assert!(line[6..].iter().all(|shade| *shade == 0));
}

#[test]
fn background_scroll_wraps_round_the_map() {
    let mut ppu = ppu_at_line_start(0x91);
    ppu_fill_tile(&mut ppu, 1, 0xff, 0x00);
    ppu.video_ram[0x1800] = 1;
    ppu.write_byte(0x43, 0xfc);
    ppu.write_byte(0x42, 0xff);
    // line 0 shows map line 255, line 1 map line 0; column 4 shows map column 0
    ppu.cycle(LINE + 252);
    assert!(ppu_line(&ppu, 0).iter().all(|shade| *shade == 0));
    let line = ppu_line(&ppu, 1);
    assert_eq!(line[0..13], [0, 0, 0, 0, 1, 1, 1, 1, 1, 1, 1, 1, 0]);
}

#[test]
fn second_tile_map_and_signed_tile_numbers() {
    // bit 3 selects the map at 1c00; without bit 4 tiles count from 1000, signed
    let mut ppu = ppu_at_line_start(0x89);
    ppu_fill_tile(&mut ppu, 256 + 2, 0xff, 0xff);
    ppu_fill_tile(&mut ppu, 128 + 5, 0xff, 0x00);
    ppu.video_ram[0x1c00] = 2;
    ppu.video_ram[0x1c01] = 128 + 5;
    ppu.video_ram[0x1800] = 2;
    ppu.cycle(252);
    let line = ppu_line(&ppu, 0);
    assert_eq!(line[0..8], [3; 8]);
    assert_eq!(line[8..16], [1; 8]);
    assert!(line[16..].iter().all(|shade| *shade == 0));
}

#[test]
fn background_off_shows_shade_zero() {
    let mut ppu = ppu_at_line_start(0x90);
    ppu_fill_tile(&mut ppu, 0, 0xff, 0xff);
    ppu.write_byte(0x47, 0xff);
    ppu.cycle(252);
    assert!(ppu_line(&ppu, 0).iter().all(|shade| *shade == 0));
}

#[test]
fn window_covers_the_background_from_its_column_on() {
    // window on (bit 5), window map at 1c00 (bit 6)
    let mut ppu = ppu_at_line_start(0xf1);
    ppu_fill_tile(&mut ppu, 1, 0xff, 0x00);
    ppu_fill_tile(&mut ppu, 2, 0x00, 0xff);
    for column in 0..32 {
        ppu.video_ram[0x1800 + column] = 1;
        ppu.video_ram[0x1c00 + column] = 2;
    }
    ppu.write_byte(0x4a, 0);
    ppu.write_byte(0x4b, 7 + 80);
    ppu.cycle(252);
    let line = ppu_line(&ppu, 0);
    assert!(line[..80].iter().all(|shade| *shade == 1));
    assert!(line[80..].iter().all(|shade| *shade == 2));
}

#[test]
fn window_starts_at_its_line() {
    let mut ppu = ppu_at_line_start(0xf1);
    ppu_fill_tile(&mut ppu, 2, 0xff, 0xff);
    for column in 0..32 {
        ppu.video_ram[0x1c00 + column] = 2;
    }
    ppu.write_byte(0x4a, 2);
    ppu.write_byte(0x4b, 7);
    ppu.cycle(3 * LINE);
    assert!(ppu_line(&ppu, 0).iter().all(|shade| *shade == 0));
    assert!(ppu_line(&ppu, 1).iter().all(|shade| *shade == 0));
    assert!(ppu_line(&ppu, 2).iter().all(|shade| *shade == 3));
}

#[test]
fn window_needs_its_enable_bit() {
    let mut ppu = ppu_at_line_start(0xd1);
    ppu_fill_tile(&mut ppu, 2, 0xff, 0xff);
    for column in 0..32 {
        ppu.video_ram[0x1c00 + column] = 2;
    }
    ppu.write_byte(0x4b, 7);
    ppu.cycle(252);
    assert!(ppu_line(&ppu, 0).iter().all(|shade| *shade == 0));
}

#[test]
fn eleven_sprites_on_a_line_leave_ten_in_the_buffer() {
    let mut ppu = ppu_at_line_start(0x93);
    for entry in 0..11 {
        ppu_set_sprite(&mut ppu, entry, 16, 8 + entry as u8, entry as u8, 0);
    }
    ppu.cycle(80);
    let sprites = ppu.sprites();
    assert_eq!(sprites.len(), 10);
    // the eleventh entry is the one left out
    assert!(sprites.iter().all(|sprite| sprite.tile_index != 10));
}

#[test]
fn sprites_off_the_line_are_not_selected() {
    let mut ppu = ppu_at_line_start(0x93);
    ppu_set_sprite(&mut ppu, 0, 16, 8, 1, 0);
    ppu_set_sprite(&mut ppu, 1, 17, 8, 2, 0);
    ppu_set_sprite(&mut ppu, 2, 9, 8, 3, 0);
    ppu_set_sprite(&mut ppu, 3, 8, 8, 4, 0);
    ppu_set_sprite(&mut ppu, 4, 0, 8, 5, 0);
    ppu.cycle(80);
    let tiles: Vec<u8> = ppu.sprites().iter().map(|sprite| sprite.tile_index).collect();
    // line 0 crosses rows 0..8 of the sprites at y 16 and y 9
    assert_eq!(tiles, vec![3, 1]);
}

#[test]
fn tall_sprites_reach_sixteen_lines() {
    let mut ppu = ppu_at_line_start(0x97);
    ppu_set_sprite(&mut ppu, 0, 8, 8, 1, 0);
    ppu_set_sprite(&mut ppu, 1, 1, 8, 2, 0);
    ppu_set_sprite(&mut ppu, 2, 0, 8, 3, 0);
    ppu.cycle(80);
    let tiles: Vec<u8> = ppu.sprites().iter().map(|sprite| sprite.tile_index).collect();
    assert_eq!(tiles, vec![2, 1]);
}

#[test]
fn sprite_buffer_is_in_drawing_order() {
    let mut ppu = ppu_at_line_start(0x93);
    ppu_set_sprite(&mut ppu, 0, 16, 20, 1, 0);
    ppu_set_sprite(&mut ppu, 1, 16, 50, 2, 0x80);
    ppu_set_sprite(&mut ppu, 2, 16, 20, 3, 0x35);
    ppu_set_sprite(&mut ppu, 3, 16, 9, 4, 0);
    ppu_set_sprite(&mut ppu, 4, 16, 50, 5, 0);
    ppu.cycle(80);
    let sprites = ppu.sprites();
    let order: Vec<(u8, u8)> = sprites.iter().map(|sprite| (sprite.x, sprite.tile_index)).collect();
    // larger x first; among equal x the later entry first
    assert_eq!(order, vec![(42, 5), (42, 2), (12, 3), (12, 1), (1, 4)]);
    assert_eq!(sprites[0].y, 0);
    assert_eq!(sprites[1].flags.bits(), 0x80);
    assert_eq!(sprites[2].flags.bits(), 0x30);
}

#[test]
fn each_scan_starts_from_an_empty_buffer() {
    let mut ppu = ppu_at_line_start(0x93);
    ppu_set_sprite(&mut ppu, 0, 16, 8, 1, 0);
    ppu_set_sprite(&mut ppu, 1, 17, 8, 2, 0);
    ppu.cycle(80);
    assert_eq!(ppu.sprites().len(), 1);
    ppu.cycle(LINE);
    let sprites: Vec<Sprite> = ppu.sprites();
    assert_eq!(sprites.len(), 2);
    ppu.cycle(8 * LINE);
    assert_eq!(ppu.sprites().len(), 0);
}

#[test]
fn sprite_pixels_cover_the_background() {
    let mut ppu = ppu_at_line_start(0x93);
    ppu_fill_tile(&mut ppu, 1, 0xaa, 0xcc);
    ppu_fill_tile(&mut ppu, 2, 0xff, 0x00);
    ppu.video_ram[0x1800] = 1;
    ppu_set_sprite(&mut ppu, 0, 16, 8, 2, 0);
    ppu.cycle(252);
    let line = ppu_line(&ppu, 0);
    assert_eq!(line[0..8], [1; 8]);
    assert!(line[8..].iter().all(|shade| *shade == 0));
}

#[test]
fn sprite_colour_zero_is_transparent() {
    let mut ppu = ppu_at_line_start(0x93);
    ppu_fill_tile(&mut ppu, 1, 0xaa, 0xcc);
    ppu_fill_tile(&mut ppu, 2, 0xf0, 0x00);
    ppu.video_ram[0x1800] = 1;
    ppu_set_sprite(&mut ppu, 0, 16, 8, 2, 0);
    ppu.cycle(252);
    assert_eq!(ppu_line(&ppu, 0)[0..8], [1, 1, 1, 1, 3, 2, 1, 0]);
}

#[test]
fn sprite_behind_background_shows_only_over_colour_zero() {
    let mut ppu = ppu_at_line_start(0x93);
    ppu_fill_tile(&mut ppu, 1, 0xaa, 0xcc);
    ppu_fill_tile(&mut ppu, 2, 0xff, 0x00);
    ppu.video_ram[0x1800] = 1;
    ppu_set_sprite(&mut ppu, 0, 16, 8, 2, 0x80);
    ppu.cycle(252);
    assert_eq!(ppu_line(&ppu, 0)[0..8], [3, 2, 1, 1, 3, 2, 1, 1]);
}

#[test]
fn sprite_palettes() {
    let mut ppu = ppu_at_line_start(0x93);
    ppu_fill_tile(&mut ppu, 2, 0xff, 0x00);
    ppu_set_sprite(&mut ppu, 0, 16, 8, 2, 0x00);
    ppu_set_sprite(&mut ppu, 1, 16, 24, 2, 0x10);
    ppu.cycle(252);
    let line = ppu_line(&ppu, 0);
    // colour 1 is shade 1 in the first palette (e4) and shade 2 in the second (1b)
    assert_eq!(line[0..8], [1; 8]);
    assert_eq!(line[16..24], [2; 8]);
}

#[test]
fn sprite_flips() {
    let mut ppu = ppu_at_line_start(0x93);
    // row 0 of tile 2: colours 3 2 1 0 0 0 0 0; row 7: colour 1 throughout
    ppu.video_ram[2 * 16] = 0xa0;
    ppu.video_ram[2 * 16 + 1] = 0xc0;
    ppu.video_ram[2 * 16 + 14] = 0xff;
    ppu_set_sprite(&mut ppu, 0, 16, 8, 2, 0x00);
    ppu_set_sprite(&mut ppu, 1, 16, 24, 2, 0x20);
    ppu_set_sprite(&mut ppu, 2, 16, 40, 2, 0x40);
    ppu.cycle(252);
    let line = ppu_line(&ppu, 0);
    assert_eq!(line[0..8], [3, 2, 1, 0, 0, 0, 0, 0]);
    assert_eq!(line[16..24], [0, 0, 0, 0, 0, 1, 2, 3]);
    assert_eq!(line[32..40], [1; 8]);
}

#[test]
fn of_overlapping_sprites_the_first_in_drawing_order_shows() {
    let mut ppu = ppu_at_line_start(0x93);
    ppu_fill_tile(&mut ppu, 2, 0xff, 0x00);
    ppu_fill_tile(&mut ppu, 3, 0x00, 0xff);
    ppu_set_sprite(&mut ppu, 0, 16, 8, 2, 0);
    ppu_set_sprite(&mut ppu, 1, 16, 12, 3, 0);
    ppu.cycle(252);
    let line = ppu_line(&ppu, 0);
    assert_eq!(line[0..12], [1, 1, 1, 1, 2, 2, 2, 2, 2, 2, 2, 2]);
}

#[test]
fn sprite_at_the_left_edge_is_clipped() {
    let mut ppu = ppu_at_line_start(0x93);
    ppu.video_ram[2 * 16] = 0xa0;
    ppu.video_ram[2 * 16 + 1] = 0xcf;
    ppu_set_sprite(&mut ppu, 0, 16, 5, 2, 0);
    ppu_set_sprite(&mut ppu, 1, 16, 164, 2, 0);
    ppu.cycle(252);
    let line = ppu_line(&ppu, 0);
    // columns 3..8 of the first sprite and columns 0..4 of the second are on screen
    assert_eq!(line[0..6], [0, 2, 2, 2, 2, 0]);
    assert_eq!(line[156..160], [3, 2, 1, 0]);
}

#[test]
fn sprites_need_their_enable_bit() {
    let mut ppu = ppu_at_line_start(0x91);
    ppu_fill_tile(&mut ppu, 2, 0xff, 0xff);
    ppu_set_sprite(&mut ppu, 0, 16, 8, 2, 0);
    ppu.cycle(252);
    assert!(ppu_line(&ppu, 0).iter().all(|shade| *shade == 0));
}

#[test]
fn drawing_marks_the_frame_updated_and_fills_line_by_line() {
    let mut ppu = ppu_at_line_start(0x91);
    ppu_fill_tile(&mut ppu, 0, 0xff, 0xff);
    ppu.cycle(251);
    assert!(!ppu.check_and_reset_updated());
    ppu.cycle(1);
    assert!(ppu.check_and_reset_updated());
    assert!(!ppu.check_and_reset_updated());
    assert!(ppu_line(&ppu, 0).iter().all(|shade| *shade == 3));
    assert!(ppu_line(&ppu, 1).iter().all(|shade| *shade == 0));
    ppu.cycle(143 * LINE);
    assert!(ppu.read_frame_buffer().iter().all(|shade| *shade == 3));
}
