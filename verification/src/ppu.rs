//! The pixel-processing unit: video RAM, object attribute memory, the
//! scanline state machine and the composition of each line's pixels.

pub mod control;
pub mod mode;
pub mod priority;
pub mod sprite;
pub mod status;
pub mod timing;

use vstd::prelude::*;
use arrayvec::ArrayVec;
use crate::bits::lemma_byte_bits;
use crate::registers::wrap8;
use crate::ppu::control::Control;
use crate::ppu::mode::Mode;
use crate::ppu::priority::drawing_order;
use crate::ppu::priority::lemma_drawing_order_total;
use crate::ppu::priority::sorted_keys;
use crate::ppu::priority::SpriteKey;
use crate::ppu::sprite::buffer_clear;
use crate::ppu::sprite::buffer_get;
use crate::ppu::sprite::buffer_items;
use crate::ppu::sprite::buffer_len;
use crate::ppu::sprite::buffer_new;
use crate::ppu::sprite::buffer_push;
use crate::ppu::sprite::Sprite;
use crate::ppu::sprite::SpriteFlags;
use crate::ppu::status::Status;

verus! {

pub const SCREEN_WIDTH: usize = 160;

pub const SCREEN_HEIGHT: usize = 144;

pub const VIDEO_RAM_SIZE: usize = 0x2000;

pub const OAM_SIZE: usize = 160;

/// `SCREEN_WIDTH` times `SCREEN_HEIGHT`.
pub const FRAME_SIZE: usize = 23040;

pub const SCANLINES: u8 = 154;

/// Master ticks of one frame: 154 scanlines of 456 ticks.
pub const FRAME_TICKS: u32 = 70224;

/// Bit of the vertical-blank interrupt in the interrupt registers.
pub const VBLANK_INTERRUPT: u8 = 0x01;

/// Bit of the LCD status interrupt in the interrupt registers.
pub const STAT_INTERRUPT: u8 = 0x02;

/// One pixel of a layer before the palette is applied.
#[derive(Clone, Copy, Debug, PartialEq, Eq, Structural)]
pub struct Pixel {
    /// Colour index 0..3 within the palette.
    pub color: u8,
    pub palette: u8,
    /// For a background or window pixel: that it is opaque. For a sprite
    /// pixel: that the sprite hides behind opaque background.
    pub background_priority: bool,
}

pub struct PPU {
    pub video_ram: [u8; VIDEO_RAM_SIZE],
    pub frame_buffer: [u8; FRAME_SIZE],
    pub control: Control,
    pub status: Status,
    pub mode: Mode,
    pub vertical_scroll: u8,
    pub horizontal_scroll: u8,
    pub scanline: u8,
    pub scanline_compare: u8,
    pub bg_palette: u8,
    pub obj_palette_0: u8,
    pub obj_palette_1: u8,
    pub window_y_position: u8,
    pub window_x_position: u8,
    pub oam: [u8; OAM_SIZE],
    pub updated: bool,
    pub t_cycles: u32,
    pub sprite_buffer: ArrayVec<Sprite, 10>,
    pub interrupt: u8,
}

/// The state of the unit as mathematics.
#[verifier::ext_equal]
pub struct PpuModel {
    pub video_ram: Seq<u8>,
    pub frame_buffer: Seq<u8>,
    pub oam: Seq<u8>,
    /// The sprites of the current scanline, in drawing order.
    pub sprites: Seq<Sprite>,
    pub control: Control,
    pub status: Status,
    pub mode: Mode,
    pub scy: u8,
    pub scx: u8,
    pub ly: u8,
    pub lyc: u8,
    pub bgp: u8,
    pub obp0: u8,
    pub obp1: u8,
    pub wy: u8,
    pub wx: u8,
    pub updated: bool,
    /// Master ticks spent in the current phase.
    pub t_cycles: nat,
    /// Interrupt bits raised and not yet collected.
    pub interrupt: u8,
}

impl View for PPU {
    type V = PpuModel;

    open spec fn view(&self) -> PpuModel {
        PpuModel {
            video_ram: self.video_ram@,
            frame_buffer: self.frame_buffer@,
            oam: self.oam@,
            sprites: buffer_items(self.sprite_buffer),
            control: self.control,
            status: self.status,
            mode: self.mode,
            scy: self.vertical_scroll,
            scx: self.horizontal_scroll,
            ly: self.scanline,
            lyc: self.scanline_compare,
            bgp: self.bg_palette,
            obp0: self.obj_palette_0,
            obp1: self.obj_palette_1,
            wy: self.window_y_position,
            wx: self.window_x_position,
            updated: self.updated,
            t_cycles: self.t_cycles as nat,
            interrupt: self.interrupt,
        }
    }
}

/// The sprite that entry `n` of object attribute memory describes.
pub open spec fn oam_entry(oam: Seq<u8>, n: int) -> Sprite {
    Sprite {
        y: wrap8(oam[4 * n] - 16),
        x: wrap8(oam[4 * n + 1] - 8),
        tile_index: oam[4 * n + 2],
        flags: SpriteFlags { bits: (oam[4 * n + 3] - oam[4 * n + 3] % 16) as u8 },
    }
}

/// Whether scanline `ly` crosses a sprite of `height` rows.
pub open spec fn on_line(sprite: Sprite, ly: u8, height: u8) -> bool {
    wrap8(ly - sprite.y) < height
}

/// The sprites among the first `n` entries that scanline `ly` crosses, in
/// the order of their entries, ten at most.
pub open spec fn selected(oam: Seq<u8>, ly: u8, height: u8, n: nat) -> Seq<Sprite>
    decreases n,
{
    if n == 0 {
        Seq::empty()
    } else {
        let before = selected(oam, ly, height, (n - 1) as nat);
        let sprite = oam_entry(oam, n - 1);
        if before.len() < 10 && on_line(sprite, ly, height) {
            before.push(sprite)
        } else {
            before
        }
    }
}

/// The sort keys of the selected sprites.
pub open spec fn keys_of(sprites: Seq<Sprite>) -> Seq<SpriteKey> {
    Seq::new(sprites.len(), |i: int| (sprites[i].x, i as u8))
}

/// Selected sprites rearranged into drawing order.
pub open spec fn in_drawing_order(sprites: Seq<Sprite>) -> Seq<Sprite> {
    keys_of(sprites).sort_by(drawing_order()).map_values(|k: SpriteKey| sprites[k.1 as int])
}

/// No more than ten sprites are selected, and no more than there are
/// entries.
pub proof fn lemma_selected_len(oam: Seq<u8>, ly: u8, height: u8, n: nat)
    ensures
        selected(oam, ly, height, n).len() <= 10,
        selected(oam, ly, height, n).len() <= n,
    decreases n,
{
    if n > 0 {
        lemma_selected_len(oam, ly, height, (n - 1) as nat);
    }
}

/// The colour index that two bytes of tile data hold for column `x % 8`:
/// the leftmost pixel is the most significant bit, `low` gives bit 0 of the
/// index and `high` bit 1.
pub open spec fn color_bits(low: u8, high: u8, x: u8) -> u8 {
    let bit = (7 - x % 8) as u8;
    (((high >> bit) & 1) << 1) | ((low >> bit) & 1)
}

/// The shade that `palette` gives to colour index `color`.
pub open spec fn shade(color: u8, palette: u8) -> u8 {
    (palette >> (((color & 3) * 2) as u8)) & 3
}

impl PpuModel {
    /// The memories have their sizes, the sprite buffer holds ten sprites at
    /// most, `LY` is at most 153, the vertical blank is the mode of lines 144
    /// to 153 and of no other, and the frame buffer holds shades 0 to 3.
    pub open spec fn wf(self) -> bool {
        &&& self.video_ram.len() == VIDEO_RAM_SIZE
        &&& self.oam.len() == OAM_SIZE
        &&& self.frame_buffer.len() == FRAME_SIZE
        &&& self.sprites.len() <= 10
        &&& self.ly <= 153
        &&& (self.mode == Mode::VerticalBlank) == (self.ly >= 144)
        &&& forall|i: int| 0 <= i < FRAME_SIZE ==> #[trigger] self.frame_buffer[i] <= 3
    }

    /// The status register as read: the selects, the compare bit, the mode.
    pub open spec fn stat(self) -> u8 {
        self.status.bits | (if self.ly == self.lyc { 4u8 } else { 0u8 }) | self.mode.code()
    }

    /// Raises the status interrupt where `LY == LYC` is selected and holds.
    pub open spec fn check_scanline(self) -> PpuModel {
        if self.status.lyc_select() && self.ly == self.lyc {
            PpuModel { interrupt: self.interrupt | STAT_INTERRUPT, ..self }
        } else {
            self
        }
    }

    /// The frame buffer with every pixel at shade 0.
    pub open spec fn cleared(self) -> PpuModel {
        PpuModel { frame_buffer: Seq::new(FRAME_SIZE as nat, |i: int| 0u8), updated: true, ..self }
    }

    /// A write to the control register. Switching the LCD off resets the
    /// unit to the start of a frame and blanks the picture.
    pub open spec fn set_control(self, value: u8) -> PpuModel {
        let next = PpuModel { control: Control { bits: value }, ..self };
        if self.control.lcd_enable() && !next.control.lcd_enable() {
            PpuModel { mode: Mode::HorizontalBlank, ly: 0, ..next }.cleared()
        } else {
            next
        }
    }

    /// A read of the register at `FF00 + address`, `address` in `40..=4B`.
    pub open spec fn read_register(self, address: u8) -> u8 {
        if address == 0x40 {
            self.control.bits
        } else if address == 0x41 {
            self.stat()
        } else if address == 0x42 {
            self.scy
        } else if address == 0x43 {
            self.scx
        } else if address == 0x44 {
            self.ly
        } else if address == 0x45 {
            self.lyc
        } else if address == 0x47 {
            self.bgp
        } else if address == 0x48 {
            self.obp0
        } else if address == 0x49 {
            self.obp1
        } else if address == 0x4a {
            self.wy
        } else if address == 0x4b {
            self.wx
        } else {
            0
        }
    }

    /// A write to the register at `FF00 + address`. `LY` is read-only, and
    /// of the status register only the four selects can be written.
    pub open spec fn write_register(self, address: u8, value: u8) -> PpuModel {
        if address == 0x40 {
            self.set_control(value)
        } else if address == 0x41 {
            PpuModel { status: Status { bits: (value % 128 - value % 8) as u8 }, ..self }
        } else if address == 0x42 {
            PpuModel { scy: value, ..self }
        } else if address == 0x43 {
            PpuModel { scx: value, ..self }
        } else if address == 0x45 {
            PpuModel { lyc: value, ..self }.check_scanline()
        } else if address == 0x47 {
            PpuModel { bgp: value, ..self }
        } else if address == 0x48 {
            PpuModel { obp0: value, ..self }
        } else if address == 0x49 {
            PpuModel { obp1: value, ..self }
        } else if address == 0x4a {
            PpuModel { wy: value, ..self }
        } else if address == 0x4b {
            PpuModel { wx: value, ..self }
        } else {
            self
        }
    }

    /// Whether the CPU can reach video RAM: not while a line is drawn.
    pub open spec fn video_ram_open(self) -> bool {
        self.mode != Mode::Drawing
    }

    /// Whether the CPU can reach object attribute memory: not while it is
    /// scanned or a line is drawn.
    pub open spec fn oam_open(self) -> bool {
        self.mode != Mode::Drawing && self.mode != Mode::OAMScan
    }

    /// What the CPU reads from video RAM at `address`.
    pub open spec fn read_video_ram(self, address: u16) -> u8 {
        if self.video_ram_open() {
            self.video_ram[address as int % 0x2000]
        } else {
            0xff
        }
    }

    /// The unit after the CPU writes to video RAM at `address`.
    pub open spec fn write_video_ram(self, address: u16, value: u8) -> PpuModel {
        if self.video_ram_open() {
            PpuModel { video_ram: self.video_ram.update(address as int % 0x2000, value), ..self }
        } else {
            self
        }
    }

    /// What the CPU reads from object attribute memory at `address`.
    pub open spec fn read_oam(self, address: u16) -> u8 {
        if self.oam_open() {
            self.oam[address - 0xfe00]
        } else {
            0xff
        }
    }

    /// The unit after the CPU writes to object attribute memory at `address`.
    pub open spec fn write_oam(self, address: u16, value: u8) -> PpuModel {
        if self.oam_open() {
            PpuModel { oam: self.oam.update(address - 0xfe00, value), ..self }
        } else {
            self
        }
    }

    /// A write by the DMA engine, which no mode keeps out.
    pub open spec fn dma_write_oam(self, address: u16, value: u8) -> PpuModel {
        PpuModel { oam: self.oam.update(address as int, value), ..self }
    }

    /// The byte of video RAM at `index`, which wraps at the end of the RAM.
    pub open spec fn vram_at(self, index: int) -> u8 {
        self.video_ram[index % 0x2000]
    }

    /// The colour index that a tile map gives: `map` is the map's offset,
    /// `y` the line within the map, `col` the tile column and `x` the pixel
    /// column within the tile.
    #[verifier::opaque]
    pub open spec fn tile_color(self, map: int, y: u8, col: int, x: u8) -> u8 {
        let tile = self.vram_at(map + (y / 8) * 32 + col);
        let base = self.control.tile_data_base(tile);
        let line = (y % 8) * 2;
        color_bits(self.vram_at(base + line), self.vram_at(base + line + 1), x)
    }

    /// The background at screen column `x` of the current scanline.
    #[verifier::opaque]
    pub open spec fn background_pixel(self, x: int) -> Pixel {
        let y = wrap8(self.ly + self.scy);
        let sx = wrap8(x + self.scx);
        let color = self.tile_color(self.control.bg_map(), y, sx as int / 8, sx);
        Pixel { color, palette: self.bgp, background_priority: color != 0 }
    }

    /// Whether the window reaches the current scanline.
    pub open spec fn window_shown(self) -> bool {
        self.control.window_enable() && self.control.bg_window_enable() && self.wy <= self.ly
    }

    /// The leftmost screen column of the window.
    pub open spec fn window_start(self) -> int {
        wrap8(self.wx - 7) as int
    }

    /// The window at screen column `x` of the current scanline.
    #[verifier::opaque]
    pub open spec fn window_pixel(self, x: int) -> Pixel {
        let y = (self.ly - self.wy) as u8;
        let color = self.tile_color(self.control.window_map(), y, x / 8, x as u8);
        Pixel { color, palette: self.bgp, background_priority: color != 0 }
    }

    /// The window where it covers column `x`, else the background; nothing
    /// where both are switched off.
    #[verifier::opaque]
    pub open spec fn layer_pixel(self, x: int) -> Option<Pixel> {
        if self.window_shown() && self.window_start() <= x {
            Some(self.window_pixel(x))
        } else if self.control.bg_window_enable() {
            Some(self.background_pixel(x))
        } else {
            None
        }
    }

    /// The row of the sprite's tile data that the current scanline shows.
    pub open spec fn sprite_row(self, sprite: Sprite) -> u8 {
        let row = wrap8(self.ly - sprite.y);
        if sprite.flags.y_flip() {
            wrap8(self.control.height() - row - 1)
        } else {
            row
        }
    }

    /// The colour index of `sprite` at screen column `x`; 0, which is
    /// transparent, where the sprite does not reach.
    #[verifier::opaque]
    pub open spec fn sprite_color(self, sprite: Sprite, x: int) -> u8 {
        let column = wrap8(x - sprite.x);
        let line = (self.sprite_row(sprite) * 2) as u16;
        let base = (sprite.tile_index as u16) << 4;
        let low = self.vram_at((base | line) as int);
        let high = self.vram_at((base | ((line + 1) as u16)) as int);
        if column < 8 {
            color_bits(low, high, if sprite.flags.x_flip() { (7 - column) as u8 } else { column })
        } else {
            0
        }
    }

    /// The pixel of `sprite` at screen column `x`, with the palette and the
    /// priority that the sprite's attributes ask for.
    pub open spec fn pixel_of_sprite(self, sprite: Sprite, x: int) -> Pixel {
        Pixel {
            color: self.sprite_color(sprite, x),
            palette: if sprite.flags.palette() { self.obp1 } else { self.obp0 },
            background_priority: sprite.flags.obj_to_bg_priority(),
        }
    }

    /// The first sprite at or after position `from` of the drawing order
    /// that is opaque at column `x`.
    pub open spec fn sprite_pixel_from(self, x: int, from: int) -> Option<Pixel>
        decreases self.sprites.len() - from,
    {
        if from < 0 || from >= self.sprites.len() {
            None
        } else if self.sprite_color(self.sprites[from], x) != 0 {
            Some(self.pixel_of_sprite(self.sprites[from], x))
        } else {
            self.sprite_pixel_from(x, from + 1)
        }
    }

    /// The sprite layer at column `x`: the first opaque sprite pixel in
    /// drawing order wins.
    pub open spec fn sprite_pixel(self, x: int) -> Option<Pixel> {
        self.sprite_pixel_from(x, 0)
    }

    /// The shade shown at column `x` of the current scanline. A sprite pixel
    /// covers the layer below unless it hides behind an opaque pixel there.
    #[verifier::opaque]
    pub open spec fn pixel(self, x: int) -> u8 {
        let under = self.layer_pixel(x);
        let below: u8 = match under {
            Some(p) => shade(p.color, p.palette),
            None => 0,
        };
        let opaque = match under {
            Some(p) => p.background_priority,
            None => false,
        };
        if self.control.sprite_enable() {
            match self.sprite_pixel(x) {
                Some(p) => if p.background_priority && opaque {
                    below
                } else {
                    shade(p.color, p.palette)
                },
                None => below,
            }
        } else {
            below
        }
    }

    /// End of the scan: the sprites of the current scanline are chosen and
    /// put into drawing order.
    pub open spec fn oam_scan(self) -> PpuModel {
        PpuModel {
            sprites: in_drawing_order(selected(self.oam, self.ly, self.control.height(), 40)),
            mode: Mode::Drawing,
            ..self
        }
    }

    /// End of drawing: the current scanline enters the frame buffer.
    pub open spec fn draw(self) -> PpuModel {
        let start = SCREEN_WIDTH * self.ly;
        PpuModel {
            frame_buffer: Seq::new(
                FRAME_SIZE as nat,
                |i: int|
                    if start <= i < start + SCREEN_WIDTH {
                        self.pixel(i - start)
                    } else {
                        self.frame_buffer[i]
                    },
            ),
            updated: true,
            mode: Mode::HorizontalBlank,
            interrupt: if self.status.mode_0_int_select() {
                self.interrupt | STAT_INTERRUPT
            } else {
                self.interrupt
            },
            ..self
        }
    }

    /// End of the horizontal blank: the next scanline begins, with the
    /// vertical blank once 144 lines are drawn.
    pub open spec fn horizontal_blank(self) -> PpuModel {
        let next = PpuModel { ly: (self.ly + 1) as u8, ..self }.check_scanline();
        if next.ly >= 144 {
            PpuModel {
                mode: Mode::VerticalBlank,
                interrupt: if next.status.mode_1_int_select() {
                    next.interrupt | VBLANK_INTERRUPT | STAT_INTERRUPT
                } else {
                    next.interrupt | VBLANK_INTERRUPT
                },
                ..next
            }
        } else {
            PpuModel { mode: Mode::OAMScan, ..next }
        }
    }

    /// End of one line of the vertical blank: after line 153 a new frame
    /// begins at line 0.
    pub open spec fn vertical_blank(self) -> PpuModel {
        let ly = ((self.ly + 1) % 154) as u8;
        if ly == 0 {
            PpuModel {
                ly,
                mode: Mode::OAMScan,
                interrupt: if self.status.mode_2_int_select() {
                    self.interrupt | STAT_INTERRUPT
                } else {
                    self.interrupt
                },
                ..self
            }
        } else {
            PpuModel { ly, ..self }
        }
    }

    /// The transition that ends the current phase.
    pub open spec fn step(self) -> PpuModel {
        match self.mode {
            Mode::OAMScan => self.oam_scan(),
            Mode::Drawing => self.draw(),
            Mode::HorizontalBlank => self.horizontal_blank(),
            Mode::VerticalBlank => self.vertical_blank(),
        }
    }

    /// The unit after `ticks` master ticks counted from the start of the
    /// current phase: phases end one after another while the ticks last.
    pub open spec fn run(self, ticks: nat) -> PpuModel
        decreases ticks,
    {
        if ticks >= self.mode.duration() {
            self.step().run((ticks - self.mode.duration()) as nat)
        } else {
            PpuModel { t_cycles: ticks, ..self }
        }
    }

    /// The unit `t_cycles` master ticks later. With the LCD off it stands
    /// still.
    pub open spec fn cycle(self, t_cycles: u32) -> PpuModel {
        if self.control.lcd_enable() {
            PpuModel { t_cycles: 0, ..self }.run(self.t_cycles + t_cycles as nat)
        } else {
            self
        }
    }
}

/// The scan leaves at most ten sprites, as many as were selected, with
/// `x` falling from first to last: the sprite drawn last, on top, is the
/// leftmost.
pub proof fn lemma_scan_order(oam: Seq<u8>, ly: u8, height: u8)
    ensures
        ({
            let chosen = selected(oam, ly, height, 40);
            let ordered = in_drawing_order(chosen);
            &&& ordered.len() == chosen.len()
            &&& ordered.len() <= 10
            &&& forall|i: int, j: int| 0 <= i <= j < ordered.len() ==> ordered[i].x >= ordered[j].x
            &&& forall|i: int| 0 <= i < ordered.len() ==> chosen.contains(#[trigger] ordered[i])
        }),
{
    let chosen = selected(oam, ly, height, 40);
    let keys = keys_of(chosen);
    let sorted = keys.sort_by(drawing_order());
    let ordered = in_drawing_order(chosen);
    lemma_selected_len(oam, ly, height, 40);
    lemma_sorted_keys(keys);
    lemma_drawing_order_total();
    keys.lemma_sort_by_ensures(drawing_order());
    assert forall|i: int| 0 <= i < sorted.len() implies (#[trigger] sorted[i]).1 < chosen.len()
        && sorted[i].0 == chosen[sorted[i].1 as int].x by {
        let k = choose|k: int| 0 <= k < keys.len() && keys[k] == sorted[i];
        assert(keys[k] == (chosen[k].x, k as u8));
    }
    assert forall|i: int, j: int| 0 <= i <= j < ordered.len() implies ordered[i].x >= ordered[j].x by {
        assert(drawing_order()(sorted[i], sorted[j]));
    }
    assert forall|i: int| 0 <= i < ordered.len() implies chosen.contains(#[trigger] ordered[i]) by {
        assert(ordered[i] == chosen[sorted[i].1 as int]);
    }
}

/// What the CPU cannot reach reads as `FF` and takes no write: video RAM
/// while a line is drawn, object attribute memory while it is scanned or
/// a line is drawn.
pub proof fn lemma_closed_memory(m: PpuModel, address: u16, value: u8)
    ensures
        m.mode == Mode::Drawing ==> m.read_video_ram(address) == 0xff && m.write_video_ram(address, value)
            == m,
        m.mode == Mode::Drawing || m.mode == Mode::OAMScan ==> m.read_oam(address) == 0xff && m.write_oam(
            address,
            value,
        ) == m,
{
}

/// Every pixel is one of the four shades.
pub proof fn lemma_pixel_is_shade(m: PpuModel, x: int)
    ensures
        m.pixel(x) <= 3,
{
    reveal(PpuModel::pixel);
    lemma_byte_bits();
}

/// A step keeps a well-formed unit well-formed.
pub proof fn lemma_step_wf(m: PpuModel)
    requires
        m.wf(),
    ensures
        m.step().wf(),
{
    assert forall|x: int| #[trigger] m.pixel(x) <= 3 by {
        lemma_pixel_is_shade(m, x);
    }
    lemma_selected_len(m.oam, m.ly, m.control.height(), 40);
    let sel = selected(m.oam, m.ly, m.control.height(), 40);
    lemma_sorted_keys(keys_of(sel));
}

/// Running keeps a well-formed unit well-formed, and leaves it with fewer
/// ticks in its phase than the phase lasts.
pub proof fn lemma_run_wf(m: PpuModel, ticks: nat)
    requires
        m.wf(),
    ensures
        m.run(ticks).wf(),
        m.run(ticks).t_cycles < m.run(ticks).mode.duration(),
    decreases ticks,
{
    if ticks >= m.mode.duration() {
        lemma_step_wf(m);
        lemma_run_wf(m.step(), (ticks - m.mode.duration()) as nat);
    }
}

/// Sorting keys keeps their number, and every sorted key is one of them.
pub proof fn lemma_sorted_keys(keys: Seq<SpriteKey>)
    ensures
        keys.sort_by(drawing_order()).len() == keys.len(),
        forall|i: int|
            0 <= i < keys.len() ==> keys.contains(#[trigger] keys.sort_by(drawing_order())[i]),
{
    broadcast use vstd::seq_lib::group_to_multiset_ensures;

    lemma_drawing_order_total();
    keys.lemma_sort_by_ensures(drawing_order());
    let sorted = keys.sort_by(drawing_order());
    sorted.to_multiset_ensures();
    keys.to_multiset_ensures();
    assert forall|i: int| 0 <= i < keys.len() implies keys.contains(#[trigger] sorted[i]) by {
        assert(sorted.contains(sorted[i]));
        assert(sorted.to_multiset().count(sorted[i]) > 0);
    }
}

impl PPU {
    /// The unit at power-on: LCD off, all memory and every register zero.
    pub open spec fn new_model() -> PpuModel {
        PpuModel {
            video_ram: Seq::new(VIDEO_RAM_SIZE as nat, |i: int| 0u8),
            frame_buffer: Seq::new(FRAME_SIZE as nat, |i: int| 0u8),
            oam: Seq::new(OAM_SIZE as nat, |i: int| 0u8),
            sprites: Seq::empty(),
            control: Control { bits: 0 },
            status: Status { bits: 0 },
            mode: Mode::HorizontalBlank,
            scy: 0,
            scx: 0,
            ly: 0,
            lyc: 0,
            bgp: 0,
            obp0: 0,
            obp1: 0,
            wy: 0,
            wx: 0,
            updated: false,
            t_cycles: 0,
            interrupt: 0,
        }
    }

    /// The unit at power-on.
    pub fn new() -> (ppu: Self)
        ensures
            ppu@ == PPU::new_model(),
            ppu@.wf(),
    {
        let ppu = PPU {
            video_ram: [0; VIDEO_RAM_SIZE],
            frame_buffer: [0; FRAME_SIZE],
            control: Control::from_bits_truncate(0),
            status: Status::from_bits_truncate(0),
            mode: Mode::HorizontalBlank,
            vertical_scroll: 0,
            horizontal_scroll: 0,
            scanline: 0,
            scanline_compare: 0,
            bg_palette: 0,
            obj_palette_0: 0,
            obj_palette_1: 0,
            window_y_position: 0,
            window_x_position: 0,
            oam: [0; OAM_SIZE],
            updated: false,
            t_cycles: 0,
            sprite_buffer: buffer_new(),
            interrupt: 0,
        };
        assert(ppu@ =~= PPU::new_model());
        ppu
    }

    /// Reads the register at `FF00 + address`.
    pub fn read_byte(&self, address: u8) -> (value: u8)
        requires
            0x40 <= address <= 0x4b,
        ensures
            value == self@.read_register(address),
    {
        match address {
            0x40 => self.control.bits(),
            0x41 => self.read_status(),
            0x42 => self.vertical_scroll,
            0x43 => self.horizontal_scroll,
            0x44 => self.scanline,
            0x45 => self.scanline_compare,
            0x47 => self.bg_palette,
            0x48 => self.obj_palette_0,
            0x49 => self.obj_palette_1,
            0x4a => self.window_y_position,
            0x4b => self.window_x_position,
            _ => 0,
        }
    }

    /// Writes to the register at `FF00 + address`.
    pub fn write_byte(&mut self, address: u8, value: u8)
        requires
            0x40 <= address <= 0x4b,
            old(self)@.wf(),
        ensures
            final(self)@ == old(self)@.write_register(address, value),
            final(self)@.wf(),
    {
        match address {
            0x40 => self.set_control(value),
            0x41 => self.set_status(value),
            0x42 => self.vertical_scroll = value,
            0x43 => self.horizontal_scroll = value,
            0x45 => {
                self.scanline_compare = value;
                self.check_scanline_interrupt()
            },
            0x47 => self.bg_palette = value,
            0x48 => self.obj_palette_0 = value,
            0x49 => self.obj_palette_1 = value,
            0x4a => self.window_y_position = value,
            0x4b => self.window_x_position = value,
            _ => {},
        }
    }

    fn set_control(&mut self, value: u8)
        requires
            old(self)@.wf(),
        ensures
            final(self)@ == old(self)@.set_control(value),
            final(self)@.wf(),
    {
        let lcd_enable_initial_state = self.control.lcd_on();
        self.control = Control::from_bits_truncate(value);
        if !self.control.lcd_on() && lcd_enable_initial_state {
            self.mode = Mode::HorizontalBlank;
            self.scanline = 0;
            self.clear_display()
        }
    }

    fn clear_display(&mut self)
        ensures
            final(self)@ == old(self)@.cleared(),
    {
        self.frame_buffer = [0; FRAME_SIZE];
        self.updated = true;
        assert(self@.frame_buffer =~= old(self)@.cleared().frame_buffer);
    }

    fn read_status(&self) -> (value: u8)
        ensures
            value == self@.stat(),
    {
        let compare: u8 = if self.scanline == self.scanline_compare { 0x04 } else { 0 };
        self.status.bits() | compare | self.mode.bits()
    }

    fn set_status(&mut self, value: u8)
        ensures
            final(self)@ == (PpuModel { status: Status { bits: (value % 128 - value % 8) as u8 }, ..old(self)@ }),
    {
        self.status = Status::from_bits_truncate(value);
    }

    fn check_scanline_interrupt(&mut self)
        ensures
            final(self)@ == old(self)@.check_scanline(),
    {
        if self.status.selects_lyc() && self.scanline == self.scanline_compare {
            self.interrupt |= STAT_INTERRUPT;
        }
    }

    /// A read of video RAM by the CPU.
    pub fn read_video_ram(&self, address: u16) -> (value: u8)
        ensures
            value == self@.read_video_ram(address),
    {
        match self.mode {
            Mode::Drawing => 0xff,
            _ => self.video_ram[address as usize % VIDEO_RAM_SIZE],
        }
    }

    /// A write to video RAM by the CPU.
    pub fn write_video_ram(&mut self, address: u16, value: u8)
        ensures
            final(self)@ == old(self)@.write_video_ram(address, value),
    {
        match self.mode {
            Mode::Drawing => (),
            _ => {
                self.video_ram[address as usize % VIDEO_RAM_SIZE] = value;
            },
        }
    }

    /// A read of object attribute memory by the CPU.
    pub fn read_oam(&self, address: u16) -> (value: u8)
        requires
            0xfe00 <= address <= 0xfe9f,
        ensures
            value == self@.read_oam(address),
    {
        match self.mode {
            Mode::Drawing | Mode::OAMScan => 0xff,
            _ => self.oam[address as usize - 0xfe00],
        }
    }

    /// A write to object attribute memory by the CPU.
    pub fn write_oam(&mut self, address: u16, value: u8)
        requires
            0xfe00 <= address <= 0xfe9f,
        ensures
            final(self)@ == old(self)@.write_oam(address, value),
    {
        match self.mode {
            Mode::Drawing | Mode::OAMScan => (),
            _ => {
                self.oam[address as usize - 0xfe00] = value;
            },
        }
    }

    /// A write to object attribute memory by the DMA engine.
    pub fn dma_write_oam(&mut self, address: u16, sprite: u8)
        requires
            address < OAM_SIZE,
        ensures
            final(self)@ == old(self)@.dma_write_oam(address, sprite),
    {
        self.oam[address as usize] = sprite;
    }

    /// Whether a line was drawn or the picture blanked since the last call.
    pub fn check_and_reset_updated(&mut self) -> (result: bool)
        ensures
            result == old(self)@.updated,
            final(self)@ == (PpuModel { updated: false, ..old(self)@ }),
    {
        let result = self.updated;
        self.updated = false;
        result
    }

    /// The sprites of the current scanline, in drawing order.
    pub fn sprites(&self) -> (sprites: Vec<Sprite>)
        ensures
            sprites@ == self@.sprites,
    {
        let count = buffer_len(&self.sprite_buffer);
        let mut sprites: Vec<Sprite> = Vec::new();
        let mut i: usize = 0;
        while i < count
            invariant
                i <= count,
                count == self@.sprites.len(),
                sprites@ == self@.sprites.subrange(0, i as int),
            decreases count - i,
        {
            sprites.push(buffer_get(&self.sprite_buffer, i));
            assert(sprites@ =~= self@.sprites.subrange(0, i + 1));
            i += 1;
        }
        assert(self@.sprites.subrange(0, count as int) =~= self@.sprites);
        sprites
    }

    /// The picture: 160 by 144 shades, row by row.
    pub fn read_frame_buffer(&self) -> (buffer: &[u8; FRAME_SIZE])
        ensures
            buffer@ == self@.frame_buffer,
    {
        &self.frame_buffer
    }

    /// Advances the unit by `t_cycles` master ticks.
    pub fn cycle(&mut self, t_cycles: u32)
        requires
            old(self)@.wf(),
        ensures
            final(self)@ == old(self)@.cycle(t_cycles),
            final(self)@.wf(),
    {
        if !self.control.lcd_on() {
            return ;
        }
        let mut ticks: u64 = self.t_cycles as u64 + t_cycles as u64;
        self.t_cycles = 0;
        loop
            invariant
                self@.wf(),
                self@.run(ticks as nat) == old(self)@.cycle(t_cycles),
            ensures
                ticks < self@.mode.duration(),
            decreases ticks,
        {
            proof {
                lemma_step_wf(self@);
            }
            let needed = self.mode.ticks();
            if ticks < needed {
                break ;
            }
            match self.mode {
                Mode::OAMScan => self.oam_scan(),
                Mode::Drawing => self.draw(),
                Mode::HorizontalBlank => self.horizontal_blank(),
                Mode::VerticalBlank => self.vertical_blank(),
            }
            ticks = ticks - needed;
        }
        self.t_cycles = ticks as u32;
    }

    fn oam_scan(&mut self)
        requires
            old(self)@.mode == Mode::OAMScan,
        ensures
            final(self)@ == old(self)@.oam_scan(),
    {
        let height = self.control.sprite_height();
        let mut chosen: Vec<Sprite> = Vec::new();
        let mut keys: Vec<SpriteKey> = Vec::new();
        let mut n: usize = 0;
        while n < 40
            invariant
                n <= 40,
                *self == *old(self),
                height == self@.control.height(),
                chosen@ == selected(self@.oam, self@.ly, height, n as nat),
                keys@ == keys_of(chosen@),
                chosen@.len() <= 10,
            decreases 40 - n,
        {
            let sprite = self.oam_sprite(n);
            if chosen.len() < 10 && Self::crosses(sprite, self.scanline, height) {
                keys.push((sprite.x, chosen.len() as u8));
                chosen.push(sprite);
                assert(keys@ =~= keys_of(chosen@));
            }
            n += 1;
        }
        let ghost unsorted = keys@;
        let sorted = sorted_keys(keys);
        proof {
            lemma_sorted_keys(unsorted);
        }
        buffer_clear(&mut self.sprite_buffer);
        let mut i: usize = 0;
        while i < sorted.len()
            invariant
                i <= sorted.len(),
                sorted@ == unsorted.sort_by(drawing_order()),
                sorted@.len() == unsorted.len(),
                unsorted == keys_of(chosen@),
                chosen@.len() <= 10,
                forall|j: int| 0 <= j < sorted@.len() ==> unsorted.contains(#[trigger] sorted@[j]),
                self@ == (PpuModel { sprites: self@.sprites, ..old(self)@ }),
                self@.sprites == sorted@.subrange(0, i as int).map_values(|k: SpriteKey| chosen@[k.1 as int]),
            decreases sorted.len() - i,
        {
            let key = sorted[i];
            assert(unsorted.contains(key));
            let position = key.1 as usize;
            buffer_push(&mut self.sprite_buffer, chosen[position]);
            assert(self@.sprites =~= sorted@.subrange(0, i + 1).map_values(
                |k: SpriteKey| chosen@[k.1 as int],
            ));
            i += 1;
        }
        assert(sorted@.subrange(0, i as int) =~= sorted@);
        self.mode = Mode::Drawing;
    }

    /// The sprite that entry `n` of object attribute memory describes.
    fn oam_sprite(&self, n: usize) -> (sprite: Sprite)
        requires
            n < 40,
        ensures
            sprite == oam_entry(self@.oam, n as int),
    {
        let y = self.oam[4 * n].wrapping_sub(16);
        let x = self.oam[4 * n + 1].wrapping_sub(8);
        let tile_index = self.oam[4 * n + 2];
        let flags = SpriteFlags::from_bits_truncate(self.oam[4 * n + 3]);
        assert(y == wrap8(self.oam@[4 * n] - 16));
        assert(x == wrap8(self.oam@[4 * n + 1] - 8));
        Sprite { y, x, tile_index, flags }
    }

    /// Whether scanline `ly` crosses a sprite of `height` rows.
    fn crosses(sprite: Sprite, ly: u8, height: u8) -> (yes: bool)
        ensures
            yes == on_line(sprite, ly, height),
    {
        let row = ly.wrapping_sub(sprite.y);
        assert(row == wrap8(ly - sprite.y));
        row < height
    }

    /// The leftmost screen column of the window.
    fn window_column(&self) -> (column: u8)
        ensures
            column == self@.window_start(),
    {
        let column = self.window_x_position.wrapping_sub(7);
        assert(column == wrap8(self.window_x_position - 7));
        column
    }

    fn vram(&self, index: usize) -> (value: u8)
        ensures
            value == self@.vram_at(index as int),
    {
        self.video_ram[index % VIDEO_RAM_SIZE]
    }

    fn color_from_palette(&self, pixel: u8, palette: u8) -> (value: u8)
        ensures
            value == shade(pixel, palette),
            value <= 3,
    {
        proof {
            lemma_byte_bits();
        }
        let pixel_value = pixel & 0b11;
        let shift_amount = pixel_value * 2;
        (palette >> shift_amount) & 0b11
    }

    fn pixel_color_from_bits(&self, tile_data_low: u8, tile_data_high: u8, x: u8) -> (color: u8)
        ensures
            color == color_bits(tile_data_low, tile_data_high, x),
    {
        let x_bit = 7 - (x % 8);
        (((tile_data_high >> x_bit) & 1) << 1) | ((tile_data_low >> x_bit) & 1)
    }

    fn fetch_tile_pixel(&self, map: usize, y: u8, col: usize, x: u8) -> (pixel: Pixel)
        requires
            map <= 0x1c00,
            col < 32,
        ensures
            pixel.color == self@.tile_color(map as int, y, col as int, x),
            pixel.palette == self@.bgp,
            pixel.background_priority == (pixel.color != 0),
    {
        reveal(PpuModel::tile_color);
        let row = (y / 8) as usize;
        let tile_number = self.vram(map + row * 32 + col);
        let tile_data_base = self.control.tile_data_base_from_tile_number(tile_number);
        let line = ((y % 8) * 2) as usize;
        let tile_data_low = self.vram(tile_data_base + line);
        let tile_data_high = self.vram(tile_data_base + line + 1);
        let color = self.pixel_color_from_bits(tile_data_low, tile_data_high, x);
        Pixel { color, palette: self.bg_palette, background_priority: color != 0x00 }
    }

    fn fetch_background_pixel(&self, i: u8) -> (pixel: Pixel)
        ensures
            pixel == self@.background_pixel(i as int),
    {
        reveal(PpuModel::background_pixel);
        let y = self.scanline.wrapping_add(self.vertical_scroll);
        let x = i.wrapping_add(self.horizontal_scroll);
        assert(y == wrap8(self.scanline + self.vertical_scroll));
        assert(x == wrap8(i + self.horizontal_scroll));
        let pixel = self.fetch_tile_pixel(self.control.bg_map_mask(), y, (x / 8) as usize, x);
        assert(pixel.color == self@.tile_color(self@.control.bg_map(), y, x as int / 8, x));
        pixel
    }

    fn fetch_window_pixel(&self, x: u8) -> (pixel: Pixel)
        requires
            self@.wy <= self@.ly,
        ensures
            pixel == self@.window_pixel(x as int),
    {
        reveal(PpuModel::window_pixel);
        let y = self.scanline - self.window_y_position;
        self.fetch_tile_pixel(self.control.window_map_mask(), y, (x / 8) as usize, x)
    }

    fn fetch_layer_pixel(&self, x: u8) -> (pixel: Option<Pixel>)
        ensures
            pixel == self@.layer_pixel(x as int),
    {
        reveal(PpuModel::layer_pixel);
        let background = self.control.background_enabled();
        if self.control.window_enabled() && background && self.window_y_position <= self.scanline
            && self.window_column() <= x {
            Some(self.fetch_window_pixel(x))
        } else if background {
            Some(self.fetch_background_pixel(x))
        } else {
            None
        }
    }

    fn fetch_sprite_color(&self, sprite: Sprite, x: u8) -> (color: u8)
        ensures
            color == self@.sprite_color(sprite, x as int),
    {
        reveal(PpuModel::sprite_color);
        let row = self.scanline.wrapping_sub(sprite.y);
        assert(row == wrap8(self.scanline - sprite.y));
        let tile_row = if sprite.flags.flipped_vertically() {
            let height = self.control.sprite_height();
            let rows_below = height.wrapping_sub(row);
            assert(rows_below == wrap8(height - row));
            let flipped = rows_below.wrapping_sub(1);
            assert(flipped == wrap8(height - row - 1));
            flipped
        } else {
            row
        };
        assert(tile_row == self@.sprite_row(sprite));
        let tile_line: u16 = tile_row as u16 * 2;
        let base: u16 = (sprite.tile_index as u16) << 4;
        let tile_data_low = self.vram((base | tile_line) as usize);
        let tile_data_high = self.vram((base | (tile_line + 1)) as usize);
        let column = x.wrapping_sub(sprite.x);
        assert(column == wrap8(x - sprite.x));
        if column < 8 {
            let bit = if sprite.flags.flipped_horizontally() { 7 - column } else { column };
            self.pixel_color_from_bits(tile_data_low, tile_data_high, bit)
        } else {
            0
        }
    }

    fn fetch_sprite_pixel(&self, x: u8) -> (pixel: Option<Pixel>)
        ensures
            pixel == self@.sprite_pixel(x as int),
    {
        let count = buffer_len(&self.sprite_buffer);
        let mut i: usize = 0;
        while i < count
            invariant
                i <= count,
                count == self@.sprites.len(),
                self@.sprite_pixel(x as int) == self@.sprite_pixel_from(x as int, i as int),
            decreases count - i,
        {
            let sprite = buffer_get(&self.sprite_buffer, i);
            let color = self.fetch_sprite_color(sprite, x);
            if color != 0 {
                let palette = if sprite.flags.uses_second_palette() {
                    self.obj_palette_1
                } else {
                    self.obj_palette_0
                };
                return Some(
                    Pixel { color, palette, background_priority: sprite.flags.behind_background() },
                );
            }
            i += 1;
        }
        None
    }

    /// The shade of one pixel of the current scanline.
    fn line_pixel(&self, x: u8) -> (value: u8)
        ensures
            value == self@.pixel(x as int),
            value <= 3,
    {
        reveal(PpuModel::pixel);
        let under = self.fetch_layer_pixel(x);
        let (below, opaque) = match under {
            Some(p) => (self.color_from_palette(p.color, p.palette), p.background_priority),
            None => (0, false),
        };
        if self.control.sprites_enabled() {
            match self.fetch_sprite_pixel(x) {
                Some(p) => if p.background_priority && opaque {
                    below
                } else {
                    self.color_from_palette(p.color, p.palette)
                },
                None => below,
            }
        } else {
            below
        }
    }

    fn draw(&mut self)
        requires
            old(self)@.wf(),
            old(self)@.mode == Mode::Drawing,
        ensures
            final(self)@ == old(self)@.draw(),
    {
        let mut pixels = [0u8; SCREEN_WIDTH];
        let mut x: usize = 0;
        while x < SCREEN_WIDTH
            invariant
                x <= SCREEN_WIDTH,
                *self == *old(self),
                forall|i: int| 0 <= i < x ==> pixels@[i] == self@.pixel(i),
            decreases SCREEN_WIDTH - x,
        {
            pixels[x] = self.line_pixel(x as u8);
            x += 1;
        }
        let line_start = SCREEN_WIDTH * self.scanline as usize;
        let mut i: usize = 0;
        while i < SCREEN_WIDTH
            invariant
                i <= SCREEN_WIDTH,
                line_start == SCREEN_WIDTH * old(self)@.ly,
                line_start + SCREEN_WIDTH <= FRAME_SIZE,
                self@ == (PpuModel { frame_buffer: self@.frame_buffer, ..old(self)@ }),
                forall|j: int|
                    0 <= j < FRAME_SIZE ==> self@.frame_buffer[j] == if line_start <= j < line_start + i {
                        pixels@[j - line_start]
                    } else {
                        old(self)@.frame_buffer[j]
                    },
            decreases SCREEN_WIDTH - i,
        {
            self.frame_buffer[line_start + i] = pixels[i];
            i += 1;
        }
        self.updated = true;
        self.mode = Mode::HorizontalBlank;
        if self.status.selects_mode_0() {
            self.interrupt |= STAT_INTERRUPT;
        }
        assert(self@.frame_buffer =~= old(self)@.draw().frame_buffer);
    }

    fn horizontal_blank(&mut self)
        requires
            old(self)@.wf(),
            old(self)@.mode == Mode::HorizontalBlank,
        ensures
            final(self)@ == old(self)@.horizontal_blank(),
    {
        self.scanline += 1;
        self.check_scanline_interrupt();
        if self.scanline >= 144 {
            self.interrupt |= VBLANK_INTERRUPT;
            if self.status.selects_mode_1() {
                self.interrupt |= STAT_INTERRUPT;
            }
            self.mode = Mode::VerticalBlank;
        } else {
            self.mode = Mode::OAMScan;
        }
    }

    fn vertical_blank(&mut self)
        requires
            old(self)@.wf(),
            old(self)@.mode == Mode::VerticalBlank,
        ensures
            final(self)@ == old(self)@.vertical_blank(),
    {
        self.scanline += 1;
        self.scanline %= SCANLINES;
        if self.scanline == 0 {
            self.mode = Mode::OAMScan;
            if self.status.selects_mode_2() {
                self.interrupt |= STAT_INTERRUPT;
            }
        }
    }
}

} // verus!
