//! The LCD control register.

use vstd::prelude::*;
use crate::bits::has_bit;
use crate::bits::lemma_byte_bits;

verus! {

#[derive(Clone, Copy, Debug, PartialEq, Eq, Structural)]
pub struct Control {
    pub bits: u8,
}

impl Control {
    /// Bit 7: the LCD is on.
    pub open spec fn lcd_enable(self) -> bool {
        has_bit(self.bits, 128)
    }

    /// Bit 6: the window takes its tiles from the map at `9C00`, else from
    /// the one at `9800`.
    pub open spec fn window_tile_map_select(self) -> bool {
        has_bit(self.bits, 64)
    }

    /// Bit 5: the window is shown.
    pub open spec fn window_enable(self) -> bool {
        has_bit(self.bits, 32)
    }

    /// Bit 4: tile numbers are unsigned and count from `8000`.
    pub open spec fn tile_data_select(self) -> bool {
        has_bit(self.bits, 16)
    }

    /// Bit 3: the background takes its tiles from the map at `9C00`, else
    /// from the one at `9800`.
    pub open spec fn bg_tile_map_select(self) -> bool {
        has_bit(self.bits, 8)
    }

    /// Bit 2: sprites are 16 rows tall, else 8.
    pub open spec fn sprite_size(self) -> bool {
        has_bit(self.bits, 4)
    }

    /// Bit 1: sprites are shown.
    pub open spec fn sprite_enable(self) -> bool {
        has_bit(self.bits, 2)
    }

    /// Bit 0: background and window are shown.
    pub open spec fn bg_window_enable(self) -> bool {
        has_bit(self.bits, 1)
    }

    /// Rows of a sprite: 16 in tall mode, else 8.
    pub open spec fn height(self) -> u8 {
        if self.sprite_size() {
            16
        } else {
            8
        }
    }

    /// Offset in video RAM of the background's tile map.
    pub open spec fn bg_map(self) -> int {
        if self.bg_tile_map_select() {
            0x1c00
        } else {
            0x1800
        }
    }

    /// Offset in video RAM of the window's tile map.
    pub open spec fn window_map(self) -> int {
        if self.window_tile_map_select() {
            0x1c00
        } else {
            0x1800
        }
    }

    /// Offset in video RAM of a tile's 16 bytes. With `tile_data_select` the
    /// tiles are counted up from 0; without it the tile number is signed and
    /// counted from `0x1000`.
    pub open spec fn tile_data_base(self, tile_number: u8) -> int {
        if self.tile_data_select() || tile_number >= 128 {
            tile_number * 16
        } else {
            0x1000 + tile_number * 16
        }
    }

    /// The register holding `bits`; all eight have a meaning.
    pub fn from_bits_truncate(bits: u8) -> (c: Self)
        ensures
            c.bits == bits,
    {
        Control { bits }
    }

    /// The register as a byte.
    pub fn bits(&self) -> (b: u8)
        ensures
            b == self.bits,
    {
        self.bits
    }

    /// Whether the LCD is on.
    pub fn lcd_on(&self) -> (on: bool)
        ensures
            on == self.lcd_enable(),
    {
        proof {
            lemma_byte_bits();
        }
        self.bits >> 7 != 0
    }

    /// Whether sprites are 16 rows tall.
    pub fn tall_sprite_mode(&self) -> (tall: bool)
        ensures
            tall == self.sprite_size(),
    {
        proof {
            lemma_byte_bits();
        }
        self.bits & 0x04 != 0
    }

    /// Whether the window is shown.
    pub fn window_enabled(&self) -> (on: bool)
        ensures
            on == self.window_enable(),
    {
        proof {
            lemma_byte_bits();
        }
        self.bits & 0x20 != 0
    }

    /// Whether sprites are shown.
    pub fn sprites_enabled(&self) -> (on: bool)
        ensures
            on == self.sprite_enable(),
    {
        proof {
            lemma_byte_bits();
        }
        self.bits & 0x02 != 0
    }

    /// Whether background and window are shown.
    pub fn background_enabled(&self) -> (on: bool)
        ensures
            on == self.bg_window_enable(),
    {
        proof {
            lemma_byte_bits();
        }
        self.bits & 0x01 != 0
    }

    /// Rows of a sprite.
    pub fn sprite_height(&self) -> (h: u8)
        ensures
            h == self.height(),
    {
        if self.tall_sprite_mode() {
            16
        } else {
            8
        }
    }

    /// Offset in video RAM of the background's tile map.
    pub fn bg_map_mask(&self) -> (mask: usize)
        ensures
            mask == self.bg_map(),
    {
        proof {
            lemma_byte_bits();
        }
        if self.bits & 0x08 != 0 {
            0x1c00
        } else {
            0x1800
        }
    }

    /// Offset in video RAM of the window's tile map.
    pub fn window_map_mask(&self) -> (mask: usize)
        ensures
            mask == self.window_map(),
    {
        proof {
            lemma_byte_bits();
        }
        if self.bits & 0x40 != 0 {
            0x1c00
        } else {
            0x1800
        }
    }

    /// Offset in video RAM of a tile's 16 bytes.
    pub fn tile_data_base_from_tile_number(&self, tile_number: u8) -> (base: usize)
        ensures
            base == self.tile_data_base(tile_number),
            base <= 0x17f0,
    {
        proof {
            lemma_byte_bits();
        }
        if self.bits & 0x10 != 0 || tile_number >= 128 {
            tile_number as usize * 16
        } else {
            0x1000 + tile_number as usize * 16
        }
    }
}

} // verus!
