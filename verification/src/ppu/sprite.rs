//! One entry of object attribute memory, and the buffer of the sprites that
//! a scanline shows.

use vstd::prelude::*;
use arrayvec::ArrayVec;
use crate::bits::has_bit;
use crate::bits::lemma_byte_bits;

verus! {

/// The attribute byte of a sprite; only bits 7..4 carry meaning.
#[derive(Clone, Copy, Debug, PartialEq, Eq, Structural)]
pub struct SpriteFlags {
    pub bits: u8,
}

impl SpriteFlags {
    /// Bit 7: the sprite hides behind opaque background.
    pub open spec fn obj_to_bg_priority(self) -> bool {
        has_bit(self.bits, 128)
    }

    /// Bit 6: the sprite is upside down.
    pub open spec fn y_flip(self) -> bool {
        has_bit(self.bits, 64)
    }

    /// Bit 5: the sprite is mirrored.
    pub open spec fn x_flip(self) -> bool {
        has_bit(self.bits, 32)
    }

    /// Bit 4: the sprite takes the second object palette.
    pub open spec fn palette(self) -> bool {
        has_bit(self.bits, 16)
    }

    /// Keeps the four attribute bits of `bits` and drops the low nibble.
    pub fn from_bits_truncate(bits: u8) -> (f: Self)
        ensures
            f.bits == bits - bits % 16,
    {
        proof {
            lemma_byte_bits();
        }
        SpriteFlags { bits: bits & 0xf0 }
    }

    /// The attributes as a byte.
    pub fn bits(&self) -> (b: u8)
        ensures
            b == self.bits,
    {
        self.bits
    }

    /// Whether the sprite hides behind opaque background.
    pub fn behind_background(&self) -> (on: bool)
        ensures
            on == self.obj_to_bg_priority(),
    {
        proof {
            lemma_byte_bits();
        }
        self.bits & 0x80 != 0
    }

    /// Whether the sprite is upside down.
    pub fn flipped_vertically(&self) -> (on: bool)
        ensures
            on == self.y_flip(),
    {
        proof {
            lemma_byte_bits();
        }
        self.bits & 0x40 != 0
    }

    /// Whether the sprite is mirrored.
    pub fn flipped_horizontally(&self) -> (on: bool)
        ensures
            on == self.x_flip(),
    {
        proof {
            lemma_byte_bits();
        }
        self.bits & 0x20 != 0
    }

    /// Whether the sprite takes the second object palette.
    pub fn uses_second_palette(&self) -> (on: bool)
        ensures
            on == self.palette(),
    {
        proof {
            lemma_byte_bits();
        }
        self.bits & 0x10 != 0
    }
}

/// A sprite as the scan stores it: `y` and `x` are the screen coordinates of
/// its top-left corner, on the 8-bit circle.
#[derive(Clone, Copy, Debug, PartialEq, Eq, Structural)]
pub struct Sprite {
    pub y: u8,
    pub x: u8,
    pub tile_index: u8,
    pub flags: SpriteFlags,
}

#[verifier::external_type_specification]
#[verifier::external_body]
#[verifier::reject_recursive_types(T)]
pub struct ExArrayVec<T, const CAP: usize>(ArrayVec<T, CAP>);

/// The sprites that a buffer holds, first to last.
pub uninterp spec fn buffer_items(buffer: ArrayVec<Sprite, 10>) -> Seq<Sprite>;

/// `ArrayVec::new`: a buffer that holds nothing.
#[verifier::external_body]
pub(crate) fn buffer_new() -> (buffer: ArrayVec<Sprite, 10>)
    ensures
        buffer_items(buffer) == Seq::<Sprite>::empty(),
{
    ArrayVec::new()
}

/// `ArrayVec::len`: the number of sprites held, never more than the
/// capacity of ten.
#[verifier::external_body]
pub(crate) fn buffer_len(buffer: &ArrayVec<Sprite, 10>) -> (n: usize)
    ensures
        n == buffer_items(*buffer).len(),
        n <= 10,
{
    buffer.len()
}

/// `ArrayVec::push`: appends one sprite. The outside method panics on a full
/// buffer, which the precondition leaves out.
#[verifier::external_body]
pub(crate) fn buffer_push(buffer: &mut ArrayVec<Sprite, 10>, sprite: Sprite)
    requires
        buffer_items(*old(buffer)).len() < 10,
    ensures
        buffer_items(*final(buffer)) == buffer_items(*old(buffer)).push(sprite),
{
    buffer.push(sprite)
}

/// `ArrayVec::clear`: removes every sprite.
#[verifier::external_body]
pub(crate) fn buffer_clear(buffer: &mut ArrayVec<Sprite, 10>)
    ensures
        buffer_items(*final(buffer)) == Seq::<Sprite>::empty(),
{
    buffer.clear()
}

/// `ArrayVec::as_slice`, indexed: the sprite at `index`, which must be one
/// of those held.
#[verifier::external_body]
pub(crate) fn buffer_get(buffer: &ArrayVec<Sprite, 10>, index: usize) -> (sprite: Sprite)
    requires
        index < buffer_items(*buffer).len(),
    ensures
        sprite == buffer_items(*buffer)[index as int],
{
    buffer.as_slice()[index]
}

} // verus!
