//! From shades to colours: how a frame of palette indices becomes RGBA
//! bytes for the screen.

use vstd::prelude::*;

verus! {

/// The two sets of four colours that a frame can be shown in.
#[derive(Clone, Copy, Debug, PartialEq, Eq, Structural)]
pub enum Palette {
    /// White, light grey, dark grey, black.
    Greyscale,
    /// The green tint of the handheld's own screen.
    Green,
}

/// The red, green, blue and alpha byte of a shade. Shades past 3 show as
/// the darkest.
pub open spec fn color_of(palette: Palette, shade: u8) -> Seq<u8> {
    match palette {
        Palette::Greyscale => if shade == 0 {
            seq![0xffu8, 0xffu8, 0xffu8, 0xffu8]
        } else if shade == 1 {
            seq![0xaau8, 0xaau8, 0xaau8, 0xffu8]
        } else if shade == 2 {
            seq![0x55u8, 0x55u8, 0x55u8, 0xffu8]
        } else {
            seq![0x00u8, 0x00u8, 0x00u8, 0xffu8]
        },
        Palette::Green => if shade == 0 {
            seq![0x9bu8, 0xbcu8, 0x0fu8, 0xffu8]
        } else if shade == 1 {
            seq![0x8bu8, 0xacu8, 0x0fu8, 0xffu8]
        } else if shade == 2 {
            seq![0x30u8, 0x62u8, 0x30u8, 0xffu8]
        } else {
            seq![0x0fu8, 0x38u8, 0x0fu8, 0xffu8]
        },
    }
}

/// The RGBA bytes of a frame: four for each shade, in the order of the
/// shades.
pub open spec fn colored(shades: Seq<u8>, palette: Palette) -> Seq<u8> {
    Seq::new(4 * shades.len(), |i: int| color_of(palette, shades[i / 4])[i % 4])
}

impl Palette {
    /// The red, green, blue and alpha byte of a shade.
    pub fn color(&self, shade: u8) -> (rgba: [u8; 4])
        ensures
            rgba@ == color_of(*self, shade),
    {
        let rgba: [u8; 4] = match self {
            Palette::Greyscale => match shade {
                0 => [0xff, 0xff, 0xff, 0xff],
                1 => [0xaa, 0xaa, 0xaa, 0xff],
                2 => [0x55, 0x55, 0x55, 0xff],
                _ => [0x00, 0x00, 0x00, 0xff],
            },
            Palette::Green => match shade {
                0 => [0x9b, 0xbc, 0x0f, 0xff],
                1 => [0x8b, 0xac, 0x0f, 0xff],
                2 => [0x30, 0x62, 0x30, 0xff],
                _ => [0x0f, 0x38, 0x0f, 0xff],
            },
        };
        assert(rgba@ =~= color_of(*self, shade));
        rgba
    }
}

/// A frame of shades that can be written out as colours.
pub trait FrameBuffer {
    spec fn shades(&self) -> Seq<u8>;

    /// Overwrites the start of `rgba_buffer` with the colours of the frame
    /// and leaves the rest of it alone. The buffer must have room for four
    /// bytes to the shade.
    fn write_to_rbga_buffer(&self, rgba_buffer: &mut Vec<u8>, palette: Palette)
        requires
            old(rgba_buffer)@.len() >= 4 * self.shades().len(),
        ensures
            final(rgba_buffer)@ == colored(self.shades(), palette) + old(rgba_buffer)@.skip(
                4 * self.shades().len() as int,
            ),
    ;
}

impl FrameBuffer for Vec<u8> {
    open spec fn shades(&self) -> Seq<u8> {
        self@
    }

    fn write_to_rbga_buffer(&self, rgba_buffer: &mut Vec<u8>, palette: Palette) {
        let mut i: usize = 0;
        while i < self.len()
            invariant
                i <= self.len(),
                rgba_buffer@.len() == old(rgba_buffer)@.len(),
                rgba_buffer.len() >= 4 * self.len(),
                forall|k: int| 0 <= k < 4 * i ==> rgba_buffer@[k] == colored(self@, palette)[k],
                forall|k: int| 4 * i <= k < rgba_buffer@.len() ==> rgba_buffer@[k] == old(rgba_buffer)@[k],
            decreases self.len() - i,
        {
            let pixel_index = i * 4;
            let color = palette.color(self[i]);
            rgba_buffer[pixel_index] = color[0];
            rgba_buffer[pixel_index + 1] = color[1];
            rgba_buffer[pixel_index + 2] = color[2];
            rgba_buffer[pixel_index + 3] = color[3];
            i += 1;
        }
        assert(rgba_buffer@ =~= colored(self@, palette) + old(rgba_buffer)@.skip(4 * self@.len() as int));
    }
}

} // verus!
