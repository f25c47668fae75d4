//! The joypad register: two rows of four keys behind one byte.

use vstd::prelude::*;

verus! {

/// Bit of the joypad interrupt in the interrupt registers.
pub const JOYPAD_INTERRUPT: u8 = 0x10;

#[derive(Clone, Copy, Debug, PartialEq, Eq, Structural)]
pub enum JoypadKey {
    A,
    B,
    Select,
    Start,
    Right,
    Left,
    Up,
    Down,
}

impl JoypadKey {
    /// Whether the key sits in the action row; else it is a direction.
    pub open spec fn is_action(self) -> bool {
        self == JoypadKey::A || self == JoypadKey::B || self == JoypadKey::Select || self
            == JoypadKey::Start
    }

    /// The key's bit within its row.
    pub open spec fn mask(self) -> u8 {
        match self {
            JoypadKey::A | JoypadKey::Right => 0x01,
            JoypadKey::B | JoypadKey::Left => 0x02,
            JoypadKey::Select | JoypadKey::Up => 0x04,
            JoypadKey::Start | JoypadKey::Down => 0x08,
        }
    }

    fn in_action_row(&self) -> (action: bool)
        ensures
            action == self.is_action(),
    {
        match self {
            JoypadKey::A | JoypadKey::B | JoypadKey::Select | JoypadKey::Start => true,
            _ => false,
        }
    }

    fn row_bit(&self) -> (mask: u8)
        ensures
            mask == self.mask(),
    {
        match self {
            JoypadKey::A | JoypadKey::Right => 0x01,
            JoypadKey::B | JoypadKey::Left => 0x02,
            JoypadKey::Select | JoypadKey::Up => 0x04,
            JoypadKey::Start | JoypadKey::Down => 0x08,
        }
    }
}

/// In each row a pressed key is a 0 bit and a released key a 1 bit.
#[derive(Clone, Copy, Debug, PartialEq, Eq, Structural)]
pub struct Joypad {
    /// The register as the CPU reads it.
    pub data: u8,
    pub action_row: u8,
    pub d_pad_row: u8,
    /// Interrupt bits raised and not yet collected.
    pub interrupt: u8,
}

impl Joypad {
    /// The register with bits 0..3 recomputed: a row shows through where
    /// its select bit (4 for actions, 5 for directions) is 0.
    pub open spec fn refreshed(self) -> Joypad {
        let high = self.data & 0xf0;
        let with_actions = if high & 0x10 == 0x00 {
            high | (self.action_row & 0x0f)
        } else {
            high
        };
        let with_directions = if with_actions & 0x20 == 0x00 {
            with_actions | (self.d_pad_row & 0x0f)
        } else {
            with_actions
        };
        Joypad { data: with_directions, ..self }
    }

    /// A write by the CPU: only the two select bits are taken.
    pub open spec fn written(self, value: u8) -> Joypad {
        Joypad { data: (self.data & 0xcf) | (value & 0x30), ..self }.refreshed()
    }

    /// The joypad after a key is pressed: its bit in its row is cleared and
    /// the joypad interrupt raised.
    pub open spec fn pressed(self, key: JoypadKey) -> Joypad {
        if key.is_action() {
            Joypad {
                action_row: self.action_row & !key.mask(),
                interrupt: self.interrupt | JOYPAD_INTERRUPT,
                ..self
            }.refreshed()
        } else {
            Joypad {
                d_pad_row: self.d_pad_row & !key.mask(),
                interrupt: self.interrupt | JOYPAD_INTERRUPT,
                ..self
            }.refreshed()
        }
    }

    /// The joypad after a key is released: its bit in its row is set.
    pub open spec fn released(self, key: JoypadKey) -> Joypad {
        if key.is_action() {
            Joypad { action_row: self.action_row | key.mask(), ..self }.refreshed()
        } else {
            Joypad { d_pad_row: self.d_pad_row | key.mask(), ..self }.refreshed()
        }
    }

    /// No key pressed, no row selected.
    pub fn new() -> (joypad: Self)
        ensures
            joypad == (Joypad { data: 0xff, action_row: 0x0f, d_pad_row: 0x0f, interrupt: 0 }),
    {
        Self { data: 0xff, action_row: 0x0f, d_pad_row: 0x0f, interrupt: 0 }
    }

    /// The register as the CPU reads it.
    pub fn read_byte(&self) -> (value: u8)
        ensures
            value == self.data,
    {
        self.data
    }

    /// A write by the CPU, which selects the rows.
    pub fn write_byte(&mut self, value: u8)
        ensures
            *final(self) == old(self).written(value),
    {
        self.data = (self.data & 0xcf) | (value & 0x30);
        self.update()
    }

    /// Presses a key and raises the joypad interrupt.
    pub fn key_down(&mut self, key: JoypadKey)
        ensures
            *final(self) == old(self).pressed(key),
    {
        let mask = key.row_bit();
        if key.in_action_row() {
            self.action_row &= !mask;
        } else {
            self.d_pad_row &= !mask;
        }
        self.interrupt |= JOYPAD_INTERRUPT;
        self.update()
    }

    /// Releases a key.
    pub fn key_up(&mut self, key: JoypadKey)
        ensures
            *final(self) == old(self).released(key),
    {
        let mask = key.row_bit();
        if key.in_action_row() {
            self.action_row |= mask;
        } else {
            self.d_pad_row |= mask;
        }
        self.update()
    }

    fn update(&mut self)
        ensures
            *final(self) == old(self).refreshed(),
    {
        self.data &= 0xf0;
        if self.data & 0x10 == 0x00 {
            self.data |= self.action_row & 0x0f;
        }
        if self.data & 0x20 == 0x00 {
            self.data |= self.d_pad_row & 0x0f;
        }
    }
}

/// What the CPU reads after it has written `value`: with only the action
/// row selected (bit 4 clear, bit 5 set) the low nibble is the action row,
/// with only the direction row selected it is the direction row, and with
/// neither it is empty. Bits 4 and 5 are those written, bits 6 and 7 stay.
pub proof fn lemma_selected_row(joypad: Joypad, value: u8)
    ensures
        value & 0x30 == 0x20 ==> joypad.written(value).data & 0x0f == joypad.action_row & 0x0f,
        value & 0x30 == 0x10 ==> joypad.written(value).data & 0x0f == joypad.d_pad_row & 0x0f,
        value & 0x30 == 0x30 ==> joypad.written(value).data & 0x0f == 0,
        joypad.written(value).data & 0x30 == value & 0x30,
        joypad.written(value).data & 0xc0 == joypad.data & 0xc0,
{
    let d = joypad.data;
    let a = joypad.action_row;
    let p = joypad.d_pad_row;
    assert(({
        let high = ((d & 0xcf) | (value & 0x30)) & 0xf0;
        let w1 = if high & 0x10 == 0x00 { high | (a & 0x0f) } else { high };
        let w2 = if w1 & 0x20 == 0x00 { w1 | (p & 0x0f) } else { w1 };
        &&& w2 & 0x30 == value & 0x30
        &&& w2 & 0xc0 == d & 0xc0
        &&& value & 0x30 == 0x20 ==> w2 & 0x0f == a & 0x0f
        &&& value & 0x30 == 0x10 ==> w2 & 0x0f == p & 0x0f
        &&& value & 0x30 == 0x30 ==> w2 & 0x0f == 0
    })) by (bit_vector);
}

} // verus!
