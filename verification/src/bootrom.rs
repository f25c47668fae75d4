//! The 256-byte startup program and the latch that removes it from the
//! address space.

use vstd::prelude::*;

verus! {

pub const BOOTROM_SIZE: usize = 0x100;

pub struct Bootrom {
    pub data: [u8; BOOTROM_SIZE],
    pub active: bool,
}

impl Bootrom {
    /// A startup program, mapped in.
    pub fn new(data: [u8; BOOTROM_SIZE]) -> (bootrom: Self)
        ensures
            bootrom.data == data,
            bootrom.active,
    {
        Self { data, active: true }
    }

    /// Whether the program is mapped in.
    pub fn is_active(&self) -> (active: bool)
        ensures
            active == self.active,
    {
        self.active
    }

    /// Unmaps the program. Nothing maps it in again.
    pub fn deactivate(&mut self)
        ensures
            final(self).data == old(self).data,
            !final(self).active,
    {
        self.active = false;
    }

    /// The byte of the program at `index`.
    pub fn index(&self, index: u16) -> (value: u8)
        requires
            index < BOOTROM_SIZE,
        ensures
            value == self.data@[index as int],
    {
        self.data[index as usize]
    }
}

} // verus!
