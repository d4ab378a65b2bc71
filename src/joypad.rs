//! A controller port: a strobe line and an eight-bit shift register.
use vstd::prelude::*;

verus! {

pub const BUTTON_A: u8 = 0x01;

pub const BUTTON_B: u8 = 0x02;

pub const BUTTON_SELECT: u8 = 0x04;

pub const BUTTON_START: u8 = 0x08;

pub const BUTTON_UP: u8 = 0x10;

pub const BUTTON_DOWN: u8 = 0x20;

pub const BUTTON_LEFT: u8 = 0x40;

pub const BUTTON_RIGHT: u8 = 0x80;

/// One controller. `buttons` is what the host reports as held, one bit per
/// button from A (bit 0) to Right (bit 7); `latched` is the snapshot being
/// shifted out and `index` how many bits of it have been read.
#[derive(PartialEq, Eq, Structural, Clone, Copy, Debug, Default)]
pub struct Joypad {
    pub buttons: u8,
    pub latched: u8,
    pub index: u8,
    pub strobe: bool,
}

/// Bit `k` of `b`, as 0 or 1.
pub open spec fn bit_of(b: u8, k: u8) -> u8 {
    (b >> k) & 1u8
}

/// The controller after a write of `val` to its port.
pub open spec fn write_spec(j: Joypad, val: u8) -> Joypad {
    let edge = j.strobe && val & 1u8 == 0u8;
    Joypad {
        buttons: j.buttons,
        latched: if edge { j.buttons } else { j.latched },
        index: if edge { 0 } else { j.index },
        strobe: val & 1u8 == 1u8,
    }
}

/// The bit a read of the port returns, and the controller afterwards.
pub open spec fn read_spec(j: Joypad) -> (u8, Joypad) {
    if j.strobe {
        (bit_of(j.buttons, 0), j)
    } else if j.index < 8 {
        (bit_of(j.latched, j.index), Joypad { index: (j.index + 1) as u8, ..j })
    } else {
        (1u8, j)
    }
}

impl Joypad {
    pub fn new() -> (r: Joypad)
        ensures
            r == (Joypad { buttons: 0, latched: 0, index: 0, strobe: false }),
    {
        Joypad { buttons: 0, latched: 0, index: 0, strobe: false }
    }

    /// The host reports which buttons are held.
    pub fn set_buttons(&mut self, buttons: u8)
        ensures
            *final(self) == (Joypad { buttons, ..*old(self) }),
    {
        self.buttons = buttons;
    }

    /// A write to the port: bit 0 is the strobe line. Its fall from 1 to 0
    /// takes a snapshot of the buttons.
    pub fn write(&mut self, val: u8)
        ensures
            *final(self) == write_spec(*old(self), val),
            final(self).strobe == (val & 1u8 == 1u8),
            final(self).buttons == old(self).buttons,
            (old(self).strobe && val & 1u8 == 0u8) ==> final(self).latched == old(self).buttons
                && final(self).index == 0,
            !(old(self).strobe && val & 1u8 == 0u8) ==> final(self).latched == old(self).latched
                && final(self).index == old(self).index,
    {
        let strobe = val & 1 == 1;
        assert((val & 1u8 == 1u8) != (val & 1u8 == 0u8)) by (bit_vector);
        if self.strobe && !strobe {
            self.latched = self.buttons;
            self.index = 0;
        }
        self.strobe = strobe;
    }

    /// A read of the port, in bit 0: button A while the strobe is high; else
    /// the next bit of the snapshot, and 1 once all eight have been read.
    pub fn read(&mut self) -> (r: u8)
        requires
            old(self).index <= 8,
        ensures
            (r, *final(self)) == read_spec(*old(self)),
            r == (if old(self).strobe {
                bit_of(old(self).buttons, 0)
            } else if old(self).index < 8 {
                bit_of(old(self).latched, old(self).index)
            } else {
                1u8
            }),
            final(self).index == (if !old(self).strobe && old(self).index < 8 {
                (old(self).index + 1) as u8
            } else {
                old(self).index
            }),
            final(self).index <= 8,
            final(self).buttons == old(self).buttons,
            final(self).latched == old(self).latched,
            final(self).strobe == old(self).strobe,
    {
        if self.strobe {
            (self.buttons >> 0u8) & 1
        } else if self.index < 8 {
            let r = (self.latched >> self.index) & 1;
            self.index = self.index + 1;
            r
        } else {
            1
        }
    }
}

} // verus!
