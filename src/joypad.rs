//! The joypad: eight buttons read through a selectable 4-bit row.

use vstd::prelude::*;
use crate::virtual_memory::MemoryMappedPeripheral;

verus! {

/// Selection bit that, when clear, selects the row returned from the high
/// nibble of the button mask (the direction keys).
pub const SELECT_DIRECTION: u8 = 0x20;

/// Selection bit that, when clear, selects the row returned from the low
/// nibble of the button mask (the action keys).
pub const SELECT_ACTION: u8 = 0x10;

/// What a read returns while no row is selected.
pub const NO_SELECTION: u8 = 0x3F;

/// A button; each owns one bit of the button mask, in declaration order.
#[derive(Debug, Clone, Copy, PartialEq, Eq, Structural)]
pub enum JoyPadButton {
    Down,
    Up,
    Left,
    Right,
    Start,
    Select,
    B,
    A,
}

impl JoyPadButton {
    /// The button's bit in the mask.
    pub open spec fn mask_spec(self) -> u8 {
        match self {
            JoyPadButton::Down => 0x01,
            JoyPadButton::Up => 0x02,
            JoyPadButton::Left => 0x04,
            JoyPadButton::Right => 0x08,
            JoyPadButton::Start => 0x10,
            JoyPadButton::Select => 0x20,
            JoyPadButton::B => 0x40,
            JoyPadButton::A => 0x80,
        }
    }

    pub fn mask(self) -> (r: u8)
        ensures
            r == self.mask_spec(),
    {
        match self {
            JoyPadButton::Down => 0x01,
            JoyPadButton::Up => 0x02,
            JoyPadButton::Left => 0x04,
            JoyPadButton::Right => 0x08,
            JoyPadButton::Start => 0x10,
            JoyPadButton::Select => 0x20,
            JoyPadButton::B => 0x40,
            JoyPadButton::A => 0x80,
        }
    }
}

/// The joypad's state: pressed buttons (a set bit is a pressed button) and the
/// selection register.
pub struct JoyPadModel {
    pub buttons: u8,
    pub register: u8,
}

impl JoyPadModel {
    /// The byte that the joypad register reads as.
    pub open spec fn read(self) -> u8 {
        if self.register & SELECT_DIRECTION == 0 {
            SELECT_DIRECTION | (self.buttons >> 4u8)
        } else if self.register & SELECT_ACTION == 0 {
            SELECT_ACTION | (self.buttons & 0x0F)
        } else {
            NO_SELECTION
        }
    }

    /// A write takes the two selection bits of `data` and leaves the rest.
    pub open spec fn write(self, data: u8) -> Self {
        JoyPadModel {
            register: (self.register & !(SELECT_DIRECTION | SELECT_ACTION)) | (data & (SELECT_DIRECTION
                | SELECT_ACTION)),
            ..self
        }
    }

    /// Sets the button's bit when pressed, clears it when released.
    pub open spec fn update(self, button: JoyPadButton, pressed: bool) -> Self {
        JoyPadModel {
            buttons: if pressed {
                self.buttons | button.mask_spec()
            } else {
                self.buttons & !button.mask_spec()
            },
            ..self
        }
    }
}

pub struct JoyPad {
    buttons: u8,
    register: u8,
}

impl View for JoyPad {
    type V = JoyPadModel;

    closed spec fn view(&self) -> JoyPadModel {
        JoyPadModel { buttons: self.buttons, register: self.register }
    }
}

impl Default for JoyPad {
    /// No button pressed, no row selected.
    fn default() -> (r: Self)
        ensures
            r@ == (JoyPadModel { buttons: 0, register: NO_SELECTION }),
    {
        JoyPad { buttons: 0, register: NO_SELECTION }
    }
}

impl JoyPad {
    /// Records that `button` is now pressed (`state` true) or released.
    pub fn update_button_state(&mut self, button: JoyPadButton, state: bool)
        ensures
            final(self)@ == old(self)@.update(button, state),
    {
        let mask = button.mask();
        if state {
            self.buttons = self.buttons | mask;
        } else {
            self.buttons = self.buttons & !mask;
        }
    }
}

impl MemoryMappedPeripheral for JoyPad {
    open spec fn inv(&self) -> bool {
        true
    }

    open spec fn readable(&self, address: u16) -> bool {
        true
    }

    open spec fn writable(&self, address: u16, data: u8) -> bool {
        true
    }

    open spec fn read_value(&self, address: u16) -> u8 {
        self@.read()
    }

    open spec fn written(&self, after: Self, address: u16, data: u8) -> bool {
        after@ == self@.write(data)
    }

    fn write(&mut self, _address: u16, data: u8) {
        let selection = SELECT_DIRECTION | SELECT_ACTION;
        self.register = (self.register & !selection) | (data & selection);
    }

    fn read(&self, _address: u16) -> (r: u8) {
        if self.register & SELECT_DIRECTION == 0 {
            SELECT_DIRECTION | (self.buttons >> 4u8)
        } else if self.register & SELECT_ACTION == 0 {
            SELECT_ACTION | (self.buttons & 0x0F)
        } else {
            NO_SELECTION
        }
    }
}

} // verus!
