//! The joypad: two rows of four keys each, read through one register whose
//! bits 4 and 5 select the row.

use vstd::prelude::*;
use crate::registers::{
    bit_is_set, clear_bit, lemma_bit_update, raise_bit, res_value, set_value, test_bit,
};

verus! {

/// The eight keys of the console.
#[derive(Debug, Clone, Copy, PartialEq, Eq, Structural)]
pub enum Button {
    Up,
    Down,
    Left,
    Right,
    A,
    B,
    Start,
    Select,
}

/// The value of the select bits that shows the action keys.
pub const SELECT_ACTIONS: u8 = 0x10;

/// The value of the select bits that shows the direction keys.
pub const SELECT_DIRECTIONS: u8 = 0x20;

/// The joypad register. A key that is held down reads as a 0 bit.
#[derive(Debug, Clone, Copy, PartialEq, Eq, Structural)]
pub struct Keys {
    /// The action keys: A, B, Select, Start in bits 0 to 3.
    pub actions: u8,
    /// The direction keys: Right, Left, Up, Down in bits 0 to 3.
    pub directions: u8,
    /// Bits 4 and 5 of the last byte written to the register.
    pub column: u8,
}

impl Button {
    /// Whether the key sits in the row of direction keys.
    pub open spec fn is_direction(self) -> bool {
        match self {
            Button::Up | Button::Down | Button::Left | Button::Right => true,
            _ => false,
        }
    }

    /// The bit of its row that the key drives.
    pub open spec fn bit(self) -> u8 {
        match self {
            Button::Right | Button::A => 0,
            Button::Left | Button::B => 1,
            Button::Up | Button::Select => 2,
            Button::Down | Button::Start => 3,
        }
    }

    fn row_is_directions(self) -> (d: bool)
        ensures
            d == self.is_direction(),
    {
        match self {
            Button::Up | Button::Down | Button::Left | Button::Right => true,
            _ => false,
        }
    }

    fn row_bit(self) -> (b: u8)
        ensures
            b == self.bit(),
            b < 4,
    {
        match self {
            Button::Right | Button::A => 0,
            Button::Left | Button::B => 1,
            Button::Up | Button::Select => 2,
            Button::Down | Button::Start => 3,
        }
    }
}

impl Keys {
    /// No key held down, no row selected.
    pub fn new() -> (k: Keys)
        ensures
            k == (Keys { actions: 0x0F, directions: 0x0F, column: 0 }),
    {
        Keys { actions: 0x0F, directions: 0x0F, column: 0 }
    }

    /// The register as the bus reads it: the row that the select bits name,
    /// or 0 when they name none or both.
    pub open spec fn spec_read_byte(&self) -> u8 {
        if self.column == 0x10 {
            self.actions
        } else if self.column == 0x20 {
            self.directions
        } else {
            0
        }
    }

    /// The register as the bus reads it.
    #[verifier::when_used_as_spec(spec_read_byte)]
    pub fn read_byte(&self) -> (b: u8)
        ensures
            b == self.spec_read_byte(),
    {
        if self.column == SELECT_ACTIONS {
            self.actions
        } else if self.column == SELECT_DIRECTIONS {
            self.directions
        } else {
            0
        }
    }

    /// A bus write: bits 4 and 5 of `val` select the row, the rest is
    /// dropped.
    pub fn write_byte(&mut self, val: u8)
        ensures
            *final(self) == (Keys { column: val & 0x30, ..*old(self) }),
    {
        self.column = val & 0x30;
    }

    /// The state after `button` went down: its bit is cleared.
    pub open spec fn pressed(self, button: Button) -> Keys {
        if button.is_direction() {
            Keys { directions: res_value(self.directions, button.bit()), ..self }
        } else {
            Keys { actions: res_value(self.actions, button.bit()), ..self }
        }
    }

    /// The state after `button` came up: its bit is set.
    pub open spec fn released(self, button: Button) -> Keys {
        if button.is_direction() {
            Keys { directions: set_value(self.directions, button.bit()), ..self }
        } else {
            Keys { actions: set_value(self.actions, button.bit()), ..self }
        }
    }

    /// Whether `button` reads as held down.
    pub open spec fn is_down(self, button: Button) -> bool {
        if button.is_direction() {
            !bit_is_set(self.directions, button.bit())
        } else {
            !bit_is_set(self.actions, button.bit())
        }
    }

    /// Whether `button` reads as held down.
    pub fn held(&self, button: Button) -> (down: bool)
        ensures
            down == self.is_down(button),
    {
        let bit = button.row_bit();
        if button.row_is_directions() {
            !test_bit(self.directions, bit)
        } else {
            !test_bit(self.actions, bit)
        }
    }

    /// Records that `button` went down.
    pub fn key_down(&mut self, button: Button)
        ensures
            *final(self) == old(self).pressed(button),
    {
        let bit = button.row_bit();
        if button.row_is_directions() {
            self.directions = clear_bit(self.directions, bit);
        } else {
            self.actions = clear_bit(self.actions, bit);
        }
    }

    /// Records that `button` came up.
    pub fn key_up(&mut self, button: Button)
        ensures
            *final(self) == old(self).released(button),
    {
        let bit = button.row_bit();
        if button.row_is_directions() {
            self.directions = raise_bit(self.directions, bit);
        } else {
            self.actions = raise_bit(self.actions, bit);
        }
    }
}

/// A key event changes the state of its own key and of no other.
pub proof fn lemma_key_events(keys: Keys, button: Button, other: Button)
    ensures
        keys.pressed(button).is_down(button),
        !keys.released(button).is_down(button),
        other != button ==> keys.pressed(button).is_down(other) == keys.is_down(other),
        other != button ==> keys.released(button).is_down(other) == keys.is_down(other),
{
    if button.is_direction() {
        lemma_bit_update(keys.directions, button.bit(), other.bit());
    } else {
        lemma_bit_update(keys.actions, button.bit(), other.bit());
    }
}

} // verus!
