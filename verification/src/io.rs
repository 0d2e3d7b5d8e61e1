//! A plain register file for the joypad, the serial port and the timer
//! registers, for use without the full bus.

use vstd::prelude::*;
use crate::keys::Keys;

verus! {

/// The low I/O registers as bytes that are simply stored and read back.
#[derive(Debug, Clone, Copy, PartialEq, Eq, Structural)]
pub struct IO {
    pub joypad: Keys,
    pub serial: u8,
    pub serial_control: u8,
    pub div: u8,
    pub tima: u8,
    pub tma: u8,
    pub tac: u8,
}

impl IO {
    /// Every register zero, no key held down.
    pub fn new() -> (io: IO)
        ensures
            io == (IO {
                joypad: Keys { actions: 0x0F, directions: 0x0F, column: 0 },
                serial: 0,
                serial_control: 0,
                div: 0,
                tima: 0,
                tma: 0,
                tac: 0,
            }),
    {
        IO { joypad: Keys::new(), serial: 0, serial_control: 0, div: 0, tima: 0, tma: 0, tac: 0 }
    }

    /// The byte read at `address`: the register there, `0xFF` in the unused
    /// part of the sound range, and 0 anywhere else.
    pub open spec fn spec_read_byte(&self, address: u16) -> u8 {
        if address == 0xFF00 {
            self.joypad.spec_read_byte()
        } else if address == 0xFF01 {
            self.serial
        } else if address == 0xFF02 {
            self.serial_control
        } else if address == 0xFF04 {
            self.div
        } else if address == 0xFF05 {
            self.tima
        } else if address == 0xFF06 {
            self.tma
        } else if address == 0xFF07 {
            self.tac
        } else if 0xFF27 <= address <= 0xFF2F {
            0xFF
        } else {
            0
        }
    }

    /// The byte read at `address`.
    #[verifier::when_used_as_spec(spec_read_byte)]
    pub fn read_byte(&self, address: u16) -> (b: u8)
        ensures
            b == self.spec_read_byte(address),
    {
        match address {
            0xFF00 => self.joypad.read_byte(),
            0xFF01 => self.serial,
            0xFF02 => self.serial_control,
            0xFF04 => self.div,
            0xFF05 => self.tima,
            0xFF06 => self.tma,
            0xFF07 => self.tac,
            0xFF27..=0xFF2F => 0xFF,
            _ => 0,
        }
    }

    /// The registers after a write of `val` at `address`. A write to the
    /// serial control register starts a transfer, which is done at once and
    /// leaves the register zero.
    pub open spec fn written(self, address: u16, val: u8) -> IO {
        if address == 0xFF00 {
            IO { joypad: Keys { column: val & 0x30, ..self.joypad }, ..self }
        } else if address == 0xFF01 {
            IO { serial: val, ..self }
        } else if address == 0xFF02 {
            IO { serial_control: 0, ..self }
        } else if address == 0xFF04 {
            IO { div: val, ..self }
        } else if address == 0xFF05 {
            IO { tima: val, ..self }
        } else if address == 0xFF06 {
            IO { tma: val, ..self }
        } else if address == 0xFF07 {
            IO { tac: val, ..self }
        } else {
            self
        }
    }

    /// Stores `val` at `address`. A write to the serial control register
    /// sends the byte held in the serial data register: it is returned for the
    /// caller to show.
    pub fn write_byte(&mut self, address: u16, val: u8) -> (sent: Option<u8>)
        ensures
            *final(self) == old(self).written(address, val),
            sent == (if address == 0xFF02 {
                Some(old(self).serial)
            } else {
                None
            }),
    {
        match address {
            0xFF00 => {
                self.joypad.write_byte(val);
                None
            },
            0xFF01 => {
                self.serial = val;
                None
            },
            0xFF02 => {
                self.serial_control = 0;
                Some(self.serial)
            },
            0xFF04 => {
                self.div = val;
                None
            },
            0xFF05 => {
                self.tima = val;
                None
            },
            0xFF06 => {
                self.tma = val;
                None
            },
            0xFF07 => {
                self.tac = val;
                None
            },
            _ => None,
        }
    }
}

} // verus!
