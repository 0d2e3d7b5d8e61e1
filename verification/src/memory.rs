//! The cartridge and the internal memories: ROM with its bank controller,
//! external RAM, work RAM, high RAM and the boot ROM overlay.

use vstd::prelude::*;

verus! {

/// What the upper bank-select register of the bank controller feeds.
#[derive(Debug, Clone, Copy, PartialEq, Eq, Structural)]
pub enum MBCMode {
    ROM,
    RAM,
}

/// The state of the bank controller.
#[derive(Debug, Clone, Copy, PartialEq, Eq, Structural)]
pub struct MBC {
    pub rom_bank: u8,
    pub ram_bank: u8,
    pub enable_ext_ram: bool,
    pub mode: MBCMode,
}

/// Offset in the ROM image of the byte that names the cartridge type.
pub const CARTRIDGE_TYPE_OFFSET: usize = 0x0147;

/// The byte read where no device answers.
pub const OPEN_BUS: u8 = 0xFF;

/// The memories behind the bus.
pub struct Memory {
    pub boot_rom: [u8; 0x100],
    pub rom: Vec<u8>,
    ext_ram: [u8; 0x8000],
    wram_0: [u8; 0x1000],
    wram_n: [u8; 0x1000],
    pub hram: [u8; 0x7F],
    pub expose_boot_rom: bool,
    cartridge_type: u8,
    mbc_internal: MBC,
}

/// The memories as mathematical values.
pub struct MemoryView {
    pub boot_rom: Seq<u8>,
    pub rom: Seq<u8>,
    pub ext_ram: Seq<u8>,
    pub wram_0: Seq<u8>,
    pub wram_n: Seq<u8>,
    pub hram: Seq<u8>,
    pub expose_boot_rom: bool,
    pub cartridge_type: u8,
    pub mbc: MBC,
}

/// The ROM bank that a write of `val` to the lower bank-select register
/// leaves selected: the low five bits come from `val`, with 0 read as 1; the
/// two high bits of the bank number are kept.
pub open spec fn with_low_bank(bank: u8, val: u8) -> u8 {
    ((bank / 32 % 4) * 32 + if val % 32 == 0 {
        1int
    } else {
        val as int % 32
    }) as u8
}

/// The ROM bank after the two high bits of the bank number are replaced by
/// the two low bits of `val`.
pub open spec fn with_high_bank(bank: u8, val: u8) -> u8 {
    ((val % 4) * 32 + bank % 32) as u8
}

/// The byte of a ROM image at `index`, or the open-bus value past its end.
pub open spec fn rom_byte(rom: Seq<u8>, index: int) -> u8 {
    if 0 <= index < rom.len() {
        rom[index]
    } else {
        0xFF
    }
}

impl MemoryView {
    /// Memories that have just been made: all cleared, no ROM, the boot ROM
    /// hidden, ROM bank 1 in the switchable window.
    pub open spec fn fresh() -> MemoryView {
        MemoryView {
            boot_rom: Seq::new(0x100, |i: int| 0u8),
            rom: Seq::empty(),
            ext_ram: Seq::new(0x8000, |i: int| 0u8),
            wram_0: Seq::new(0x1000, |i: int| 0u8),
            wram_n: Seq::new(0x1000, |i: int| 0u8),
            hram: Seq::new(0x7F, |i: int| 0u8),
            expose_boot_rom: false,
            cartridge_type: 0,
            mbc: MBC { rom_bank: 1, ram_bank: 0, enable_ext_ram: false, mode: MBCMode::ROM },
        }
    }

    /// Whether the cartridge has a bank controller.
    pub open spec fn banked(self) -> bool {
        1 <= self.cartridge_type <= 3
    }

    /// Whether the cartridge has external RAM behind the enable latch and
    /// the banking-mode switch.
    pub open spec fn ram_controlled(self) -> bool {
        2 <= self.cartridge_type <= 3
    }

    /// Offset in the ROM image of the bank shown at `0x4000..=0x7FFF`.
    pub open spec fn rom_offset(self) -> int {
        self.mbc.rom_bank * 0x4000
    }

    /// Offset in external RAM of the bank shown at `0xA000..=0xBFFF`.
    pub open spec fn ram_offset(self) -> int {
        (self.mbc.ram_bank % 4) * 0x2000
    }

    /// Whether external RAM answers: always on a cartridge without a bank
    /// controller, and only while the enable latch is set on one with it.
    pub open spec fn ram_open(self) -> bool {
        !self.banked() || self.mbc.enable_ext_ram
    }

    /// The byte read at `address`.
    pub open spec fn read(self, address: u16) -> u8 {
        if address <= 0x00FF {
            if self.expose_boot_rom {
                self.boot_rom[address as int]
            } else {
                rom_byte(self.rom, address as int)
            }
        } else if address <= 0x3FFF {
            rom_byte(self.rom, address as int)
        } else if address <= 0x7FFF {
            rom_byte(self.rom, self.rom_offset() + (address - 0x4000))
        } else if 0xA000 <= address <= 0xBFFF {
            if self.ram_open() {
                self.ext_ram[self.ram_offset() + (address - 0xA000)]
            } else {
                0xFF
            }
        } else if 0xC000 <= address <= 0xCFFF {
            self.wram_0[address - 0xC000]
        } else if 0xD000 <= address <= 0xDFFF {
            self.wram_n[address - 0xD000]
        } else if 0xFF80 <= address <= 0xFFFE {
            self.hram[address - 0xFF80]
        } else {
            0xFF
        }
    }

    /// The bank controller after a write of `val` at `address` in the
    /// control ranges `0x0000..=0x7FFF`.
    pub open spec fn control(self, address: u16, val: u8) -> MBC {
        if address <= 0x1FFF {
            if self.ram_controlled() {
                MBC { enable_ext_ram: val % 16 == 0x0A, ..self.mbc }
            } else {
                self.mbc
            }
        } else if address <= 0x3FFF {
            if self.banked() {
                MBC { rom_bank: with_low_bank(self.mbc.rom_bank, val), ..self.mbc }
            } else {
                self.mbc
            }
        } else if address <= 0x5FFF {
            if self.banked() {
                match self.mbc.mode {
                    MBCMode::RAM => MBC { ram_bank: val % 4, ..self.mbc },
                    MBCMode::ROM => MBC {
                        rom_bank: with_high_bank(self.mbc.rom_bank, val),
                        ..self.mbc
                    },
                }
            } else {
                self.mbc
            }
        } else {
            if self.ram_controlled() {
                MBC {
                    mode: if val % 2 == 1 {
                        MBCMode::RAM
                    } else {
                        MBCMode::ROM
                    },
                    ..self.mbc
                }
            } else {
                self.mbc
            }
        }
    }

    /// The memories after a write of `val` at `address`. Writes into the ROM
    /// area reach the bank controller; writes to closed external RAM and to
    /// addresses that no memory answers are dropped.
    pub open spec fn write(self, address: u16, val: u8) -> MemoryView {
        if address <= 0x7FFF {
            MemoryView { mbc: self.control(address, val), ..self }
        } else if 0xA000 <= address <= 0xBFFF {
            if self.ram_open() {
                MemoryView {
                    ext_ram: self.ext_ram.update(self.ram_offset() + (address - 0xA000), val),
                    ..self
                }
            } else {
                self
            }
        } else if 0xC000 <= address <= 0xCFFF {
            MemoryView { wram_0: self.wram_0.update(address - 0xC000, val), ..self }
        } else if 0xD000 <= address <= 0xDFFF {
            MemoryView { wram_n: self.wram_n.update(address - 0xD000, val), ..self }
        } else if 0xFF80 <= address <= 0xFFFE {
            MemoryView { hram: self.hram.update(address - 0xFF80, val), ..self }
        } else {
            self
        }
    }

    /// Whether the window at `0x4000..=0x7FFF` shows a bank other than those
    /// whose low five bits are zero; in particular it never shows bank 0.
    pub open spec fn window_ok(self) -> bool {
        self.mbc.rom_bank % 32 != 0
    }
}

impl View for Memory {
    type V = MemoryView;

    closed spec fn view(&self) -> MemoryView {
        MemoryView {
            boot_rom: self.boot_rom@,
            rom: self.rom@,
            ext_ram: self.ext_ram@,
            wram_0: self.wram_0@,
            wram_n: self.wram_n@,
            hram: self.hram@,
            expose_boot_rom: self.expose_boot_rom,
            cartridge_type: self.cartridge_type,
            mbc: self.mbc_internal,
        }
    }
}

/// A write of zero to the lower bank-select register selects bank 1, and no
/// write to it selects a bank whose low five bits are zero.
pub proof fn lemma_low_bank_never_zero(bank: u8, val: u8)
    ensures
        with_low_bank(bank, val) % 32 != 0,
        with_low_bank(bank, val) != 0,
        val % 32 == 0 ==> with_low_bank(bank, val) % 32 == 1,
        val % 32 != 0 ==> with_low_bank(bank, val) % 32 == val % 32,
        with_low_bank(bank, val) / 32 == bank / 32 % 4,
{
}

/// No write makes the switchable window show bank 0: once the low five bits
/// of the bank number are non-zero they stay so, whatever is written where.
pub proof fn lemma_window_never_bank_zero(m: MemoryView, address: u16, val: u8)
    requires
        m.window_ok(),
    ensures
        m.write(address, val).window_ok(),
        m.write(address, val).mbc.rom_bank != 0,
{
}

/// A write of raw value 0 (or any value whose low five bits are zero) to the
/// lower bank-select range of a cartridge with a bank controller selects
/// bank 1 in the low five bits.
pub proof fn lemma_bank_zero_selects_one(m: MemoryView, address: u16, val: u8)
    requires
        m.banked(),
        0x2000 <= address <= 0x3FFF,
        val % 32 == 0,
    ensures
        m.write(address, val).mbc.rom_bank % 32 == 1,
        m.write(address, val).rom_offset() >= 0x4000,
{
}

impl Memory {
    /// Cleared memories, no ROM, the boot ROM hidden, ROM bank 1 in the
    /// switchable window.
    pub fn new() -> (m: Memory)
        ensures
            m@ == MemoryView::fresh(),
    {
        let m = Memory {
            boot_rom: [0; 0x100],
            rom: Vec::new(),
            ext_ram: [0; 0x8000],
            wram_0: [0; 0x1000],
            wram_n: [0; 0x1000],
            hram: [0; 0x7F],
            expose_boot_rom: false,
            cartridge_type: 0,
            mbc_internal: MBC {
                rom_bank: 1,
                ram_bank: 0,
                enable_ext_ram: false,
                mode: MBCMode::ROM,
            },
        };
        proof {
            assert(m@.boot_rom =~= Seq::new(0x100, |i: int| 0u8));
            assert(m@.rom =~= Seq::empty());
            assert(m@.ext_ram =~= Seq::new(0x8000, |i: int| 0u8));
            assert(m@.wram_0 =~= Seq::new(0x1000, |i: int| 0u8));
            assert(m@.wram_n =~= Seq::new(0x1000, |i: int| 0u8));
            assert(m@.hram =~= Seq::new(0x7F, |i: int| 0u8));
        }
        m
    }

    /// The cartridge type taken from the ROM header.
    pub fn cartridge_type(&self) -> (t: u8)
        ensures
            t == self@.cartridge_type,
    {
        self.cartridge_type
    }

    /// Whether the boot ROM is mapped over the start of the address space.
    pub fn boot_rom_mapped(&self) -> (mapped: bool)
        ensures
            mapped == self@.expose_boot_rom,
    {
        self.expose_boot_rom
    }

    /// The state of the bank controller.
    pub fn mbc(&self) -> (mbc: MBC)
        ensures
            mbc == self@.mbc,
    {
        self.mbc_internal
    }

    fn rom_at(&self, index: usize) -> (b: u8)
        ensures
            b == rom_byte(self@.rom, index as int),
    {
        if index < self.rom.len() {
            self.rom[index]
        } else {
            OPEN_BUS
        }
    }

    /// The byte read at `address`.
    pub fn read_byte(&self, address: u16) -> (b: u8)
        ensures
            b == self@.read(address),
    {
        let mbc = self.mbc_internal;
        let banked = 1 <= self.cartridge_type && self.cartridge_type <= 3;
        match address {
            0..=0xff => {
                if self.expose_boot_rom {
                    self.boot_rom[address as usize]
                } else {
                    self.rom_at(address as usize)
                }
            },
            0x100..=0x3FFF => self.rom_at(address as usize),
            0x4000..=0x7FFF => self.rom_at(
                mbc.rom_bank as usize * 0x4000 + (address as usize - 0x4000),
            ),
            0xA000..=0xBFFF => {
                if !banked || mbc.enable_ext_ram {
                    self.ext_ram[(mbc.ram_bank % 4) as usize * 0x2000 + (address as usize
                        - 0xA000)]
                } else {
                    OPEN_BUS
                }
            },
            0xC000..=0xCFFF => self.wram_0[address as usize - 0xC000],
            0xD000..=0xDFFF => self.wram_n[address as usize - 0xD000],
            0xFF80..=0xFFFE => self.hram[address as usize - 0xFF80],
            _ => OPEN_BUS,
        }
    }

    fn set_mbc(&mut self, mbc: MBC)
        ensures
            final(self)@ == (MemoryView { mbc, ..old(self)@ }),
    {
        self.mbc_internal = mbc;
    }

    /// A write into the ROM area: it reaches the bank controller.
    fn write_control(&mut self, address: u16, val: u8)
        requires
            address <= 0x7FFF,
        ensures
            final(self)@ == (MemoryView {
                mbc: old(self)@.control(address, val),
                ..old(self)@
            }),
    {
        let mbc = self.mbc_internal;
        let banked = 1 <= self.cartridge_type && self.cartridge_type <= 3;
        let ram_controlled = 2 <= self.cartridge_type && self.cartridge_type <= 3;
        let next = if address <= 0x1FFF {
            if ram_controlled {
                MBC { enable_ext_ram: val % 16 == 0x0A, ..mbc }
            } else {
                mbc
            }
        } else if address <= 0x3FFF {
            if banked {
                let low = if val % 32 == 0 { 1 } else { val % 32 };
                MBC { rom_bank: (mbc.rom_bank / 32 % 4) * 32 + low, ..mbc }
            } else {
                mbc
            }
        } else if address <= 0x5FFF {
            if banked {
                match mbc.mode {
                    MBCMode::RAM => MBC { ram_bank: val % 4, ..mbc },
                    MBCMode::ROM => MBC { rom_bank: (val % 4) * 32 + mbc.rom_bank % 32, ..mbc },
                }
            } else {
                mbc
            }
        } else {
            if ram_controlled {
                MBC { mode: if val % 2 == 1 { MBCMode::RAM } else { MBCMode::ROM }, ..mbc }
            } else {
                mbc
            }
        };
        self.set_mbc(next);
    }

    fn write_ext_ram(&mut self, index: usize, val: u8)
        requires
            index < 0x8000,
        ensures
            final(self)@ == (MemoryView {
                ext_ram: old(self)@.ext_ram.update(index as int, val),
                ..old(self)@
            }),
    {
        self.ext_ram[index] = val;
    }

    fn write_wram_0(&mut self, index: usize, val: u8)
        requires
            index < 0x1000,
        ensures
            final(self)@ == (MemoryView {
                wram_0: old(self)@.wram_0.update(index as int, val),
                ..old(self)@
            }),
    {
        self.wram_0[index] = val;
    }

    fn write_wram_n(&mut self, index: usize, val: u8)
        requires
            index < 0x1000,
        ensures
            final(self)@ == (MemoryView {
                wram_n: old(self)@.wram_n.update(index as int, val),
                ..old(self)@
            }),
    {
        self.wram_n[index] = val;
    }

    fn write_hram(&mut self, index: usize, val: u8)
        requires
            index < 0x7F,
        ensures
            final(self)@ == (MemoryView {
                hram: old(self)@.hram.update(index as int, val),
                ..old(self)@
            }),
    {
        self.hram[index] = val;
    }

    /// Stores `val` at `address`.
    pub fn write_byte(&mut self, address: u16, val: u8)
        ensures
            final(self)@ == old(self)@.write(address, val),
    {
        let mbc = self.mbc_internal;
        let banked = 1 <= self.cartridge_type && self.cartridge_type <= 3;
        match address {
            0..=0x7FFF => self.write_control(address, val),
            0xA000..=0xBFFF => {
                if !banked || mbc.enable_ext_ram {
                    self.write_ext_ram(
                        (mbc.ram_bank % 4) as usize * 0x2000 + (address as usize - 0xA000),
                        val,
                    );
                }
            },
            0xC000..=0xCFFF => self.write_wram_0(address as usize - 0xC000, val),
            0xD000..=0xDFFF => self.write_wram_n(address as usize - 0xD000, val),
            0xFF80..=0xFFFE => self.write_hram(address as usize - 0xFF80, val),
            _ => {},
        }
    }

    /// Installs a ROM image and takes the cartridge type from its header.
    /// An image too short to hold the header is refused and nothing changes.
    pub fn read_rom(&mut self, rom: Vec<u8>) -> (r: Result<(), &'static str>)
        ensures
            r is Ok <==> rom@.len() > 0x0147,
            r is Ok ==> final(self)@ == (MemoryView {
                rom: rom@,
                cartridge_type: rom@[0x0147],
                ..old(self)@
            }),
            r is Err ==> final(self)@ == old(self)@,
            r is Err ==> r == Err::<(), &'static str>("rom image has no header"),
    {
        if rom.len() <= CARTRIDGE_TYPE_OFFSET {
            return Err("rom image has no header");
        }
        self.cartridge_type = rom[CARTRIDGE_TYPE_OFFSET];
        self.rom = rom;
        Ok(())
    }

    /// Installs a boot ROM of exactly 256 bytes and maps it over the start
    /// of the address space. An image of another size is refused and nothing
    /// changes.
    pub fn read_boot_rom(&mut self, image: &Vec<u8>) -> (r: Result<(), &'static str>)
        ensures
            r is Ok <==> image@.len() == 0x100,
            r is Ok ==> final(self)@ == (MemoryView {
                boot_rom: image@,
                expose_boot_rom: true,
                ..old(self)@
            }),
            r is Err ==> final(self)@ == old(self)@,
            r is Err ==> r == Err::<(), &'static str>("boot rom is not 256 bytes long"),
    {
        if image.len() != 0x100 {
            return Err("boot rom is not 256 bytes long");
        }
        let mut i: usize = 0;
        while i < 0x100
            invariant
                i <= 0x100,
                image@.len() == 0x100,
                self@ == (MemoryView { boot_rom: self@.boot_rom, ..old(self)@ }),
                self@.boot_rom.len() == 0x100,
                forall|j: int| 0 <= j < i ==> self@.boot_rom[j] == image@[j],
            decreases 0x100 - i,
        {
            self.boot_rom[i] = image[i];
            i += 1;
        }
        self.expose_boot_rom = true;
        proof {
            assert(self@.boot_rom =~= image@);
        }
        Ok(())
    }

    /// Hides the boot ROM for good: the ROM image shows through again.
    pub fn hide_boot_rom(&mut self)
        ensures
            final(self)@ == (MemoryView { expose_boot_rom: false, ..old(self)@ }),
    {
        self.expose_boot_rom = false;
    }
}

} // verus!
