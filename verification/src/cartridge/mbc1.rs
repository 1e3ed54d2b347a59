//! The MBC1 bank controller: a 5-bit ROM-bank-number register (a written
//! value of 0 selects bank 1), a 2-bit secondary-bank register, and a 1-bit
//! mode select that decides whether the secondary bank extends the ROM
//! address (mode 0) or selects a RAM bank (mode 1). RAM access requires a
//! prior enable write whose low nibble is 0xA.

use vstd::prelude::*;

use crate::buffer::zeroed_bytes;
use crate::cartridge::lemma_mask_bounds;
use crate::cartridge::Cartridge;
use crate::cartridge::RAM_BANK_SIZE;
use crate::cartridge::ROM_BANK_SIZE;

verus! {

/// The control registers of the MBC1 chip.
#[derive(Clone, Copy, Debug, PartialEq, Eq, Structural)]
pub struct MBC1Registers {
    /// Writes to RAM are honoured only while this latch is set.
    pub ram_enable: bool,
    /// 5-bit ROM bank number; a bank-select write of 0 stores 1.
    pub rom_bank_number: u8,
    /// 2-bit secondary bank register.
    pub secondary_bank: u8,
    /// 1-bit mode select: 0 extends the ROM address, 1 selects a RAM bank.
    pub banking_mode_select: u8,
}

impl MBC1Registers {
    pub open spec fn wf(self) -> bool {
        &&& self.rom_bank_number < 32
        &&& self.secondary_bank < 4
        &&& self.banking_mode_select < 2
    }

    pub open spec fn zeroed() -> MBC1Registers {
        MBC1Registers {
            ram_enable: false,
            rom_bank_number: 0u8,
            secondary_bank: 0u8,
            banking_mode_select: 0u8,
        }
    }
}

/// The ROM bank number stored by a bank-select write: the low five bits of
/// the written value, except that 0 selects bank 1 — a hardware quirk
/// reproduced on purpose.
pub open spec fn mbc1_rom_bank_select(val: u8) -> u8 {
    if val & 0x1F == 0 {
        1u8
    } else {
        val & 0x1F
    }
}

/// Law: a ROM-bank-select write never stores bank 0; in particular a written
/// value of 0 selects bank 1.
pub proof fn lemma_mbc1_bank_select_never_zero(val: u8)
    ensures
        mbc1_rom_bank_select(val) >= 1,
        val & 0x1F == 0 ==> mbc1_rom_bank_select(val) == 1,
{
}

#[derive(Debug)]
pub struct MBC1Cartridge {
    pub rom: Vec<u8>,
    pub ram: Vec<u8>,
    pub registers: MBC1Registers,
    pub rom_banks: usize,
    pub ram_banks: usize,
}

/// How one MBC1 write relates the state before and after: writes below
/// 0x8000 set control registers, writes in the external-RAM window land in
/// the selected RAM bank when RAM is enabled and are dropped otherwise.
pub open spec fn mbc1_write_rel(pre: MBC1Cartridge, post: MBC1Cartridge, address: u16, val: u8) -> bool {
    &&& post.rom@ == pre.rom@
    &&& post.rom_banks == pre.rom_banks
    &&& post.ram_banks == pre.ram_banks
    &&& if address < 0x2000 {
        &&& post.registers == MBC1Registers { ram_enable: (val & 0x0F) == 0x0A, ..pre.registers }
        &&& post.ram@ == pre.ram@
    } else if address < 0x4000 {
        &&& post.registers == MBC1Registers { rom_bank_number: mbc1_rom_bank_select(val), ..pre.registers }
        &&& post.ram@ == pre.ram@
    } else if address < 0x6000 {
        &&& post.registers == MBC1Registers { secondary_bank: val & 0x03, ..pre.registers }
        &&& post.ram@ == pre.ram@
    } else if address < 0x8000 {
        &&& post.registers == MBC1Registers { banking_mode_select: val & 0x01, ..pre.registers }
        &&& post.ram@ == pre.ram@
    } else {
        &&& post.registers == pre.registers
        &&& if pre.registers.ram_enable && pre.ram_banks > 0 {
            post.ram@ == pre.ram@.update(
                address - 0xA000 + pre.spec_effective_ram_bank() * RAM_BANK_SIZE,
                val,
            )
        } else {
            post.ram@ == pre.ram@
        }
    }
}

impl MBC1Cartridge {
    pub open spec fn wf(self) -> bool {
        &&& self.registers.wf()
        &&& 1 <= self.rom_banks <= 512
        &&& self.ram_banks <= 16
        &&& self.rom@.len() == self.rom_banks * ROM_BANK_SIZE
        &&& self.ram@.len() == self.ram_banks * RAM_BANK_SIZE
    }

    /// The ROM bank the switchable window reads from: in mode 0 the
    /// secondary register extends the bank number by five bits; the result
    /// wraps modulo the total bank count.
    pub open spec fn spec_effective_rom_bank(self) -> int {
        (self.registers.rom_bank_number as int
            + if self.registers.banking_mode_select == 0 {
                self.registers.secondary_bank as int * 32
            } else {
                0
            }) % (self.rom_banks as int)
    }

    /// The RAM bank the external-RAM window uses: the secondary register in
    /// mode 1, bank 0 in mode 0, wrapped modulo the RAM bank count.
    pub open spec fn spec_effective_ram_bank(self) -> int {
        if self.registers.banking_mode_select == 1 {
            (self.registers.secondary_bank as int) % (self.ram_banks as int)
        } else {
            0
        }
    }

    pub open spec fn spec_read(self, address: u16) -> u8 {
        if address < 0x4000 {
            self.rom@[address as int]
        } else if address < 0x8000 {
            self.rom@[address - 0x4000 + self.spec_effective_rom_bank() * ROM_BANK_SIZE]
        } else if self.registers.ram_enable && self.ram_banks > 0 {
            self.ram@[address - 0xA000 + self.spec_effective_ram_bank() * RAM_BANK_SIZE]
        } else {
            0xFFu8
        }
    }

    pub fn new(rom: Vec<u8>, ram_banks: usize, rom_banks: usize) -> (r: MBC1Cartridge)
        requires
            rom@.len() == rom_banks * ROM_BANK_SIZE,
            1 <= rom_banks <= 512,
            ram_banks <= 16,
        ensures
            r.wf(),
            r.rom@ == rom@,
            r.rom_banks == rom_banks,
            r.ram_banks == ram_banks,
            r.ram@.len() == ram_banks * RAM_BANK_SIZE,
            forall|i: int| 0 <= i < r.ram@.len() ==> r.ram@[i] == 0u8,
            r.registers == MBC1Registers::zeroed(),
    {
        MBC1Cartridge {
            rom,
            ram: zeroed_bytes(ram_banks * RAM_BANK_SIZE),
            registers: MBC1Registers {
                ram_enable: false,
                rom_bank_number: 0,
                secondary_bank: 0,
                banking_mode_select: 0,
            },
            rom_banks,
            ram_banks,
        }
    }

    /// A controller over an all-zero two-bank image with no RAM.
    pub fn new_and_empty() -> (r: MBC1Cartridge)
        ensures
            r.wf(),
            r.rom_banks == 2,
            r.ram_banks == 0,
            r.registers == MBC1Registers::zeroed(),
    {
        MBC1Cartridge {
            rom: zeroed_bytes(2 * ROM_BANK_SIZE),
            ram: zeroed_bytes(0),
            registers: MBC1Registers {
                ram_enable: false,
                rom_bank_number: 0,
                secondary_bank: 0,
                banking_mode_select: 0,
            },
            rom_banks: 2,
            ram_banks: 0,
        }
    }

    pub fn read_byte(&self, address: u16) -> (r: u8)
        requires
            self.wf(),
            address < 0x8000 || (0xA000 <= address && address < 0xC000),
        ensures
            r == self.spec_read(address),
    {
        if address < 0x4000 {
            self.rom[address as usize]
        } else if address < 0x8000 {
            let mut bank: usize = self.registers.rom_bank_number as usize;
            if self.registers.banking_mode_select == 0 {
                bank = bank + (self.registers.secondary_bank as usize) * 32;
            }
            let bank: usize = bank % self.rom_banks;
            assert(bank * ROM_BANK_SIZE + ROM_BANK_SIZE <= self.rom_banks * ROM_BANK_SIZE)
                by (nonlinear_arith)
                requires
                    bank < self.rom_banks,
            ;
            let idx: usize = (address as usize - 0x4000) + bank * ROM_BANK_SIZE;
            self.rom[idx]
        } else {
            if self.registers.ram_enable && self.ram_banks > 0 {
                let bank: usize = if self.registers.banking_mode_select == 1 {
                    (self.registers.secondary_bank as usize) % self.ram_banks
                } else {
                    0
                };
                assert(bank * RAM_BANK_SIZE + RAM_BANK_SIZE <= self.ram_banks * RAM_BANK_SIZE)
                    by (nonlinear_arith)
                    requires
                        bank < self.ram_banks,
                ;
                let idx: usize = (address as usize - 0xA000) + bank * RAM_BANK_SIZE;
                self.ram[idx]
            } else {
                0xFF
            }
        }
    }

    pub fn write_byte(&mut self, address: u16, val: u8)
        requires
            old(self).wf(),
            address < 0x8000 || (0xA000 <= address && address < 0xC000),
        ensures
            final(self).wf(),
            mbc1_write_rel(*old(self), *final(self), address, val),
    {
        proof {
            lemma_mask_bounds();
        }
        if address < 0x2000 {
            self.registers.ram_enable = (val & 0x0F) == 0x0A;
        } else if address < 0x4000 {
            let masked = val & 0x1F;
            self.registers.rom_bank_number = if masked == 0 { 1 } else { masked };
        } else if address < 0x6000 {
            self.registers.secondary_bank = val & 0x03;
        } else if address < 0x8000 {
            self.registers.banking_mode_select = val & 0x01;
        } else {
            if self.registers.ram_enable && self.ram_banks > 0 {
                let bank: usize = if self.registers.banking_mode_select == 1 {
                    (self.registers.secondary_bank as usize) % self.ram_banks
                } else {
                    0
                };
                assert(bank * RAM_BANK_SIZE + RAM_BANK_SIZE <= self.ram_banks * RAM_BANK_SIZE)
                    by (nonlinear_arith)
                    requires
                        bank < self.ram_banks,
                ;
                let idx: usize = (address as usize - 0xA000) + bank * RAM_BANK_SIZE;
                self.ram[idx] = val;
            }
        }
    }
}

impl Cartridge for MBC1Cartridge {
    open spec fn valid(&self) -> bool {
        MBC1Cartridge::wf(*self)
    }

    fn read_byte(&self, address: u16) -> u8 {
        MBC1Cartridge::read_byte(self, address)
    }

    fn write_byte(&mut self, address: u16, val: u8) {
        MBC1Cartridge::write_byte(self, address, val)
    }

    fn tick(&mut self) {
    }
}

} // verus!
