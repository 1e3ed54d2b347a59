//! The MBC3 bank controller: a 7-bit ROM-bank register (0 selects 1, then
//! wraps modulo the bank count), a selector that picks either a RAM bank
//! (values 0-7) or one of five real-time-clock sub-registers (0x08-0x0C),
//! and a latch flip-flop toggled by a 0-then-1 write sequence. The enable
//! latch gates RAM and RTC access alike.

use vstd::prelude::*;

use crate::buffer::zeroed_bytes;
use crate::cartridge::lemma_mask_bounds;
use crate::cartridge::Cartridge;
use crate::cartridge::RAM_BANK_SIZE;
use crate::cartridge::ROM_BANK_SIZE;

verus! {

/// Bounds of the 9-bit day counter under its two partial writes.
proof fn lemma_day_bounds()
    by (bit_vector)
    ensures
        forall|d: u16, v: u8| #[trigger] ((d & 0x0100) | (v as u16)) < 512,
        forall|d: u16, v: u8| #[trigger] ((d & 0x00FF) | (((v & 0x01) as u16) << 8)) < 512,
{
}

/// The real-time-clock register set: raw register state only; advancing it
/// in real time is out of scope.
#[derive(Clone, Copy, Debug, PartialEq, Eq, Structural)]
pub struct RTCRegister {
    pub seconds: u8,
    pub minutes: u8,
    pub hours: u8,
    /// 9-bit day counter.
    pub days: u16,
    pub halt: bool,
    pub day_carry: bool,
}

impl RTCRegister {
    pub open spec fn wf(self) -> bool {
        &&& self.seconds < 60
        &&& self.minutes < 60
        &&& self.hours < 24
        &&& self.days < 512
    }

    pub open spec fn zeroed() -> RTCRegister {
        RTCRegister { seconds: 0u8, minutes: 0u8, hours: 0u8, days: 0u16, halt: false, day_carry: false }
    }
}

/// The control registers of the MBC3 chip.
#[derive(Clone, Copy, Debug, PartialEq, Eq, Structural)]
pub struct MBC3Registers {
    /// Gates both RAM and RTC access.
    pub ram_timer_enable: bool,
    /// 7-bit ROM bank number, already wrapped modulo the bank count.
    pub rom_bank_number: u8,
    /// RAM-bank-or-RTC selector: 0-7 a RAM bank, 0x08-0x0C an RTC register.
    pub ram_bank_number: u8,
    /// Last value written to the latch-clock register.
    pub latch_clock: u8,
    /// Flip-flop toggled by a 0-then-1 latch-clock write sequence.
    pub clock_latched: bool,
    pub rtc: RTCRegister,
    /// Whether the selector currently names a RAM bank rather than an RTC
    /// sub-register.
    pub ram_over_rtc: bool,
}

impl MBC3Registers {
    pub open spec fn wf(self) -> bool {
        &&& self.ram_bank_number <= 0x0C
        &&& self.rtc.wf()
    }

    pub open spec fn zeroed() -> MBC3Registers {
        MBC3Registers {
            ram_timer_enable: false,
            rom_bank_number: 0u8,
            ram_bank_number: 0u8,
            latch_clock: 0u8,
            clock_latched: false,
            rtc: RTCRegister::zeroed(),
            ram_over_rtc: false,
        }
    }
}

/// The ROM bank stored by a bank-select write: a written 0 means 1, the low
/// seven bits are kept, and the result wraps modulo the total bank count —
/// the hardware wraparound reproduced on purpose.
pub open spec fn mbc3_rom_bank_select(val: u8, rom_banks: int) -> u8 {
    (((if val == 0 { 1u8 } else { val }) & 0x7F) as int % rom_banks) as u8
}

/// One write to the RTC sub-register the selector names. Seconds and minutes
/// wrap modulo 60, hours modulo 24; the day counter takes its low byte from
/// selector 0x0B and its high bit, halt and carry flags from selector 0x0C.
pub open spec fn mbc3_rtc_write(rtc: RTCRegister, selector: u8, val: u8) -> RTCRegister {
    if selector == 0x08 {
        RTCRegister { seconds: val % 60, ..rtc }
    } else if selector == 0x09 {
        RTCRegister { minutes: val % 60, ..rtc }
    } else if selector == 0x0A {
        RTCRegister { hours: val % 24, ..rtc }
    } else if selector == 0x0B {
        RTCRegister { days: (rtc.days & 0x0100) | (val as u16), ..rtc }
    } else if selector == 0x0C {
        RTCRegister {
            halt: (val & 0x40) > 0,
            day_carry: (val & 0x80) > 0,
            days: (rtc.days & 0x00FF) | (((val & 0x01) as u16) << 8),
            ..rtc
        }
    } else {
        rtc
    }
}

/// Law: RTC sub-register writes wrap into the register's real-time range —
/// seconds and minutes modulo 60, hours modulo 24.
pub proof fn lemma_mbc3_rtc_write_wraps(rtc: RTCRegister, selector: u8, val: u8)
    ensures
        selector == 0x08 ==> mbc3_rtc_write(rtc, selector, val).seconds == val % 60,
        selector == 0x09 ==> mbc3_rtc_write(rtc, selector, val).minutes == val % 60,
        selector == 0x0A ==> mbc3_rtc_write(rtc, selector, val).hours == val % 24,
{
}

#[derive(Debug)]
pub struct MBC3Cartridge {
    pub rom: Vec<u8>,
    pub ram: Option<Vec<u8>>,
    pub registers: MBC3Registers,
    pub has_battery: bool,
    pub rom_banks: usize,
}

/// Whether the backing RAM, if any, is unchanged between two states.
pub open spec fn mbc3_ram_unchanged(pre: MBC3Cartridge, post: MBC3Cartridge) -> bool {
    match (pre.ram, post.ram) {
        (Some(a), Some(b)) => b@ == a@,
        (None, None) => true,
        _ => false,
    }
}

/// How one MBC3 write relates the state before and after.
pub open spec fn mbc3_write_rel(pre: MBC3Cartridge, post: MBC3Cartridge, address: u16, val: u8) -> bool {
    &&& post.rom@ == pre.rom@
    &&& post.rom_banks == pre.rom_banks
    &&& post.has_battery == pre.has_battery
    &&& if address < 0x2000 {
        &&& post.registers == MBC3Registers { ram_timer_enable: (val & 0x0F) == 0x0A, ..pre.registers }
        &&& mbc3_ram_unchanged(pre, post)
    } else if address < 0x4000 {
        &&& post.registers == MBC3Registers {
            rom_bank_number: mbc3_rom_bank_select(val, pre.rom_banks as int),
            ..pre.registers
        }
        &&& mbc3_ram_unchanged(pre, post)
    } else if address < 0x6000 {
        &&& if val <= 0x0C {
            post.registers == MBC3Registers {
                ram_bank_number: val,
                ram_over_rtc: val <= 7,
                ..pre.registers
            }
        } else {
            post.registers == pre.registers
        }
        &&& mbc3_ram_unchanged(pre, post)
    } else if address < 0x8000 {
        &&& post.registers == MBC3Registers {
            latch_clock: val,
            clock_latched: if pre.registers.latch_clock == 0 && val == 1 {
                !pre.registers.clock_latched
            } else {
                pre.registers.clock_latched
            },
            ..pre.registers
        }
        &&& mbc3_ram_unchanged(pre, post)
    } else {
        if !pre.registers.ram_timer_enable {
            &&& post.registers == pre.registers
            &&& mbc3_ram_unchanged(pre, post)
        } else if pre.registers.ram_over_rtc {
            &&& post.registers == pre.registers
            &&& match (pre.ram, post.ram) {
                (Some(a), Some(b)) => b@ == a@.update(
                    address - 0xA000 + pre.spec_ram_bank() * RAM_BANK_SIZE,
                    val,
                ),
                (None, None) => true,
                _ => false,
            }
        } else {
            &&& post.registers == MBC3Registers {
                rtc: mbc3_rtc_write(pre.registers.rtc, pre.registers.ram_bank_number, val),
                ..pre.registers
            }
            &&& mbc3_ram_unchanged(pre, post)
        }
    }
}

impl MBC3Cartridge {
    pub open spec fn wf(self) -> bool {
        &&& self.registers.wf()
        &&& 1 <= self.rom_banks <= 512
        &&& self.rom@.len() == self.rom_banks * ROM_BANK_SIZE
        &&& self.registers.rom_bank_number < self.rom_banks
        &&& match self.ram {
            Some(r) => {
                &&& r@.len() as int % (RAM_BANK_SIZE as int) == 0
                &&& RAM_BANK_SIZE <= r@.len() <= 16 * RAM_BANK_SIZE
            },
            None => true,
        }
    }

    /// The RAM bank the selector names, wrapped modulo the bank count of the
    /// backing RAM.
    pub open spec fn spec_ram_bank(self) -> int {
        match self.ram {
            Some(r) => (self.registers.ram_bank_number as int) % (r@.len() as int / (RAM_BANK_SIZE as int)),
            None => 0,
        }
    }

    pub open spec fn spec_read(self, address: u16) -> u8 {
        if address < 0x4000 {
            self.rom@[address as int]
        } else if address < 0x8000 {
            self.rom@[address - 0x4000 + self.registers.rom_bank_number * ROM_BANK_SIZE]
        } else if !self.registers.ram_timer_enable {
            0xFFu8
        } else if self.registers.ram_over_rtc {
            match self.ram {
                Some(r) => r@[address - 0xA000 + self.spec_ram_bank() * RAM_BANK_SIZE],
                None => 0xFFu8,
            }
        } else {
            let selector = self.registers.ram_bank_number;
            if selector == 0x08 {
                self.registers.rtc.seconds
            } else if selector == 0x09 {
                self.registers.rtc.minutes
            } else if selector == 0x0A {
                self.registers.rtc.hours
            } else if selector == 0x0B {
                (self.registers.rtc.days % 256) as u8
            } else if selector == 0x0C {
                ((self.registers.rtc.days / 256) as u8)
                | (if self.registers.rtc.halt { 0x40u8 } else { 0u8 })
                | (if self.registers.rtc.day_carry { 0x80u8 } else { 0u8 })
            } else {
                0xFFu8
            }
        }
    }

    pub fn new(rom: Vec<u8>, ram_banks: Option<usize>, has_battery: bool) -> (r: MBC3Cartridge)
        requires
            rom@.len() as int % (ROM_BANK_SIZE as int) == 0,
            ROM_BANK_SIZE <= rom@.len() <= 512 * ROM_BANK_SIZE,
            ram_banks matches Some(n) ==> 1 <= n <= 16,
        ensures
            r.wf(),
            r.rom@ == rom@,
            r.rom_banks == rom@.len() as int / (ROM_BANK_SIZE as int),
            r.has_battery == has_battery,
            r.registers == MBC3Registers::zeroed(),
            (r.ram is Some <==> ram_banks is Some),
            ram_banks matches Some(n) ==> r.ram.unwrap()@.len() == n * RAM_BANK_SIZE,
    {
        let rom_banks = rom.len() / ROM_BANK_SIZE;
        proof {
            assert(rom@.len() == (rom@.len() as int / (ROM_BANK_SIZE as int)) * ROM_BANK_SIZE) by (nonlinear_arith)
                requires
                    rom@.len() as int % (ROM_BANK_SIZE as int) == 0,
                    rom@.len() >= 0,
            ;
        }
        MBC3Cartridge {
            rom,
            ram: match ram_banks {
                Some(n) => Some(zeroed_bytes(n * RAM_BANK_SIZE)),
                None => None,
            },
            registers: MBC3Registers {
                ram_timer_enable: false,
                rom_bank_number: 0,
                ram_bank_number: 0,
                latch_clock: 0,
                clock_latched: false,
                rtc: RTCRegister { seconds: 0, minutes: 0, hours: 0, days: 0, halt: false, day_carry: false },
                ram_over_rtc: false,
            },
            has_battery,
            rom_banks,
        }
    }

    /// A controller over an all-zero two-bank image with no RAM and no
    /// battery.
    pub fn new_and_empty() -> (r: MBC3Cartridge)
        ensures
            r.wf(),
            r.rom_banks == 2,
            r.ram is None,
            r.registers == MBC3Registers::zeroed(),
    {
        MBC3Cartridge {
            rom: zeroed_bytes(2 * ROM_BANK_SIZE),
            ram: None,
            registers: MBC3Registers {
                ram_timer_enable: false,
                rom_bank_number: 0,
                ram_bank_number: 0,
                latch_clock: 0,
                clock_latched: false,
                rtc: RTCRegister { seconds: 0, minutes: 0, hours: 0, days: 0, halt: false, day_carry: false },
                ram_over_rtc: false,
            },
            has_battery: false,
            rom_banks: 2,
        }
    }

    pub fn read_byte(&self, address: u16) -> (r: u8)
        requires
            self.wf(),
            address < 0x8000 || (0xA000 <= address && address < 0xC000),
        ensures
            r == self.spec_read(address),
    {
        if address < 0x4000 {
            self.rom[address as usize]
        } else if address < 0x8000 {
            let bank: usize = self.registers.rom_bank_number as usize;
            assert(bank * ROM_BANK_SIZE + ROM_BANK_SIZE <= self.rom_banks * ROM_BANK_SIZE)
                by (nonlinear_arith)
                requires
                    bank < self.rom_banks,
            ;
            let idx: usize = (address as usize - 0x4000) + bank * ROM_BANK_SIZE;
            self.rom[idx]
        } else if !self.registers.ram_timer_enable {
            0xFF
        } else if self.registers.ram_over_rtc {
            match &self.ram {
                Some(ram) => {
                    let banks: usize = ram.len() / RAM_BANK_SIZE;
                    let bank: usize = (self.registers.ram_bank_number as usize) % banks;
                    proof {
                        assert(ram@.len() == (ram@.len() as int / (RAM_BANK_SIZE as int)) * RAM_BANK_SIZE)
                            by (nonlinear_arith)
                            requires
                                ram@.len() as int % (RAM_BANK_SIZE as int) == 0,
                                ram@.len() >= 0,
                        ;
                        assert(bank * RAM_BANK_SIZE + RAM_BANK_SIZE <= banks * RAM_BANK_SIZE)
                            by (nonlinear_arith)
                            requires
                                bank < banks,
                        ;
                    }
                    let idx: usize = (address as usize - 0xA000) + bank * RAM_BANK_SIZE;
                    ram[idx]
                },
                None => 0xFF,
            }
        } else {
            let selector = self.registers.ram_bank_number;
            if selector == 0x08 {
                self.registers.rtc.seconds
            } else if selector == 0x09 {
                self.registers.rtc.minutes
            } else if selector == 0x0A {
                self.registers.rtc.hours
            } else if selector == 0x0B {
                (self.registers.rtc.days % 256) as u8
            } else if selector == 0x0C {
                ((self.registers.rtc.days / 256) as u8)
                | (if self.registers.rtc.halt { 0x40u8 } else { 0u8 })
                | (if self.registers.rtc.day_carry { 0x80u8 } else { 0u8 })
            } else {
                0xFF
            }
        }
    }

    pub fn write_byte(&mut self, address: u16, val: u8)
        requires
            old(self).wf(),
            address < 0x8000 || (0xA000 <= address && address < 0xC000),
        ensures
            final(self).wf(),
            mbc3_write_rel(*old(self), *final(self), address, val),
    {
        proof {
            lemma_mask_bounds();
            lemma_day_bounds();
        }
        if address < 0x2000 {
            self.registers.ram_timer_enable = (val & 0x0F) == 0x0A;
        } else if address < 0x4000 {
            let raw: u8 = if val == 0 { 1 } else { val };
            let masked: u8 = raw & 0x7F;
            let bank: usize = (masked as usize) % self.rom_banks;
            assert(bank < 128 && bank < self.rom_banks) by (nonlinear_arith)
                requires
                    bank == (masked as usize) % self.rom_banks,
                    masked < 128,
                    1 <= self.rom_banks,
            ;
            self.registers.rom_bank_number = bank as u8;
        } else if address < 0x6000 {
            if val <= 0x0C {
                self.registers.ram_bank_number = val;
                self.registers.ram_over_rtc = val <= 7;
            }
        } else if address < 0x8000 {
            if self.registers.latch_clock == 0 && val == 1 {
                self.registers.clock_latched = !self.registers.clock_latched;
            }
            self.registers.latch_clock = val;
        } else {
            if !self.registers.ram_timer_enable {
                // dropped: the enable latch gates RAM and RTC writes alike
            } else if self.registers.ram_over_rtc {
                let sel: usize = self.registers.ram_bank_number as usize;
                match &mut self.ram {
                    Some(ram) => {
                        let banks: usize = ram.len() / RAM_BANK_SIZE;
                        let bank: usize = sel % banks;
                        proof {
                            let rlen = ram@.len() as int;
                            assert(rlen == (rlen / (RAM_BANK_SIZE as int)) * RAM_BANK_SIZE)
                                by (nonlinear_arith)
                                requires
                                    rlen % (RAM_BANK_SIZE as int) == 0,
                                    rlen >= 0,
                            ;
                            assert(bank * RAM_BANK_SIZE + RAM_BANK_SIZE <= banks * RAM_BANK_SIZE)
                                by (nonlinear_arith)
                                requires
                                    bank < banks,
                            ;
                        }
                        let idx: usize = (address as usize - 0xA000) + bank * RAM_BANK_SIZE;
                        ram[idx] = val;
                    },
                    None => {},
                }
            } else {
                let selector = self.registers.ram_bank_number;
                if selector == 0x08 {
                    self.registers.rtc.seconds = val % 60;
                } else if selector == 0x09 {
                    self.registers.rtc.minutes = val % 60;
                } else if selector == 0x0A {
                    self.registers.rtc.hours = val % 24;
                } else if selector == 0x0B {
                    self.registers.rtc.days = (self.registers.rtc.days & 0x0100) | (val as u16);
                } else if selector == 0x0C {
                    self.registers.rtc.halt = (val & 0x40) > 0;
                    self.registers.rtc.day_carry = (val & 0x80) > 0;
                    self.registers.rtc.days =
                        (self.registers.rtc.days & 0x00FF) | (((val & 0x01) as u16) << 8);
                }
            }
        }
    }
}

impl Cartridge for MBC3Cartridge {
    open spec fn valid(&self) -> bool {
        MBC3Cartridge::wf(*self)
    }

    fn read_byte(&self, address: u16) -> u8 {
        MBC3Cartridge::read_byte(self, address)
    }

    fn write_byte(&mut self, address: u16, val: u8) {
        MBC3Cartridge::write_byte(self, address, val)
    }

    fn tick(&mut self) {
    }
}

} // verus!
