//! The no-controller cartridge: a fixed 32 KiB ROM image, no RAM. Reads
//! return the raw byte at the address; writes are dropped.

use vstd::prelude::*;

use crate::buffer::zeroed_bytes;
use crate::cartridge::Cartridge;

verus! {

#[derive(Debug)]
pub struct BasicCartridge {
    pub data: Vec<u8>,
}

impl BasicCartridge {
    pub open spec fn wf(self) -> bool {
        self.data@.len() == 0x8000
    }

    pub open spec fn spec_read(self, address: u16) -> u8 {
        if address < 0x8000 {
            self.data@[address as int]
        } else {
            0xFFu8
        }
    }

    /// An empty (all-zero) 32 KiB image.
    pub fn new() -> (r: BasicCartridge)
        ensures
            r.wf(),
            forall|i: int| 0 <= i < 0x8000 ==> r.data@[i] == 0u8,
    {
        BasicCartridge { data: zeroed_bytes(0x8000) }
    }

    /// Wrap a full 32 KiB image.
    pub fn with_rom(rom: Vec<u8>) -> (r: BasicCartridge)
        requires
            rom@.len() == 0x8000,
        ensures
            r.wf(),
            r.data@ == rom@,
    {
        BasicCartridge { data: rom }
    }

    pub fn read_byte(&self, address: u16) -> (r: u8)
        requires
            self.wf(),
        ensures
            r == self.spec_read(address),
    {
        if address < 0x8000 {
            self.data[address as usize]
        } else {
            0xFF
        }
    }

    /// No RAM, just ROM: every write is dropped.
    pub fn write_byte(&mut self, _address: u16, _val: u8)
        ensures
            *final(self) == *old(self),
    {
    }
}

impl Cartridge for BasicCartridge {
    open spec fn valid(&self) -> bool {
        BasicCartridge::wf(*self)
    }

    fn read_byte(&self, address: u16) -> u8 {
        BasicCartridge::read_byte(self, address)
    }

    fn write_byte(&mut self, address: u16, val: u8) {
        BasicCartridge::write_byte(self, address, val)
    }

    fn tick(&mut self) {
    }
}

} // verus!
