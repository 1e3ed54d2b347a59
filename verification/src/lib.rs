//! A Game Boy emulator core: CPU, memory bus, cartridge bank controllers and
//! pixel-processing unit, with machine-checked contracts on the instruction
//! semantics, the memory map and the bank-switching rules.

pub mod buffer;
pub mod cartridge;
pub mod cpu;
pub mod gameboy;
pub mod hardware_registers;
pub mod instructions;
pub mod memory;
pub mod ppu;
pub mod registers;
