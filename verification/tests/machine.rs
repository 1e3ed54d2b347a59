use gb_core::gameboy::Gameboy;

/// A minimal 32 KiB no-controller image whose program loads 5 into A and
/// halts.
fn minimal_rom() -> Vec<u8> {
    let mut rom = vec![0u8; 0x8000];
    rom[0] = 0x3E; // LD A, d8
    rom[1] = 0x05;
    rom[2] = 0x76; // HALT
    rom
}

#[test]
fn test_roms() {
    let mut gb = Gameboy::new_and_empty(true);
    gb.load_cartridge(minimal_rom()).unwrap();
    gb.boot();
    // skip the boot ROM so that execution starts in cartridge ROM bank 0
    gb.cpu.bus.set_done_booting();
    gb.run();
    assert!(!gb.running);
    assert!(gb.cpu.is_halted);
    assert_eq!(gb.cpu.registers.a, 5);
    assert!(gb.stop_reason.is_none());
}

#[test]
fn test_end_to_end_halt_scenario() {
    let mut gb = Gameboy::new_and_empty(false);
    gb.load_cartridge(minimal_rom()).unwrap();
    gb.boot();
    gb.cpu.bus.set_done_booting();
    // first step: LD A, 5
    assert_eq!(gb.cpu.step(), Ok(true));
    assert_eq!(gb.cpu.registers.a, 5);
    assert_eq!(gb.cpu.pc, 2);
    // second step: HALT
    assert_eq!(gb.cpu.step(), Ok(true));
    assert!(gb.cpu.is_halted);
    let frozen_pc = gb.cpu.pc;
    // a third step is a no-op: the CPU stays halted and PC does not move
    assert_eq!(gb.cpu.step(), Ok(false));
    assert_eq!(gb.cpu.pc, frozen_pc);
    assert!(gb.cpu.is_halted);
}

#[test]
fn test_run_loop_interleaves_ppu() {
    let mut gb = Gameboy::new_and_empty(false);
    gb.load_cartridge(minimal_rom()).unwrap();
    gb.boot();
    gb.cpu.bus.set_done_booting();
    // drive a bounded number of ticks: the two-instruction program halts
    // well before the budget, and the PPU advanced one dot per tick
    let ticks = gb.run_for_ticks(1000);
    assert!(ticks < 1000);
    assert!(gb.cpu.is_halted);
    assert_eq!(gb.cpu.bus.ppu.lx as u64, ticks);
}

#[test]
fn test_boot_defaults() {
    let mut gb = Gameboy::new_and_empty(false);
    assert!(!gb.running);
    gb.boot();
    assert!(gb.running);
    assert_eq!(gb.cpu.pc, 0);
    assert_eq!(gb.cpu.sp, 0xFFFF);
}
