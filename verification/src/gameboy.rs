//! The top-level machine: one master clock drives the CPU and the PPU in
//! strict alternation on a single thread — the PPU advances one dot per
//! master tick, the CPU executes one instruction every four ticks. The run
//! loop stops as soon as the CPU reports that it is not running: a halt, an
//! undecodable opcode, or an uncoded instruction.

use vstd::prelude::*;

use crate::cartridge::spec_header_error;
use crate::cartridge::spec_matches_header;
use crate::cartridge::CartridgeError;
use crate::cpu::spec_step;
use crate::cpu::CpuError;
use crate::cpu::CPU;
use crate::memory::ppu_step_rel;

verus! {

/// Master ticks per CPU instruction at normal speed.
pub const TICKS_PER_INSTRUCTION: u8 = 4;

#[derive(Debug)]
pub struct Gameboy {
    pub cpu: CPU,
    /// Master ticks since the last CPU instruction.
    pub tick_counter: u8,
    pub running: bool,
    /// Why the run loop stopped, when a CPU step failed.
    pub stop_reason: Option<CpuError>,
    /// Diagnostic mode, owned by the run-loop configuration.
    pub debug: bool,
}

/// The exact effect of one master tick, with the intermediate state after
/// the PPU dot made explicit: the PPU advances one dot against the bus on
/// every tick; on the fourth tick the counter wraps and the CPU executes
/// one instruction per `spec_step`, the machine ceasing to run when the
/// step reports a halt or a failure (keeping the failure as the stop
/// reason); on the other ticks the counter just advances.
pub open spec fn spec_tick_rel(
    pre: Gameboy,
    post: Gameboy,
    mid: CPU,
    crossed: bool,
    res: Result<bool, CpuError>,
) -> bool {
    &&& mid.registers == pre.cpu.registers
    &&& mid.pc == pre.cpu.pc
    &&& mid.sp == pre.cpu.sp
    &&& mid.is_halted == pre.cpu.is_halted
    &&& ppu_step_rel(pre.cpu.bus, mid.bus, crossed)
    &&& post.debug == pre.debug
    &&& if pre.tick_counter < 3 {
        &&& post.cpu == mid
        &&& post.tick_counter == pre.tick_counter + 1
        &&& post.running == pre.running
        &&& post.stop_reason == pre.stop_reason
    } else {
        &&& post.tick_counter == 0
        &&& spec_step(mid, post.cpu, res)
        &&& match res {
            Ok(ran) => if ran {
                post.running == pre.running && post.stop_reason == pre.stop_reason
            } else {
                !post.running && post.stop_reason == pre.stop_reason
            },
            Err(e) => !post.running && post.stop_reason == Some(e),
        }
    }
}

/// One master tick stands between two machine states: for some PPU
/// intermediate and some CPU step outcome, `spec_tick_rel` relates them.
pub open spec fn spec_ticked(pre: Gameboy, post: Gameboy) -> bool {
    exists|mid: CPU, crossed: bool, res: Result<bool, CpuError>|
        spec_tick_rel(pre, post, mid, crossed, res)
}

/// `post` is reached from `pre` by exactly `n` master ticks, chained one
/// `spec_ticked` step at a time.
pub open spec fn spec_runs_for(pre: Gameboy, post: Gameboy, n: nat) -> bool
    decreases n,
{
    if n == 0 {
        post == pre
    } else {
        exists|mid: Gameboy| #[trigger] spec_ticked(pre, mid) && spec_runs_for(
            mid,
            post,
            (n - 1) as nat,
        )
    }
}

/// A tick chain grows by one tick at its end.
pub proof fn lemma_runs_for_step(pre: Gameboy, mid: Gameboy, post: Gameboy, n: nat)
    requires
        spec_runs_for(pre, mid, n),
        spec_ticked(mid, post),
    ensures
        spec_runs_for(pre, post, n + 1),
    decreases n,
{
    if n == 0 {
        assert(mid == pre);
        assert(spec_ticked(pre, post) && spec_runs_for(post, post, 0nat));
    } else {
        let m1 = choose|m: Gameboy| #[trigger] spec_ticked(pre, m) && spec_runs_for(
            m,
            mid,
            (n - 1) as nat,
        );
        lemma_runs_for_step(m1, mid, post, (n - 1) as nat);
        assert(spec_ticked(pre, m1) && spec_runs_for(m1, post, n));
    }
}

impl Gameboy {
    pub open spec fn wf(self) -> bool {
        &&& self.cpu.wf()
        &&& self.tick_counter < TICKS_PER_INSTRUCTION
    }

    /// A machine with no boot ROM and no cartridge loaded.
    pub fn new_and_empty(debug: bool) -> (r: Gameboy)
        ensures
            r.wf(),
            !r.running,
            r.debug == debug,
            r.cpu.pc == 0,
            r.cpu.sp == 0xFFFF,
            !r.cpu.is_halted,
            r.stop_reason is None,
            r.tick_counter == 0,
    {
        Gameboy {
            cpu: CPU::new_and_empty(),
            tick_counter: 0,
            running: false,
            stop_reason: None,
            debug,
        }
    }

    /// Start the machine: the CPU's counters return to their power-on
    /// values and the run loop is armed.
    pub fn boot(&mut self)
        requires
            old(self).wf(),
        ensures
            final(self).wf(),
            final(self).running,
            final(self).cpu.pc == 0,
            final(self).cpu.sp == 0xFFFF,
            *final(self) == (Gameboy {
                running: true,
                cpu: CPU { pc: 0u16, sp: 0xFFFFu16, ..old(self).cpu },
                ..*old(self)
            }),
    {
        self.running = true;
        self.cpu.reset();
    }

    /// Hand a raw cartridge image to the CPU's bus.
    pub fn load_cartridge(&mut self, data: Vec<u8>) -> (r: Result<(), CartridgeError>)
        requires
            old(self).wf(),
        ensures
            final(self).wf(),
            r is Ok <==> spec_header_error(data@) is None,
            r matches Err(e) ==> Some(e) == spec_header_error(data@) && *final(self) == *old(self),
            r is Ok ==> final(self).bus_cartridge_matches(data@),
    {
        self.cpu.load_cartridge(data)
    }

    /// Whether the loaded cartridge controller matches a given image's
    /// header.
    pub open spec fn bus_cartridge_matches(self, data: Seq<u8>) -> bool {
        self.cpu.bus.cartridge.wf() && spec_matches_header(self.cpu.bus.cartridge, data)
    }

    /// One master tick: the PPU advances one dot; on every fourth tick the
    /// CPU executes one instruction, and the machine stops running when the
    /// CPU reports a halt or a failure.
    pub fn tick(&mut self)
        requires
            old(self).wf(),
        ensures
            final(self).wf(),
            spec_ticked(*old(self), *final(self)),
    {
        let crossed = self.cpu.bus.step_ppu();
        let ghost mid = self.cpu;
        if self.tick_counter >= 3 {
            self.tick_counter = 0;
            let res = self.cpu.step();
            match res {
                Ok(true) => {},
                Ok(false) => {
                    // the CPU is halted; with interrupt servicing out of
                    // scope nothing can resume it, so the loop stops
                    self.running = false;
                },
                Err(e) => {
                    self.running = false;
                    self.stop_reason = Some(e);
                },
            }
            proof {
                assert(spec_tick_rel(*old(self), *self, mid, crossed, res));
            }
        } else {
            self.tick_counter = self.tick_counter + 1;
            proof {
                assert(spec_tick_rel(
                    *old(self),
                    *self,
                    mid,
                    crossed,
                    Ok::<bool, CpuError>(true),
                ));
            }
        }
    }

    /// Drive the master clock for at most the given number of ticks,
    /// stopping early as soon as the CPU stops running. Returns the number
    /// of ticks driven; a return below the bound means the machine stopped,
    /// and the final state is reached from the initial one by exactly that
    /// many chained ticks.
    pub fn run_for_ticks(&mut self, max_ticks: u64) -> (ticks: u64)
        requires
            old(self).wf(),
        ensures
            final(self).wf(),
            ticks <= max_ticks,
            ticks < max_ticks ==> !final(self).running,
            spec_runs_for(*old(self), *final(self), ticks as nat),
    {
        let mut ticks: u64 = 0;
        while ticks < max_ticks && self.running
            invariant
                self.wf(),
                ticks <= max_ticks,
                spec_runs_for(*old(self), *self, ticks as nat),
            decreases max_ticks - ticks,
        {
            let ghost before = *self;
            self.tick();
            proof {
                lemma_runs_for_step(*old(self), before, *self, ticks as nat);
            }
            ticks = ticks + 1;
        }
        ticks
    }

    /// Drive the master clock until the CPU stops running. The tick budget
    /// is the largest a 64-bit counter can hold — far beyond any program's
    /// lifetime at four million ticks a second. The final state is reached
    /// from the initial one by a chain of master ticks.
    pub fn run(&mut self)
        requires
            old(self).wf(),
        ensures
            final(self).wf(),
            exists|n: nat| #[trigger] spec_runs_for(*old(self), *final(self), n),
    {
        let t = self.run_for_ticks(0xFFFF_FFFF_FFFF_FFFF);
        proof {
            assert(spec_runs_for(*old(self), *self, t as nat));
        }
    }
}

} // verus!
