//! The assembled machine: CPU (owning the bus), PPU and the frame loop that
//! advances them in lockstep, one machine cycle at a time.

use crate::cpu::{spec_tick, Cpu, CpuView};
use crate::mmu::{mmu_tick_timers, Mmu};
use crate::ppu::{
    spec_after_advance_dots, spec_after_render_frame, spec_after_update_registers, spec_ppu_init,
    Ppu, PpuView, WIN_SIZE_X, WIN_SIZE_Y,
};
use vstd::prelude::*;

verus! {

/// One frame of machine time, in ticks of the frame loop.
pub const FRAME_CYCLES: u32 = 70224;

/// The PPU consumes four dots per machine cycle.
pub const NB_OF_DOT_PER_TICK: u32 = 4;

/// The all-zero framebuffer a frame starts from.
pub open spec fn spec_zero_frame() -> Seq<u8> {
    Seq::new((WIN_SIZE_X * WIN_SIZE_Y * 3) as nat, |i: int| 0u8)
}

/// One tick of the whole machine: the timers advance first, then the CPU
/// observes them, then the PPU moves its dot clock (driving STAT, LY==LYC
/// and the VBlank/LCD-STAT requests), latches registers and renders.
pub open spec fn spec_machine_tick(c: CpuView, p: PpuView, frame: Seq<u8>) -> (
    CpuView,
    PpuView,
    Seq<u8>,
) {
    let c1 = CpuView { bus: mmu_tick_timers(c.bus), ..c };
    let c2 = spec_tick(c1);
    let advanced = spec_after_advance_dots(p, c2.bus, NB_OF_DOT_PER_TICK);
    let c3 = CpuView { bus: advanced.1, ..c2 };
    let p1 = spec_after_update_registers(advanced.0, c3.bus);
    let rendered = spec_after_render_frame(p1, c3.bus, frame);
    (c3, rendered.0, rendered.1)
}

/// The machine and framebuffer after `n` ticks.
pub open spec fn spec_run_machine(c: CpuView, p: PpuView, frame: Seq<u8>, n: nat) -> (
    CpuView,
    PpuView,
    Seq<u8>,
)
    decreases n,
{
    if n == 0 {
        (c, p, frame)
    } else {
        let prev = spec_run_machine(c, p, frame, (n - 1) as nat);
        spec_machine_tick(prev.0, prev.1, prev.2)
    }
}

pub struct GameBoy {
    pub cpu: Cpu,
    pub ppu: Ppu,
}

impl GameBoy {
    pub open spec fn wf(self) -> bool {
        self.cpu.wf() && self.ppu.wf()
    }

    /// A machine at power-up, with the ROM image in the cartridge slot.
    pub fn new(rom: Vec<u8>) -> (r: GameBoy)
        requires
            rom.len() <= 0x80_0000,
        ensures
            r.wf(),
            r.cpu@.regs == crate::cpu::registers::Registers::spec_default(),
            r.cpu@.pc == 0x0100,
            !r.cpu@.ime && !r.cpu@.ime_delay && !r.cpu@.halted && !r.cpu@.halt_bug,
            r.cpu@.tick_to_wait == 0,
            forall|i: int| 0 <= i < 0x10000 ==> r.cpu@.bus.data[i] == 0,
            r.cpu@.bus.bank1 == 1 && r.cpu@.bus.bank2 == 0 && !r.cpu@.bus.mode,
            forall|b: int, i: int|
                0 <= b < r.cpu@.bus.banks.len() && 0 <= i < 0x4000 ==> r.cpu@.bus.banks[b][i]
                    == crate::mmu::mbc::rom_byte(rom@, b * 0x4000 + i),
            r.cpu@.bus.ienable == 0 && r.cpu@.bus.iflag == 0,
            r.ppu@ == spec_ppu_init(),
    {
        let bus = Mmu::new(&rom);
        let cpu = Cpu::new(bus);
        let ppu = Ppu::new();

        GameBoy { cpu, ppu }
    }

    /// Run one frame's worth of machine ticks, rendering into a fresh
    /// framebuffer of RGB triples, and return it.
    pub fn run_frame(&mut self) -> (frame: Vec<u8>)
        requires
            old(self).wf(),
        ensures
            final(self).wf(),
            ({
                let end = spec_run_machine(
                    old(self).cpu@,
                    old(self).ppu@,
                    spec_zero_frame(),
                    FRAME_CYCLES as nat,
                );
                &&& final(self).cpu@ == end.0
                &&& final(self).ppu@ == end.1
                &&& frame@ == end.2
            }),
    {
        let mut cycles_this_frame: u32 = 0;
        let mut frame: Vec<u8> = Vec::new();
        let mut i: usize = 0;
        while i < WIN_SIZE_X * WIN_SIZE_Y * 3
            invariant
                i == frame.len(),
                i <= WIN_SIZE_X * WIN_SIZE_Y * 3,
                forall|j: int| 0 <= j < i ==> frame[j] == 0,
            decreases WIN_SIZE_X * WIN_SIZE_Y * 3 - i,
        {
            frame.push(0);
            i += 1;
        }
        proof {
            assert(frame@ =~= spec_zero_frame());
        }

        while cycles_this_frame < FRAME_CYCLES
            invariant
                cycles_this_frame <= FRAME_CYCLES,
                self.cpu.wf(),
                self.ppu.wf(),
                frame.len() == WIN_SIZE_X * WIN_SIZE_Y * 3,
                ({
                    let now = spec_run_machine(
                        old(self).cpu@,
                        old(self).ppu@,
                        spec_zero_frame(),
                        cycles_this_frame as nat,
                    );
                    self.cpu@ == now.0 && self.ppu@ == now.1 && frame@ == now.2
                }),
            decreases FRAME_CYCLES - cycles_this_frame,
        {
            let ghost before = (self.cpu@, self.ppu@, frame@);
            self.cpu.bus.tick_timers();
            proof {
                assert(self.cpu@ =~~= CpuView { bus: mmu_tick_timers(before.0.bus), ..before.0 });
            }
            self.cpu.tick();
            cycles_this_frame += 1;

            self.ppu.advance_dots(&mut self.cpu.bus, NB_OF_DOT_PER_TICK);
            self.ppu.update_registers(&self.cpu.bus);
            self.ppu.render_frame(&self.cpu.bus, &mut frame);
            proof {
                let stepped = spec_machine_tick(before.0, before.1, before.2);
                assert(self.cpu@ == stepped.0 && self.ppu@ == stepped.1 && frame@ == stepped.2);
            }
        }
        frame
    }
}

impl Default for GameBoy {
    fn default() -> (r: GameBoy)
        ensures
            r.wf(),
            r.ppu@ == spec_ppu_init(),
    {
        GameBoy::new(Vec::new())
    }
}

} // verus!
