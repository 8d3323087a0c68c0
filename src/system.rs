use vstd::prelude::*;
use crate::cpu::{Cpu, DiagnosticSink, power_on_cpu};
use crate::memory::{Memory, MemoryView, fresh_memory};
use crate::ppu::{Ppu, PpuView, tick, power_on};
use crate::semantics::{step_spec, nmi_spec, word_at, VECTOR_RESET};

verus! {

/// PPU ticks per CPU cycle.
pub const TICKS_PER_CYCLE: u32 = 4;

/// The bus after `n` PPU ticks, and whether any of them raised the NMI edge.
pub open spec fn run_ticks(m: MemoryView, n: nat) -> (MemoryView, bool)
    decreases n,
{
    if n == 0 {
        (m, false)
    } else {
        let (m1, e1) = run_ticks(m, (n - 1) as nat);
        let (p2, e2) = tick(m1.ppu, m1.vram, m1.oam, m1.cgram);
        (MemoryView { ppu: p2, ..m1 }, e1 || e2)
    }
}

/// One system step: one CPU instruction, four PPU ticks per cycle it cost,
/// then NMI entry if an NMI edge was raised and NMI is still enabled. The I
/// flag does not mask the NMI.
pub open spec fn system_step(c: Cpu, m: MemoryView) -> (Cpu, MemoryView, u8) {
    let (c1, m1, cycles) = step_spec(c, m);
    let (m2, edge) = run_ticks(m1, (cycles * TICKS_PER_CYCLE) as nat);
    if edge && m2.ppu.nmi_enabled {
        let (c3, m3) = nmi_spec(c1, m2);
        (c3, m3, cycles)
    } else {
        (c1, m2, cycles)
    }
}

pub struct System {
    pub cpu: Cpu,
    pub memory: Memory,
}

impl System {
    /// The CPU's program counter is in range and the bus is well formed.
    pub open spec fn wf(&self) -> bool {
        self.cpu.wf() && self.memory@.wf()
    }

    pub fn new(rom: Vec<u8>) -> (s: System)
        ensures
            s.cpu == power_on_cpu(),
            s.memory@ == fresh_memory(rom@, power_on()),
            s.wf(),
    {
        System { cpu: Cpu::new(), memory: Memory::new(rom) }
    }

    /// Runs one instruction and lets the PPU catch up; returns the CPU cycles spent.
    pub fn step(&mut self) -> (cycles: u8)
        requires
            old(self).wf(),
        ensures
            (final(self).cpu, final(self).memory@, cycles) == system_step(
                old(self).cpu,
                old(self).memory@,
            ),
            final(self).wf(),
    {
        let cycles = self.cpu.step(&mut self.memory);
        self.catch_up(cycles)
    }

    /// As `step`, reporting an opcode the decoder does not know to `sink`.
    pub fn step_with<S: DiagnosticSink>(&mut self, sink: &mut S) -> (cycles: u8)
        requires
            old(self).wf(),
        ensures
            (final(self).cpu, final(self).memory@, cycles) == system_step(
                old(self).cpu,
                old(self).memory@,
            ),
            final(self).wf(),
    {
        let cycles = self.cpu.step_with(&mut self.memory, sink);
        self.catch_up(cycles)
    }

    fn catch_up(&mut self, cycles: u8) -> (r: u8)
        requires
            old(self).wf(),
        ensures
            r == cycles,
            ({
                let (m2, edge) = run_ticks(old(self).memory@, (cycles * TICKS_PER_CYCLE) as nat);
                if edge && m2.ppu.nmi_enabled {
                    (final(self).cpu, final(self).memory@) == nmi_spec(old(self).cpu, m2)
                } else {
                    final(self).cpu == old(self).cpu && final(self).memory@ == m2
                }
            }),
            final(self).wf(),
    {
        let ghost m0 = self.memory@;
        let ticks: u32 = cycles as u32 * TICKS_PER_CYCLE;
        let mut nmi = false;
        let mut i: u32 = 0;
        while i < ticks
            invariant
                i <= ticks,
                ticks == cycles * TICKS_PER_CYCLE,
                self.memory@.wf(),
                self.cpu == old(self).cpu,
                m0 == old(self).memory@,
                (self.memory@, nmi) == run_ticks(m0, i as nat),
            decreases ticks - i,
        {
            let edge = self.memory.tick_ppu();
            if edge {
                nmi = true;
            }
            i = i + 1;
        }
        if nmi && self.memory.ppu.nmi_enabled {
            self.cpu.handle_nmi(&mut self.memory);
        }
        cycles
    }

    /// Resets the CPU and the PPU and starts at the reset vector; memories are kept.
    pub fn reset(&mut self)
        requires
            old(self).wf(),
        ensures
            final(self).memory@ == (MemoryView { ppu: power_on(), ..old(self).memory@ }),
            final(self).cpu == (Cpu {
                pc: word_at(final(self).memory@, VECTOR_RESET as int) as u32,
                ..power_on_cpu()
            }),
            final(self).wf(),
    {
        self.cpu.reset();
        self.memory.ppu.reset();
        let low = self.memory.read(VECTOR_RESET) as u32;
        let high = self.memory.read(VECTOR_RESET + 1) as u32;
        self.cpu.pc = low + 256 * high;
    }

    /// Reports a completed frame once, clearing the PPU's frame-complete edge.
    pub fn frame_ready(&mut self) -> (r: bool)
        requires
            old(self).wf(),
        ensures
            r == old(self).memory.ppu.frame_complete,
            final(self).cpu == old(self).cpu,
            final(self).memory@ == (MemoryView {
                ppu: PpuView { frame_complete: false, ..old(self).memory@.ppu },
                ..old(self).memory@
            }),
            final(self).wf(),
    {
        self.memory.ppu.frame_ready()
    }

    /// A copy of the framebuffer.
    pub fn get_framebuffer(&self) -> (r: Vec<u32>)
        ensures
            r@ == self.memory.ppu.framebuffer@,
    {
        self.memory.ppu.framebuffer.clone()
    }

    pub fn get_ppu(&self) -> (r: &Ppu)
        ensures
            r == &self.memory.ppu,
    {
        &self.memory.ppu
    }

    pub fn get_ppu_mut(&mut self) -> (r: &mut Ppu)
        ensures
            *r == old(self).memory.ppu,
            final(self).memory.ppu == *final(r),
            final(self).cpu == old(self).cpu,
    {
        &mut self.memory.ppu
    }

    pub fn get_cpu_state(&self) -> (r: String)
        ensures
            r@ == crate::trace::register_line(self.cpu),
    {
        self.cpu.get_register_state()
    }

    pub fn is_vblank(&self) -> (r: bool)
        ensures
            r == self.memory.ppu.vblank,
    {
        self.memory.ppu.vblank
    }

    pub fn get_scanline(&self) -> (r: u16)
        ensures
            r == self.memory.ppu.scanline,
    {
        self.memory.ppu.scanline
    }
}

} // verus!
