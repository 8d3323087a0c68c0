use vstd::prelude::*;
use crate::cpu::Cpu;
use crate::memory::{
    MemoryView,
    read_spec,
    write_spec,
    bank_of,
    offset_of,
    is_system_bank,
    is_wram_window,
    is_stub_register,
    reg,
};
use crate::opcodes::{Operation, AddressingMode, OpcodeInfo, decode, entry, FLAG_CARRY};
use crate::ppu::{PpuView, tick, completes_frame, DOTS_PER_LINE, LINES_PER_FRAME};
use crate::semantics::{
    wrap24,
    width_mask,
    narrow,
    put,
    flag_set,
    with_flag,
    adc_spec,
    sbc_spec,
    modify_spec,
    push_spec,
    pull_spec,
    step_spec,
    branch_target,
    branch_spec,
    control_spec,
    operation_spec,
    byte_at,
};
use crate::system::{system_step, run_ticks};

verus! {

/// Dots in one frame: 341 * 262.
pub open spec fn frame_dots() -> int {
    89342
}

/// Whether the bus keeps what is written at `addr`, so that reading the same
/// address gives it back: work RAM (banks 0x7E and 0x7F, and its low 8 KiB
/// mirrored at offsets 0x0000..=0x1FFF of the system banks), allocated save
/// RAM, and the register stubs and PPU registers that are not data ports or
/// status registers.
pub open spec fn retains_writes(m: MemoryView, addr: u32) -> bool {
    let bank = bank_of(addr);
    let offset = offset_of(addr);
    if is_system_bank(bank) {
        ||| is_wram_window(offset)
        ||| (0x2100 <= offset < 0x2200 && !(0x2137 <= offset <= 0x213F) && offset != 0x2104
            && offset != 0x2118 && offset != 0x2119 && offset != 0x2122)
        ||| is_stub_register(offset)
        ||| (0x6000 <= offset < 0x8000 && offset - 0x6000 < m.sram.len())
    } else {
        bank == 0x7E || bank == 0x7F
    }
}

/// Whether `addr` reaches nothing at all: offsets 0x2000..=0x20FF,
/// 0x2200..=0x3FFF and 0x4500..=0x5FFF of the system banks, banks
/// 0x70..=0x7D, and in a LoROM layout the lower halves of banks 0x40..=0x6F
/// and all of 0xC0..=0xFF.
pub open spec fn is_unmapped(m: MemoryView, addr: u32) -> bool {
    let bank = bank_of(addr);
    let offset = offset_of(addr);
    ||| (is_system_bank(bank) && ((0x2000 <= offset < 0x2100) || (0x2200 <= offset < 0x4000) || (
        0x4500 <= offset < 0x6000)))
    ||| (0x70 <= bank <= 0x7D)
    ||| (m.rom_type == crate::memory::RomType::LoRom && ((0x40 <= bank <= 0x6F && offset < 0x8000)
        || bank >= 0xC0))
}

/// A write followed by a read of the same address gives back the byte written
/// where the bus keeps writes; elsewhere the write is discarded and the read
/// gives what it gave before, which is zero where nothing is mapped.
pub proof fn lemma_write_then_read(m: MemoryView, addr: u32, value: u8)
    requires
        m.wf(),
    ensures
        retains_writes(m, addr) ==> read_spec(write_spec(m, addr, value), addr) == value,
        !retains_writes(m, addr) ==> read_spec(write_spec(m, addr, value), addr) == read_spec(
            m,
            addr,
        ),
        is_unmapped(m, addr) ==> read_spec(m, addr) == 0,
{
    reveal(read_spec);
    reveal(write_spec);
}

/// Setting the VRAM address latches through `0x2116`/`0x2117` and writing the
/// data port `0x2118` stores the byte at that VRAM address.
pub proof fn lemma_vram_port_write(m: MemoryView, low: u8, high: u8, value: u8)
    requires
        m.wf(),
    ensures
        ({
            let m1 = write_spec(m, 0x002116, low);
            let m2 = write_spec(m1, 0x002117, high);
            let m3 = write_spec(m2, 0x002118, value);
            m3.vram[low as int + 256 * high as int] == value
        }),
{
    reveal(write_spec);
    let m1 = write_spec(m, 0x002116, low);
    let m2 = write_spec(m1, 0x002117, high);
    assert(reg(m2, 0x2116) == low);
    assert(reg(m2, 0x2117) == high);
}

/// An opcode the decoder does not know advances the program counter by one,
/// costs two cycles, and leaves every register and the bus as they were.
pub proof fn lemma_unknown_opcode(c: Cpu, m: MemoryView)
    requires
        decode(read_spec(m, c.pc)) is None,
    ensures
        step_spec(c, m) == (Cpu { pc: wrap24(c.pc + 1), cycles: c.cycles.wrapping_add(2), ..c }, m, 2u8),
{
}

/// In 8-bit mode ADC leaves in A's low byte the sum modulo 256 and keeps the
/// high byte; in 16-bit mode A is the sum modulo 65536.
pub proof fn lemma_adc_result(c: Cpu, v: int)
    requires
        0 <= v < width_mask(c.m_flag),
    ensures
        ({
            let carry: int = if flag_set(c.p, FLAG_CARRY) {
                1
            } else {
                0
            };
            let a = adc_spec(c, v).a;
            if c.m_flag {
                a % 256 == (c.a % 256 + v + carry) % 256 && a / 256 == c.a / 256
            } else {
                a == (c.a + v + carry) % 65536
            }
        }),
{
}

/// In 8-bit mode SBC leaves in A's low byte the two's-complement difference
/// modulo 256 and keeps the high byte; in 16-bit mode A is the difference
/// modulo 65536.
pub proof fn lemma_sbc_result(c: Cpu, v: int)
    requires
        0 <= v < width_mask(c.m_flag),
    ensures
        ({
            let borrow: int = if flag_set(c.p, FLAG_CARRY) {
                0
            } else {
                1
            };
            let a = sbc_spec(c, v).a;
            if c.m_flag {
                a % 256 == (c.a % 256 - v - borrow) % 256 && a / 256 == c.a / 256
            } else {
                a == (c.a - v - borrow) % 65536
            }
        }),
{
}

proof fn lemma_put_byte(r: u16, v: int)
    requires
        0 <= v < 256,
    ensures
        put(r, v, true) % 256 == v,
        put(r, v, true) / 256 == r / 256,
{
    let q = r as int / 256;
    vstd::arithmetic::div_mod::lemma_small_mod(v as nat, 256);
    assert(put(r, v, true) == q * 256 + v);
    assert((q * 256 + v) % 256 == v && (q * 256 + v) / 256 == q) by (nonlinear_arith)
        requires
            0 <= v < 256,
            0 <= q,
    ;
}

/// INC and DEC of the accumulator: in 8-bit mode the low byte steps by one
/// modulo 256 and the high byte is kept; in 16-bit mode A steps modulo 65536.
#[verifier::rlimit(60)]
pub proof fn lemma_inc_dec_accumulator(c: Cpu, m: MemoryView)
    ensures
        ({
            let inc = modify_spec(c, m, Operation::Inc, AddressingMode::Implied).0.a;
            let dec = modify_spec(c, m, Operation::Dec, AddressingMode::Implied).0.a;
            if c.m_flag {
                &&& inc % 256 == (c.a % 256 + 1) % 256
                &&& dec % 256 == (c.a % 256 - 1) % 256
                &&& inc / 256 == c.a / 256
                &&& dec / 256 == c.a / 256
            } else {
                &&& inc == (c.a + 1) % 65536
                &&& dec == (c.a - 1) % 65536
            }
        }),
{
    let eight = c.m_flag;
    let mask = width_mask(eight);
    let acc = narrow(c.a, eight);
    let up = (acc + 1) % mask;
    let down = (acc - 1) % mask;
    assert(modify_spec(c, m, Operation::Inc, AddressingMode::Implied).0.a == put(c.a, up, eight));
    assert(modify_spec(c, m, Operation::Dec, AddressingMode::Implied).0.a == put(c.a, down, eight));
    if eight {
        lemma_put_byte(c.a, up);
        lemma_put_byte(c.a, down);
    } else {
        vstd::arithmetic::div_mod::lemma_small_mod(c.a as nat, 65536);
        vstd::arithmetic::div_mod::lemma_small_mod(up as nat, 65536);
        vstd::arithmetic::div_mod::lemma_small_mod(down as nat, 65536);
    }
}

proof fn lemma_carry_bits(p: u8)
    ensures
        flag_set(with_flag(p, FLAG_CARRY, true), FLAG_CARRY),
        !flag_set(with_flag(p, FLAG_CARRY, false), FLAG_CARRY),
{
    reveal(flag_set);
    reveal(with_flag);
    assert((p | 1u8) & 1u8 != 0) by (bit_vector);
    assert((p & !1u8) & 1u8 == 0) by (bit_vector);
}

/// ADC with the carry clear, then SBC of the same operand without a borrow
/// (carry set), gives A back.
#[verifier::rlimit(60)]
pub proof fn lemma_adc_sbc_round_trip(c: Cpu, v: int)
    requires
        0 <= v < width_mask(c.m_flag),
        !flag_set(c.p, FLAG_CARRY),
    ensures
        ({
            let c1 = adc_spec(c, v);
            let c2 = sbc_spec(Cpu { p: with_flag(c1.p, FLAG_CARRY, true), ..c1 }, v);
            c2.a == c.a
        }),
{
    let c1 = adc_spec(c, v);
    lemma_carry_bits(c1.p);
    let mask = width_mask(c.m_flag);
    let acc = narrow(c.a, c.m_flag);
    let s = (acc + v) % mask;
    assert(narrow(c1.a, c.m_flag) == s);
    if acc + v >= mask {
        assert(s == acc + v - mask);
        assert((s - v) % mask == acc) by {
            crate::laws::lemma_mod_shift(acc, mask);
        }
    } else {
        assert(s == acc + v);
    }
}

proof fn lemma_mod_shift(a: int, n: int)
    requires
        n > 0,
        0 <= a < n,
    ensures
        (a - n) % n == a,
{
    vstd::arithmetic::div_mod::lemma_mod_add_multiples_vanish(a - n, n);
    vstd::arithmetic::div_mod::lemma_small_mod(a as nat, n as nat);
}

/// Two systems in the same state step to the same state, and so show the
/// same register dump.
pub proof fn lemma_step_deterministic(c1: Cpu, m1: MemoryView, c2: Cpu, m2: MemoryView)
    requires
        c1 == c2,
        m1 == m2,
    ensures
        system_step(c1, m1) == system_step(c2, m2),
        crate::trace::register_line(system_step(c1, m1).0) == crate::trace::register_line(
            system_step(c2, m2).0,
        ),
{
}

/// A taken branch whose displacement is -2 lands on its own opcode, with every
/// register but the cycle count as before and the bus untouched: it loops forever.
#[verifier::rlimit(100)]
pub proof fn lemma_branch_to_self(c: Cpu, m: MemoryView, info: OpcodeInfo, flag: u8, condition: bool)
    requires
        c.wf(),
        decode(read_spec(m, c.pc)) == Some(info),
        info.operation == (Operation::Branch { flag, condition }),
        byte_at(m, c.pc + 1) == 0xFE,
        flag_set(c.p, flag) == condition,
    ensures
        ({
            let (c2, m2, cycles) = step_spec(c, m);
            c2 == Cpu { cycles: c2.cycles, ..c } && m2 == m
        }),
{
    let c1 = Cpu { pc: wrap24(c.pc + 1), ..c };
    assert(byte_at(m, c1.pc as int) == byte_at(m, c.pc + 1));
    assert(branch_target(c1, m) == c.pc);
    let (b, extra) = branch_spec(c1, m, flag, condition);
    assert(b == Cpu { pc: c.pc, ..c1 });
    reveal(operation_spec);
    assert(operation_spec(c1, m, info.operation, info.mode) == (b, m, extra));
}

/// The decode-table entry of BRK.
proof fn lemma_decode_brk()
    ensures
        decode(0x00) == Some(entry(Operation::SoftwareInterrupt, AddressingMode::Implied, 7)),
{
    reveal(decode);
}

/// BRK pushes the return address two bytes past its opcode, high byte first
/// and then low byte, then the status with the B bit, even where that address
/// lies in the next bank.
#[verifier::rlimit(100)]
pub proof fn lemma_brk_return_address(c: Cpu, m: MemoryView)
    requires
        c.wf(),
        read_spec(m, c.pc) == 0x00,
    ensures
        ({
            let ret = wrap24(c.pc + 2) as int;
            let c1 = Cpu { pc: wrap24(c.pc + 1), ..c };
            let (ca, ma) = push_spec(c1, m, ((ret / 256) % 256) as u8);
            let (cb, mb) = push_spec(ca, ma, (ret % 256) as u8);
            let (cc, mc) = push_spec(cb, mb, c.p | crate::opcodes::FLAG_INDEX);
            step_spec(c, m).1 == mc
        }),
{
    lemma_decode_brk();
    let c1 = Cpu { pc: wrap24(c.pc + 1), ..c };
    assert(wrap24(c1.pc + 1) == wrap24(c.pc + 2));
    let (c2, m2) = control_spec(c1, m, Operation::SoftwareInterrupt);
    reveal(operation_spec);
    assert(operation_spec(c1, m, Operation::SoftwareInterrupt, AddressingMode::Implied) == (
        c2,
        m2,
        0u8,
    ));
}

/// The PPU state after `n` ticks.
pub open spec fn ppu_run(v: PpuView, vram: Seq<u8>, oam: Seq<u8>, cgram: Seq<u8>, n: nat) -> PpuView
    decreases n,
{
    if n == 0 {
        v
    } else {
        tick(ppu_run(v, vram, oam, cgram, (n - 1) as nat), vram, oam, cgram).0
    }
}

/// How many of the first `n` ticks raised the frame-complete edge.
pub open spec fn frame_edges(v: PpuView, vram: Seq<u8>, oam: Seq<u8>, cgram: Seq<u8>, n: nat) -> nat
    decreases n,
{
    if n == 0 {
        0
    } else {
        frame_edges(v, vram, oam, cgram, (n - 1) as nat) + if completes_frame(
            ppu_run(v, vram, oam, cgram, (n - 1) as nat),
        ) {
            1nat
        } else {
            0
        }
    }
}

proof fn lemma_tick_position(v: PpuView, vram: Seq<u8>, oam: Seq<u8>, cgram: Seq<u8>)
    requires
        v.wf(),
    ensures
        tick(v, vram, oam, cgram).0.wf(),
        tick(v, vram, oam, cgram).0.position() == (v.position() + 1) % frame_dots(),
{
    reveal(tick);
    let n = frame_dots();
    let u = tick(v, vram, oam, cgram).0;
    assert(u.scanline == if v.cycle + 1 < 341 {
        v.scanline as int
    } else if v.scanline + 1 < 262 {
        v.scanline + 1
    } else {
        0
    });
    assert(u.cycle == if v.cycle + 1 < 341 {
        v.cycle + 1
    } else {
        0
    });
    if v.position() + 1 < n {
        vstd::arithmetic::div_mod::lemma_small_mod((v.position() + 1) as nat, n as nat);
    } else {
        vstd::arithmetic::div_mod::lemma_mod_self_0(n);
    }
}

proof fn lemma_run_position(v: PpuView, vram: Seq<u8>, oam: Seq<u8>, cgram: Seq<u8>, n: nat)
    requires
        v.wf(),
    ensures
        ppu_run(v, vram, oam, cgram, n).wf(),
        ppu_run(v, vram, oam, cgram, n).position() == (v.position() + n) % frame_dots(),
    decreases n,
{
    if n > 0 {
        lemma_run_position(v, vram, oam, cgram, (n - 1) as nat);
        lemma_tick_position(ppu_run(v, vram, oam, cgram, (n - 1) as nat), vram, oam, cgram);
        let p = v.position();
        let q = (p + n - 1) % frame_dots();
        assert((q + 1) % frame_dots() == (p + n) % frame_dots()) by {
            vstd::arithmetic::div_mod::lemma_add_mod_noop(p + n - 1, 1, frame_dots());
            vstd::arithmetic::div_mod::lemma_small_mod(1, frame_dots() as nat);
        }
    }
}

proof fn lemma_completes_at(u: PpuView)
    requires
        u.wf(),
    ensures
        completes_frame(u) <==> u.position() == 224 * 341 - 1,
{
}

proof fn lemma_hit(p: int, k: int)
    requires
        0 <= p < frame_dots(),
        0 <= k < frame_dots(),
    ensures
        ((p + k) % frame_dots() == 224 * 341 - 1) <==> k == (224 * 341 - 1 - p + frame_dots())
            % frame_dots(),
{
    let n = frame_dots();
    if p + k < n {
        vstd::arithmetic::div_mod::lemma_small_mod((p + k) as nat, n as nat);
    } else {
        vstd::arithmetic::div_mod::lemma_mod_add_multiples_vanish(p + k - n, n);
        vstd::arithmetic::div_mod::lemma_small_mod((p + k - n) as nat, n as nat);
    }
    let t = 224 * 341 - 1 - p + n;
    if t < n {
        vstd::arithmetic::div_mod::lemma_small_mod(t as nat, n as nat);
    } else {
        vstd::arithmetic::div_mod::lemma_mod_add_multiples_vanish(t - n, n);
        vstd::arithmetic::div_mod::lemma_small_mod((t - n) as nat, n as nat);
    }
}

proof fn lemma_edge_count(v: PpuView, vram: Seq<u8>, oam: Seq<u8>, cgram: Seq<u8>, n: nat)
    requires
        v.wf(),
        n <= frame_dots(),
    ensures
        frame_edges(v, vram, oam, cgram, n) == if (224 * 341 - 1 - v.position() + frame_dots())
            % frame_dots() < n {
            1nat
        } else {
            0
        },
    decreases n,
{
    if n > 0 {
        lemma_edge_count(v, vram, oam, cgram, (n - 1) as nat);
        let u = ppu_run(v, vram, oam, cgram, (n - 1) as nat);
        lemma_run_position(v, vram, oam, cgram, (n - 1) as nat);
        lemma_completes_at(u);
        lemma_hit(v.position(), n - 1);
    }
}

/// Over one frame's worth of ticks (341 * 262) the dot and scanline counters
/// come back to where they started, and the frame-complete edge is raised
/// exactly once.
pub proof fn lemma_frame_period(v: PpuView, vram: Seq<u8>, oam: Seq<u8>, cgram: Seq<u8>)
    requires
        v.wf(),
    ensures
        ppu_run(v, vram, oam, cgram, (DOTS_PER_LINE * LINES_PER_FRAME) as nat).scanline
            == v.scanline,
        ppu_run(v, vram, oam, cgram, (DOTS_PER_LINE * LINES_PER_FRAME) as nat).cycle == v.cycle,
        frame_edges(v, vram, oam, cgram, (DOTS_PER_LINE * LINES_PER_FRAME) as nat) == 1,
{
    let n = (DOTS_PER_LINE * LINES_PER_FRAME) as nat;
    assert(n == frame_dots());
    lemma_run_position(v, vram, oam, cgram, n);
    lemma_edge_count(v, vram, oam, cgram, n);
    let u = ppu_run(v, vram, oam, cgram, n);
    vstd::arithmetic::div_mod::lemma_mod_add_multiples_vanish(v.position(), frame_dots());
    vstd::arithmetic::div_mod::lemma_small_mod(v.position() as nat, frame_dots() as nat);
    assert(u.position() == v.position());
    assert(u.scanline * 341 + u.cycle == v.scanline * 341 + v.cycle);
}

/// The bus after a sequence of stack operations: `Some(b)` pushes `b`, `None` pulls a byte.
pub open spec fn run_stack_ops(c: Cpu, m: MemoryView, ops: Seq<Option<u8>>) -> (Cpu, MemoryView)
    decreases ops.len(),
{
    if ops.len() == 0 {
        (c, m)
    } else {
        let (c1, m1) = run_stack_ops(c, m, ops.drop_last());
        match ops.last() {
            Some(b) => push_spec(c1, m1, b),
            None => (pull_spec(c1, m1).0, m1),
        }
    }
}

/// In emulation mode the stack pointer stays in page one through any sequence
/// of pushes and pulls (and so after each of its prefixes).
pub proof fn lemma_emulation_stack_page(c: Cpu, m: MemoryView, ops: Seq<Option<u8>>)
    requires
        c.e_flag,
        c.sp / 256 == 1,
    ensures
        run_stack_ops(c, m, ops).0.sp / 256 == 1,
        run_stack_ops(c, m, ops).0.e_flag,
    decreases ops.len(),
{
    if ops.len() > 0 {
        lemma_emulation_stack_page(c, m, ops.drop_last());
    }
}

/// Writing a value with bit 7 set to `0x2100` turns forced blank on; from then
/// on PPU ticks leave the framebuffer as it was, neither rendering nor clearing it.
pub proof fn lemma_forced_blank_freezes_framebuffer(m: MemoryView, value: u8, n: nat)
    requires
        m.wf(),
        value >= 0x80,
    ensures
        write_spec(m, 0x002100, value).ppu.forced_blank,
        write_spec(m, 0x002100, value).ppu.framebuffer == m.ppu.framebuffer,
        run_ticks(write_spec(m, 0x002100, value), n).0.ppu.framebuffer == m.ppu.framebuffer,
    decreases n,
{
    reveal(write_spec);
    lemma_blank_ticks(write_spec(m, 0x002100, value), n);
}

proof fn lemma_blank_ticks(m: MemoryView, n: nat)
    requires
        m.ppu.forced_blank,
    ensures
        run_ticks(m, n).0.ppu.forced_blank,
        run_ticks(m, n).0.ppu.framebuffer == m.ppu.framebuffer,
    decreases n,
{
    reveal(tick);
    if n > 0 {
        lemma_blank_ticks(m, (n - 1) as nat);
    }
}

} // verus!
