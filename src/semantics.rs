use vstd::prelude::*;
use crate::cpu::Cpu;
use crate::memory::{MemoryView, read_spec, write_spec};
use crate::opcodes::{
    Operation,
    AddressingMode,
    decode,
    FLAG_CARRY,
    FLAG_ZERO,
    FLAG_IRQ,
    FLAG_DECIMAL,
    FLAG_INDEX,
    FLAG_MEMORY,
    FLAG_OVERFLOW,
    FLAG_NEGATIVE,
};

verus! {

/// Emulation-mode BRK/IRQ vector.
pub const VECTOR_BRK_EMULATION: u32 = 0xFFFE;
/// Native-mode BRK vector.
pub const VECTOR_BRK_NATIVE: u32 = 0xFFE6;
/// Emulation-mode NMI vector.
pub const VECTOR_NMI_EMULATION: u32 = 0xFFFA;
/// Native-mode NMI vector.
pub const VECTOR_NMI_NATIVE: u32 = 0xFFEA;
/// Reset vector.
pub const VECTOR_RESET: u32 = 0xFFFC;

/// An address folded into the 24-bit address space.
pub open spec fn wrap24(x: int) -> u32 {
    (x % 0x1000000) as u32
}

/// The first address of the bank that holds `pc`.
pub open spec fn bank_base(pc: u32) -> int {
    (pc / 0x10000) as int * 0x10000
}

/// The byte the bus returns at `addr`, folded into the address space.
pub open spec fn byte_at(m: MemoryView, addr: int) -> int {
    read_spec(m, wrap24(addr)) as int
}

/// The little-endian word at `addr` and the next address.
pub open spec fn word_at(m: MemoryView, addr: int) -> int {
    byte_at(m, addr) + 256 * byte_at(m, addr + 1)
}

/// A little-endian pointer in bank zero, whose high byte wraps within the bank.
pub open spec fn bank0_word(m: MemoryView, ptr: int) -> int {
    byte_at(m, ptr) + 256 * byte_at(m, (ptr + 1) % 0x10000)
}

/// One more than the largest value of the width.
pub open spec fn width_mask(eight: bool) -> int {
    if eight {
        0x100
    } else {
        0x10000
    }
}

/// The part of a register that an operation of the width sees.
pub open spec fn narrow(r: u16, eight: bool) -> int {
    r as int % width_mask(eight)
}

/// A register after an operation of the width stores `v`: an 8-bit store
/// keeps the high byte.
pub open spec fn put(r: u16, v: int, eight: bool) -> u16 {
    if eight {
        ((r as int / 256) * 256 + v % 256) as u16
    } else {
        (v % 0x10000) as u16
    }
}

/// Whether the sign bit of a value of the width is set.
pub open spec fn is_negative(v: int, eight: bool) -> bool {
    if eight {
        v >= 0x80
    } else {
        v >= 0x8000
    }
}

/// Reads a two's-complement byte.
pub open spec fn signed8(d: int) -> int {
    if d >= 0x80 {
        d - 0x100
    } else {
        d
    }
}

/// Whether the status bits `f` are set in `p`.
#[verifier::opaque]
pub open spec fn flag_set(p: u8, f: u8) -> bool {
    p & f != 0
}

/// `p` with the status bits `f` set or cleared.
#[verifier::opaque]
pub open spec fn with_flag(p: u8, f: u8, on: bool) -> u8 {
    if on {
        p | f
    } else {
        p & !f
    }
}

/// `p` with zero and negative taken from a result of the width.
pub open spec fn with_nz(p: u8, v: int, eight: bool) -> u8 {
    with_flag(with_flag(p, FLAG_ZERO, v == 0), FLAG_NEGATIVE, is_negative(v, eight))
}

/// The CPU with a new status byte, from which the width flags are derived; in
/// emulation mode the width bits stay set.
pub open spec fn with_status(c: Cpu, p: u8) -> Cpu {
    if c.e_flag {
        Cpu { p: p | (FLAG_MEMORY | FLAG_INDEX), m_flag: true, x_flag: true, ..c }
    } else {
        Cpu { p, m_flag: flag_set(p, FLAG_MEMORY), x_flag: flag_set(p, FLAG_INDEX), ..c }
    }
}

/// Where an instruction's operand lives, and the program counter past its
/// operand bytes. `c.pc` is the address right after the opcode byte.
pub open spec fn effective_address(c: Cpu, m: MemoryView, mode: AddressingMode, eight: bool) -> (
    u32,
    u32,
) {
    let pc = c.pc as int;
    let b0 = byte_at(m, pc);
    let w = word_at(m, pc);
    match mode {
        AddressingMode::Immediate => (
            c.pc,
            wrap24(
                pc + if eight {
                    1int
                } else {
                    2
                },
            ),
        ),
        AddressingMode::DirectPage => (((c.dp + b0) % 0x10000) as u32, wrap24(pc + 1)),
        AddressingMode::DirectPageIndexedX => (
            ((c.dp + b0 + c.x % 256) % 0x10000) as u32,
            wrap24(pc + 1),
        ),
        AddressingMode::DirectPageIndexedY => (
            ((c.dp + b0 + c.y % 256) % 0x10000) as u32,
            wrap24(pc + 1),
        ),
        AddressingMode::Absolute => ((c.db * 0x10000 + w) as u32, wrap24(pc + 2)),
        AddressingMode::AbsoluteIndexedX => (
            (c.db * 0x10000 + (w + c.x) % 0x10000) as u32,
            wrap24(pc + 2),
        ),
        AddressingMode::AbsoluteIndexedY => (
            (c.db * 0x10000 + (w + c.y) % 0x10000) as u32,
            wrap24(pc + 2),
        ),
        AddressingMode::AbsoluteLong => (
            (w + 0x10000 * byte_at(m, pc + 2)) as u32,
            wrap24(pc + 3),
        ),
        AddressingMode::AbsoluteLongIndexedX => (
            wrap24(w + 0x10000 * byte_at(m, pc + 2) + c.x),
            wrap24(pc + 3),
        ),
        AddressingMode::IndirectIndexed => (
            (c.db * 0x10000 + (bank0_word(m, (c.dp + b0) % 0x10000) + c.y) % 0x10000) as u32,
            wrap24(pc + 1),
        ),
        AddressingMode::IndexedIndirect => (
            (c.db * 0x10000 + bank0_word(m, (c.dp + b0 + c.x % 256) % 0x10000)) as u32,
            wrap24(pc + 1),
        ),
        _ => (0, c.pc),
    }
}

/// The value of the width at `addr`.
pub open spec fn load_value(m: MemoryView, addr: u32, eight: bool) -> int {
    if eight {
        byte_at(m, addr as int)
    } else {
        word_at(m, addr as int)
    }
}

/// The bus after storing a value of the width at `addr`, low byte first.
pub open spec fn store_value(m: MemoryView, addr: u32, v: int, eight: bool) -> MemoryView {
    if eight {
        write_spec(m, addr, (v % 256) as u8)
    } else {
        write_spec(
            write_spec(m, addr, (v % 256) as u8),
            wrap24(addr + 1),
            ((v / 256) % 256) as u8,
        )
    }
}

/// The CPU with a new program counter.
pub open spec fn at_pc(c: Cpu, pc: u32) -> Cpu {
    Cpu { pc, ..c }
}

/// Loads into A, X or Y.
pub open spec fn load_spec(c: Cpu, m: MemoryView, op: Operation, mode: AddressingMode) -> Cpu {
    match op {
        Operation::LoadA => {
            let (addr, pc) = effective_address(c, m, mode, c.m_flag);
            let v = load_value(m, addr, c.m_flag);
            Cpu { a: put(c.a, v, c.m_flag), p: with_nz(c.p, v, c.m_flag), pc, ..c }
        },
        Operation::LoadX => {
            let (addr, pc) = effective_address(c, m, mode, c.x_flag);
            let v = load_value(m, addr, c.x_flag);
            Cpu { x: put(c.x, v, c.x_flag), p: with_nz(c.p, v, c.x_flag), pc, ..c }
        },
        _ => {
            let (addr, pc) = effective_address(c, m, mode, c.x_flag);
            let v = load_value(m, addr, c.x_flag);
            Cpu { y: put(c.y, v, c.x_flag), p: with_nz(c.p, v, c.x_flag), pc, ..c }
        },
    }
}

/// Stores A, X, Y or zero.
pub open spec fn store_spec(c: Cpu, m: MemoryView, op: Operation, mode: AddressingMode) -> (
    Cpu,
    MemoryView,
) {
    let eight = match op {
        Operation::StoreX | Operation::StoreY => c.x_flag,
        _ => c.m_flag,
    };
    let v = match op {
        Operation::StoreA => c.a as int,
        Operation::StoreX => c.x as int,
        Operation::StoreY => c.y as int,
        _ => 0,
    };
    let (addr, pc) = effective_address(c, m, mode, eight);
    (at_pc(c, pc), store_value(m, addr, v, eight))
}

/// Add with carry of `v` into the accumulator.
pub open spec fn adc_spec(c: Cpu, v: int) -> Cpu {
    let eight = c.m_flag;
    let mask = width_mask(eight);
    let acc = narrow(c.a, eight);
    let sum = acc + v + if flag_set(c.p, FLAG_CARRY) {
        1int
    } else {
        0
    };
    let result = sum % mask;
    let overflow = is_negative(acc, eight) == is_negative(v, eight) && is_negative(result, eight)
        != is_negative(acc, eight);
    Cpu {
        a: put(c.a, result, eight),
        p: with_nz(
            with_flag(with_flag(c.p, FLAG_CARRY, sum >= mask), FLAG_OVERFLOW, overflow),
            result,
            eight,
        ),
        ..c
    }
}

/// Subtract with borrow of `v` from the accumulator.
pub open spec fn sbc_spec(c: Cpu, v: int) -> Cpu {
    let eight = c.m_flag;
    let mask = width_mask(eight);
    let acc = narrow(c.a, eight);
    let diff = acc - v - if flag_set(c.p, FLAG_CARRY) {
        0int
    } else {
        1
    };
    let result = diff % mask;
    let overflow = is_negative(acc, eight) != is_negative(v, eight) && is_negative(result, eight)
        != is_negative(acc, eight);
    Cpu {
        a: put(c.a, result, eight),
        p: with_nz(
            with_flag(with_flag(c.p, FLAG_CARRY, diff >= 0), FLAG_OVERFLOW, overflow),
            result,
            eight,
        ),
        ..c
    }
}

/// The status after comparing a register value `r` with `v` at the width.
pub open spec fn compare_flags(p: u8, r: int, v: int, eight: bool) -> u8 {
    with_flag(with_nz(p, (r - v) % width_mask(eight), eight), FLAG_CARRY, r >= v)
}

/// The logical operations on the accumulator.
pub open spec fn logic_result(op: Operation, acc: int, v: int) -> int {
    match op {
        Operation::And => (acc as u16 & v as u16) as int,
        Operation::Or => (acc as u16 | v as u16) as int,
        _ => (acc as u16 ^ v as u16) as int,
    }
}

/// ADC, SBC, AND, ORA, EOR and CMP, CPX, CPY.
pub open spec fn alu_spec(c: Cpu, m: MemoryView, op: Operation, mode: AddressingMode) -> Cpu {
    let eight = match op {
        Operation::CompareX | Operation::CompareY => c.x_flag,
        _ => c.m_flag,
    };
    let (addr, pc) = effective_address(c, m, mode, eight);
    let v = load_value(m, addr, eight);
    let c1 = at_pc(c, pc);
    match op {
        Operation::Add => adc_spec(c1, v),
        Operation::Sub => sbc_spec(c1, v),
        Operation::Compare => Cpu { p: compare_flags(c.p, narrow(c.a, eight), v, eight), ..c1 },
        Operation::CompareX => Cpu { p: compare_flags(c.p, narrow(c.x, eight), v, eight), ..c1 },
        Operation::CompareY => Cpu { p: compare_flags(c.p, narrow(c.y, eight), v, eight), ..c1 },
        _ => {
            let r = logic_result(op, narrow(c.a, eight), v) % width_mask(eight);
            Cpu { a: put(c.a, r, eight), p: with_nz(c.p, r, eight), ..c1 }
        },
    }
}

/// What a read-modify-write operation makes of a value of the width, and the
/// carry it leaves (for increment and decrement, the old carry).
pub open spec fn modify(op: Operation, v: int, eight: bool, carry: bool) -> (int, bool) {
    let mask = width_mask(eight);
    match op {
        Operation::Inc => ((v + 1) % mask, carry),
        Operation::Dec => ((v - 1) % mask, carry),
        Operation::ShiftLeft => ((v * 2) % mask, is_negative(v, eight)),
        _ => (v / 2, v % 2 == 1),
    }
}

/// INC, DEC, ASL and LSR, on the accumulator or on memory.
pub open spec fn modify_spec(c: Cpu, m: MemoryView, op: Operation, mode: AddressingMode) -> (
    Cpu,
    MemoryView,
) {
    let eight = c.m_flag;
    let carry = flag_set(c.p, FLAG_CARRY);
    if mode == AddressingMode::Implied {
        let (r, cy) = modify(op, narrow(c.a, eight), eight, carry);
        (
            Cpu {
                a: put(c.a, r, eight),
                p: with_nz(with_flag(c.p, FLAG_CARRY, cy), r, eight),
                ..c
            },
            m,
        )
    } else {
        let (addr, pc) = effective_address(c, m, mode, eight);
        let (r, cy) = modify(op, load_value(m, addr, eight), eight, carry);
        (
            Cpu { pc, p: with_nz(with_flag(c.p, FLAG_CARRY, cy), r, eight), ..c },
            store_value(m, addr, r, eight),
        )
    }
}

/// The register transfers, DEX and TCD.
pub open spec fn transfer_spec(c: Cpu, op: Operation) -> Cpu {
    let m8 = c.m_flag;
    let x8 = c.x_flag;
    match op {
        Operation::TransferAX => {
            let x = put(c.x, c.a as int, x8);
            Cpu { x, p: with_nz(c.p, narrow(x, x8), x8), ..c }
        },
        Operation::TransferAY => {
            let y = put(c.y, c.a as int, x8);
            Cpu { y, p: with_nz(c.p, narrow(y, x8), x8), ..c }
        },
        Operation::TransferXA => {
            let a = put(c.a, c.x as int, m8);
            Cpu { a, p: with_nz(c.p, narrow(a, m8), m8), ..c }
        },
        Operation::TransferYA => {
            let a = put(c.a, c.y as int, m8);
            Cpu { a, p: with_nz(c.p, narrow(a, m8), m8), ..c }
        },
        Operation::TransferXY => {
            let y = put(c.y, c.x as int, x8);
            Cpu { y, p: with_nz(c.p, narrow(y, x8), x8), ..c }
        },
        Operation::TransferYX => {
            let x = put(c.x, c.y as int, x8);
            Cpu { x, p: with_nz(c.p, narrow(x, x8), x8), ..c }
        },
        Operation::TransferSX => {
            let x = put(c.x, c.sp as int, x8);
            Cpu { x, p: with_nz(c.p, narrow(x, x8), x8), ..c }
        },
        Operation::TransferSC => {
            let a = put(c.a, c.sp as int, m8);
            Cpu { a, p: with_nz(c.p, narrow(a, m8), m8), ..c }
        },
        Operation::TransferXS => Cpu {
            sp: if c.e_flag {
                (0x100 + c.x as int % 256) as u16
            } else {
                put(c.sp, c.x as int, x8)
            },
            ..c
        },
        Operation::TransferCS => Cpu {
            sp: if c.e_flag {
                (0x100 + c.a as int % 256) as u16
            } else {
                put(c.sp, c.a as int, m8)
            },
            ..c
        },
        Operation::Tcd => Cpu { dp: c.a, p: with_nz(c.p, c.a as int, false), ..c },
        _ => {
            let x = put(c.x, (narrow(c.x, x8) - 1) % width_mask(x8), x8);
            Cpu { x, p: with_nz(c.p, narrow(x, x8), x8), ..c }
        },
    }
}

/// The stack pointer after a push.
pub open spec fn sp_after_push(c: Cpu) -> u16 {
    if c.e_flag {
        if c.sp % 256 == 0 {
            0x1FF
        } else {
            (c.sp - 1) as u16
        }
    } else {
        ((c.sp as int - 1) % 0x10000) as u16
    }
}

/// The stack pointer after a pull.
pub open spec fn sp_after_pull(c: Cpu) -> u16 {
    if c.e_flag {
        if c.sp % 256 == 0xFF {
            0x100
        } else {
            (c.sp + 1) as u16
        }
    } else {
        ((c.sp as int + 1) % 0x10000) as u16
    }
}

/// Pushes one byte: it is written at the stack pointer, which then moves down.
pub open spec fn push_spec(c: Cpu, m: MemoryView, v: u8) -> (Cpu, MemoryView) {
    (Cpu { sp: sp_after_push(c), ..c }, write_spec(m, c.sp as u32, v))
}

/// Pulls one byte: the stack pointer moves up, then the byte there is read.
pub open spec fn pull_spec(c: Cpu, m: MemoryView) -> (Cpu, u8) {
    let sp = sp_after_pull(c);
    (Cpu { sp, ..c }, read_spec(m, sp as u32))
}

/// Pushes a value of the width, high byte first.
pub open spec fn push_value(c: Cpu, m: MemoryView, v: u16, eight: bool) -> (Cpu, MemoryView) {
    if eight {
        push_spec(c, m, (v % 256) as u8)
    } else {
        let (c1, m1) = push_spec(c, m, (v / 256) as u8);
        push_spec(c1, m1, (v % 256) as u8)
    }
}

/// Pulls a value of the width, low byte first, into register `r`.
pub open spec fn pull_value(c: Cpu, m: MemoryView, r: u16, eight: bool) -> (Cpu, u16) {
    if eight {
        let (c1, lo) = pull_spec(c, m);
        (c1, put(r, lo as int, true))
    } else {
        let (c1, lo) = pull_spec(c, m);
        let (c2, hi) = pull_spec(c1, m);
        (c2, (lo as int + 256 * hi as int) as u16)
    }
}

/// PHA, PHX, PHY, PHP and PLA, PLX, PLY, PLP.
pub open spec fn stack_spec(c: Cpu, m: MemoryView, op: Operation) -> (Cpu, MemoryView) {
    match op {
        Operation::PushA => push_value(c, m, c.a, c.m_flag),
        Operation::PushX => push_value(c, m, c.x, c.x_flag),
        Operation::PushY => push_value(c, m, c.y, c.x_flag),
        Operation::PushP => push_spec(c, m, c.p),
        Operation::PullA => {
            let (c1, a) = pull_value(c, m, c.a, c.m_flag);
            (Cpu { a, p: with_nz(c.p, narrow(a, c.m_flag), c.m_flag), ..c1 }, m)
        },
        Operation::PullX => {
            let (c1, x) = pull_value(c, m, c.x, c.x_flag);
            (Cpu { x, p: with_nz(c.p, narrow(x, c.x_flag), c.x_flag), ..c1 }, m)
        },
        Operation::PullY => {
            let (c1, y) = pull_value(c, m, c.y, c.x_flag);
            (Cpu { y, p: with_nz(c.p, narrow(y, c.x_flag), c.x_flag), ..c1 }, m)
        },
        _ => {
            let (c1, p) = pull_spec(c, m);
            (with_status(c1, p), m)
        },
    }
}

/// Pushes a return address, high byte first.
pub open spec fn push_return(c: Cpu, m: MemoryView, ret: int) -> (Cpu, MemoryView) {
    let (c1, m1) = push_spec(c, m, ((ret / 256) % 256) as u8);
    push_spec(c1, m1, (ret % 256) as u8)
}

/// Jumps, subroutine calls and returns, BRK.
pub open spec fn control_spec(c: Cpu, m: MemoryView, op: Operation) -> (Cpu, MemoryView) {
    let pc = c.pc as int;
    match op {
        Operation::Jump => (at_pc(c, (bank_base(c.pc) + word_at(m, pc)) as u32), m),
        Operation::JumpIndirect => (
            at_pc(c, (bank_base(c.pc) + bank0_word(m, word_at(m, pc))) as u32),
            m,
        ),
        Operation::JumpSubroutine => {
            let (c1, m1) = push_return(c, m, (pc + 1) % 0x10000);
            (at_pc(c1, (bank_base(c.pc) + word_at(m, pc)) as u32), m1)
        },
        Operation::ReturnFromSubroutine => {
            let (c1, lo) = pull_spec(c, m);
            let (c2, hi) = pull_spec(c1, m);
            (at_pc(c2, (bank_base(c.pc) + (lo + 256 * hi + 1) % 0x10000) as u32), m)
        },
        Operation::Rtl => {
            let (c1, lo) = pull_spec(c, m);
            let (c2, hi) = pull_spec(c1, m);
            let (c3, bank) = pull_spec(c2, m);
            (at_pc(c3, (bank * 0x10000 + (lo + 256 * hi + 1) % 0x10000) as u32), m)
        },
        Operation::ReturnFromInterrupt => {
            let (c1, p) = pull_spec(c, m);
            let (c2, lo) = pull_spec(c1, m);
            let (c3, hi) = pull_spec(c2, m);
            if c.e_flag {
                (with_status(at_pc(c3, (lo + 256 * hi) as u32), p), m)
            } else {
                let (c4, bank) = pull_spec(c3, m);
                (with_status(at_pc(c4, (bank * 0x10000 + lo + 256 * hi) as u32), p), m)
            }
        },
        _ => {
            let ret = wrap24(pc + 1) as int;
            let (c1, m1) = push_return(c, m, ret);
            let (c2, m2) = push_spec(c1, m1, c.p | FLAG_INDEX);
            let vector = if c.e_flag {
                VECTOR_BRK_EMULATION
            } else {
                VECTOR_BRK_NATIVE
            };
            (Cpu { p: c.p | FLAG_IRQ, pc: word_at(m2, vector as int) as u32, ..c2 }, m2)
        },
    }
}

/// The target of a taken branch whose displacement byte sits at `c.pc`.
pub open spec fn branch_target(c: Cpu, m: MemoryView) -> u32 {
    wrap24(c.pc + 1 + signed8(byte_at(m, c.pc as int)))
}

/// A conditional branch: the new CPU and the extra cycles it costs.
pub open spec fn branch_spec(c: Cpu, m: MemoryView, flag: u8, condition: bool) -> (Cpu, u8) {
    let next = wrap24(c.pc + 1);
    if flag_set(c.p, flag) == condition {
        let target = branch_target(c, m);
        (
            at_pc(c, target),
            if next / 256 != target / 256 {
                2
            } else {
                1
            },
        )
    } else {
        (at_pc(c, next), 0)
    }
}

/// XCE, REP, SEP and the single-flag operations.
pub open spec fn mode_spec(c: Cpu, m: MemoryView, op: Operation) -> Cpu {
    match op {
        Operation::Xce => {
            let to_emulation = flag_set(c.p, FLAG_CARRY);
            let p = with_flag(c.p, FLAG_CARRY, c.e_flag);
            if to_emulation {
                Cpu {
                    e_flag: true,
                    p: p | (FLAG_MEMORY | FLAG_INDEX),
                    m_flag: true,
                    x_flag: true,
                    sp: (0x100 + c.sp as int % 256) as u16,
                    ..c
                }
            } else {
                Cpu {
                    e_flag: false,
                    p,
                    m_flag: flag_set(p, FLAG_MEMORY),
                    x_flag: flag_set(p, FLAG_INDEX),
                    ..c
                }
            }
        },
        Operation::Rep => with_status(
            at_pc(c, wrap24(c.pc + 1)),
            c.p & !(byte_at(m, c.pc as int) as u8),
        ),
        Operation::Sep => with_status(
            at_pc(c, wrap24(c.pc + 1)),
            c.p | (byte_at(m, c.pc as int) as u8),
        ),
        Operation::SetFlag(f) => Cpu { p: c.p | f, ..c },
        Operation::ClearFlag(f) => Cpu { p: c.p & !f, ..c },
        _ => c,
    }
}

/// Executes one decoded operation; `c.pc` is the address right after the
/// opcode byte. Returns the CPU, the bus, and the extra cycles of a taken branch.
#[verifier::opaque]
pub open spec fn operation_spec(c: Cpu, m: MemoryView, op: Operation, mode: AddressingMode) -> (
    Cpu,
    MemoryView,
    u8,
) {
    match op {
        Operation::LoadA | Operation::LoadX | Operation::LoadY => (
            load_spec(c, m, op, mode),
            m,
            0,
        ),
        Operation::StoreA | Operation::StoreX | Operation::StoreY | Operation::StoreZero => {
            let (c1, m1) = store_spec(c, m, op, mode);
            (c1, m1, 0)
        },
        Operation::Add | Operation::Sub | Operation::And | Operation::Or | Operation::Xor
        | Operation::Compare | Operation::CompareX | Operation::CompareY => (
            alu_spec(c, m, op, mode),
            m,
            0,
        ),
        Operation::Inc | Operation::Dec | Operation::ShiftLeft | Operation::ShiftRight => {
            let (c1, m1) = modify_spec(c, m, op, mode);
            (c1, m1, 0)
        },
        Operation::TransferAX | Operation::TransferAY | Operation::TransferXA
        | Operation::TransferXY | Operation::TransferYA | Operation::TransferYX
        | Operation::TransferSX | Operation::TransferXS | Operation::TransferSC
        | Operation::TransferCS | Operation::Tcd | Operation::DecX => (transfer_spec(c, op), m, 0),
        Operation::PushA | Operation::PullA | Operation::PushP | Operation::PullP
        | Operation::PushX | Operation::PullX | Operation::PushY | Operation::PullY => {
            let (c1, m1) = stack_spec(c, m, op);
            (c1, m1, 0)
        },
        Operation::Jump | Operation::JumpIndirect | Operation::JumpSubroutine
        | Operation::ReturnFromSubroutine | Operation::Rtl | Operation::ReturnFromInterrupt
        | Operation::SoftwareInterrupt => {
            let (c1, m1) = control_spec(c, m, op);
            (c1, m1, 0)
        },
        Operation::Branch { flag, condition } => {
            let (c1, extra) = branch_spec(c, m, flag, condition);
            (c1, m, extra)
        },
        Operation::Xce | Operation::Rep | Operation::Sep | Operation::SetFlag(_)
        | Operation::ClearFlag(_) | Operation::Nop => (mode_spec(c, m, op), m, 0),
    }
}

/// Whether an immediate operand of the operation is a single byte.
pub open spec fn immediate_is_byte(c: Cpu, op: Operation) -> bool {
    match op {
        Operation::LoadX | Operation::LoadY | Operation::CompareX | Operation::CompareY => c.x_flag,
        Operation::Rep | Operation::Sep => true,
        _ => c.m_flag,
    }
}

/// The result of one CPU step from `c` on bus `m`: the CPU, the bus, and the
/// cycles it cost.
pub open spec fn step_spec(c: Cpu, m: MemoryView) -> (Cpu, MemoryView, u8) {
    let opcode = read_spec(m, c.pc);
    let c1 = at_pc(c, wrap24(c.pc + 1));
    match decode(opcode) {
        None => (Cpu { cycles: c.cycles.wrapping_add(2), ..c1 }, m, 2),
        Some(info) => {
            let (c2, m2, extra) = operation_spec(c1, m, info.operation, info.mode);
            let wide = if info.mode == AddressingMode::Immediate && !immediate_is_byte(
                c1,
                info.operation,
            ) {
                1int
            } else {
                0
            };
            let cost = (info.cycles + wide + extra) as u8;
            (Cpu { cycles: c2.cycles.wrapping_add(cost as u64), ..c2 }, m2, cost)
        },
    }
}

/// NMI entry: push the program bank (native mode only), the program counter and
/// the status, set I, clear D, and jump through the NMI vector.
pub open spec fn nmi_spec(c: Cpu, m: MemoryView) -> (Cpu, MemoryView) {
    let (c1, m1) = if c.e_flag {
        (c, m)
    } else {
        push_spec(c, m, (c.pc / 0x10000) as u8)
    };
    let (c2, m2) = push_return(c1, m1, (c.pc % 0x10000) as int);
    let (c3, m3) = push_spec(c2, m2, c.p);
    let vector = if c.e_flag {
        VECTOR_NMI_EMULATION
    } else {
        VECTOR_NMI_NATIVE
    };
    (
        Cpu { p: (c.p | FLAG_IRQ) & !FLAG_DECIMAL, pc: word_at(m3, vector as int) as u32, ..c3 },
        m3,
    )
}

/// The invariant of emulation mode: 8-bit registers, the width bits set in
/// the status byte, and the stack pointer in page one.
pub open spec fn emulation_invariant(c: Cpu) -> bool {
    c.e_flag ==> {
        &&& c.m_flag
        &&& c.x_flag
        &&& flag_set(c.p, FLAG_MEMORY)
        &&& flag_set(c.p, FLAG_INDEX)
        &&& c.sp / 256 == 1
    }
}

/// Whether a decoded operation keeps the width bits of the status byte out
/// of its single-flag operations.
pub open spec fn touches_no_width_bit(op: Operation) -> bool {
    match op {
        Operation::SetFlag(f) | Operation::ClearFlag(f) => f & FLAG_MEMORY == 0 && f & FLAG_INDEX
            == 0,
        _ => true,
    }
}

/// The carry, zero, IRQ, decimal, overflow and negative bits are apart from the width bits.
pub proof fn lemma_flags_apart()
    ensures
        FLAG_CARRY & FLAG_MEMORY == 0 && FLAG_CARRY & FLAG_INDEX == 0,
        FLAG_ZERO & FLAG_MEMORY == 0 && FLAG_ZERO & FLAG_INDEX == 0,
        FLAG_IRQ & FLAG_MEMORY == 0 && FLAG_IRQ & FLAG_INDEX == 0,
        FLAG_DECIMAL & FLAG_MEMORY == 0 && FLAG_DECIMAL & FLAG_INDEX == 0,
        FLAG_OVERFLOW & FLAG_MEMORY == 0 && FLAG_OVERFLOW & FLAG_INDEX == 0,
        FLAG_NEGATIVE & FLAG_MEMORY == 0 && FLAG_NEGATIVE & FLAG_INDEX == 0,
        (FLAG_MEMORY | FLAG_INDEX) & FLAG_MEMORY == FLAG_MEMORY,
        (FLAG_MEMORY | FLAG_INDEX) & FLAG_INDEX == FLAG_INDEX,
        FLAG_IRQ & !FLAG_DECIMAL & FLAG_MEMORY == 0,
{
    assert(1u8 & 0x20u8 == 0 && 1u8 & 0x10u8 == 0 && 2u8 & 0x20u8 == 0 && 2u8 & 0x10u8 == 0
        && 4u8 & 0x20u8 == 0 && 4u8 & 0x10u8 == 0 && 8u8 & 0x20u8 == 0 && 8u8 & 0x10u8 == 0
        && 0x40u8 & 0x20u8 == 0 && 0x40u8 & 0x10u8 == 0 && 0x80u8 & 0x20u8 == 0 && 0x80u8
        & 0x10u8 == 0 && (0x20u8 | 0x10u8) & 0x20u8 == 0x20u8 && (0x20u8 | 0x10u8) & 0x10u8
        == 0x10u8 && 4u8 & !8u8 & 0x20u8 == 0) by (bit_vector);
}

/// Every decoded single-flag operation names carry, IRQ, decimal or overflow.
pub proof fn lemma_decoded_flags(b: u8)
    ensures
        decode(b) matches Some(info) ==> touches_no_width_bit(info.operation),
{
    reveal(decode);
    lemma_flags_apart();
}

/// Setting or clearing bits outside `g` leaves the bits `g` as they were.
pub proof fn lemma_other_bits(p: u8, f: u8, g: u8)
    requires
        f & g == 0,
    ensures
        flag_set(p | f, g) == flag_set(p, g),
        flag_set(p & !f, g) == flag_set(p, g),
        flag_set(with_flag(p, f, true), g) == flag_set(p, g),
        flag_set(with_flag(p, f, false), g) == flag_set(p, g),
{
    reveal(flag_set);
    reveal(with_flag);
    assert(((p | f) & g != 0) == (p & g != 0)) by (bit_vector)
        requires
            f & g == 0,
    ;
    assert(((p & !f) & g != 0) == (p & g != 0)) by (bit_vector)
        requires
            f & g == 0,
    ;
}

/// Setting bits that include `g` sets `g`.
pub proof fn lemma_set_bits(p: u8, f: u8, g: u8)
    requires
        f & g == g,
        g != 0,
    ensures
        flag_set(p | f, g),
{
    reveal(flag_set);
    assert((p | f) & g != 0) by (bit_vector)
        requires
            f & g == g,
            g != 0,
    ;
}

} // verus!
