use vstd::prelude::*;
use crate::memory::Memory;
use crate::opcodes::{
    Operation,
    AddressingMode,
    OpcodeInfo,
    get_opcode_info,
    FLAG_CARRY,
    FLAG_ZERO,
    FLAG_IRQ,
    FLAG_DECIMAL,
    FLAG_INDEX,
    FLAG_MEMORY,
    FLAG_OVERFLOW,
    FLAG_NEGATIVE,
};
use crate::semantics::{
    emulation_invariant,
    wrap24,
    flag_set,
    byte_at,
    word_at,
    bank0_word,
    width_mask,
    put,
    is_negative,
    with_flag,
    with_nz,
    with_status,
    effective_address,
    load_value,
    store_value,
    at_pc,
    load_spec,
    store_spec,
    adc_spec,
    sbc_spec,
    alu_spec,
    modify,
    modify_spec,
    transfer_spec,
    push_spec,
    pull_spec,
    push_value,
    pull_value,
    stack_spec,
    push_return,
    control_spec,
    branch_spec,
    mode_spec,
    operation_spec,
    immediate_is_byte,
    step_spec,
    nmi_spec,
    VECTOR_BRK_EMULATION,
    VECTOR_BRK_NATIVE,
    VECTOR_NMI_EMULATION,
    VECTOR_NMI_NATIVE,
};

verus! {

/// Receives the diagnostics the CPU reports instead of printing them.
pub trait DiagnosticSink {
    /// The decoder met an opcode it does not know at `pc`.
    fn unknown_opcode(&mut self, opcode: u8, pc: u32);
}

/// A sink that drops every diagnostic.
pub struct SilentSink;

impl DiagnosticSink for SilentSink {
    fn unknown_opcode(&mut self, opcode: u8, pc: u32) {
    }
}

pub struct Cpu {
    pub a: u16,
    pub x: u16,
    pub y: u16,
    pub sp: u16,
    pub pc: u32,
    pub dp: u16,
    pub db: u8,
    pub pb: u8,
    pub p: u8,
    pub m_flag: bool,
    pub x_flag: bool,
    pub e_flag: bool,
    pub cycles: u64,
}

/// The CPU at power-on and after reset: emulation mode, 8-bit registers,
/// stack at the top of page one, program counter at `0x008000`.
pub open spec fn power_on_cpu() -> Cpu {
    Cpu {
        a: 0,
        x: 0,
        y: 0,
        sp: 0x01FF,
        pc: 0x008000,
        dp: 0,
        db: 0,
        pb: 0,
        p: 0x34,
        m_flag: true,
        x_flag: true,
        e_flag: true,
        cycles: 0,
    }
}

proof fn lemma_mod_of_negative(d: int, n: int)
    requires
        n > 0,
        -n <= d < 0,
    ensures
        d % n == d + n,
{
    vstd::arithmetic::div_mod::lemma_mod_add_multiples_vanish(d, n);
    vstd::arithmetic::div_mod::lemma_small_mod((d + n) as nat, n as nat);
}

proof fn lemma_power_on_invariant()
    ensures
        emulation_invariant(power_on_cpu()),
{
    reveal(flag_set);
    assert(0x34u8 & 0x20u8 != 0 && 0x34u8 & 0x10u8 != 0) by (bit_vector);
}

/// `addr + k` folded into the 24-bit address space.
fn add24(addr: u32, k: u32) -> (r: u32)
    requires
        addr < 0x1000000,
        k <= 3,
    ensures
        r == wrap24(addr + k),
        r < 0x1000000,
{
    (addr + k) % 0x1000000
}

fn read_at(memory: &Memory, addr: u32) -> (b: u8)
    requires
        memory@.wf(),
        addr < 0x1000000,
    ensures
        b as int == byte_at(memory@, addr as int),
{
    memory.read(addr)
}

fn word_from(memory: &Memory, addr: u32) -> (w: u32)
    requires
        memory@.wf(),
        addr < 0x1000000,
    ensures
        w as int == word_at(memory@, addr as int),
        w < 0x10000,
{
    read_at(memory, addr) as u32 + 256 * read_at(memory, add24(addr, 1)) as u32
}

fn pointer_from(memory: &Memory, ptr: u32) -> (w: u32)
    requires
        memory@.wf(),
        ptr < 0x10000,
    ensures
        w as int == bank0_word(memory@, ptr as int),
        w < 0x10000,
{
    read_at(memory, ptr) as u32 + 256 * read_at(memory, (ptr + 1) % 0x10000) as u32
}

fn load_from(memory: &Memory, addr: u32, eight: bool) -> (v: u32)
    requires
        memory@.wf(),
        addr < 0x1000000,
    ensures
        v as int == load_value(memory@, addr, eight),
        v < width_mask(eight),
{
    if eight {
        read_at(memory, addr) as u32
    } else {
        word_from(memory, addr)
    }
}

fn store_to(memory: &mut Memory, addr: u32, v: u32, eight: bool)
    requires
        old(memory)@.wf(),
        addr < 0x1000000,
    ensures
        final(memory)@ == store_value(old(memory)@, addr, v as int, eight),
        final(memory)@.wf(),
{
    memory.write(addr, (v % 256) as u8);
    if !eight {
        memory.write(add24(addr, 1), ((v / 256) % 256) as u8);
    }
}

fn flag_is_set(p: u8, f: u8) -> (r: bool)
    ensures
        r == flag_set(p, f),
{
    reveal(flag_set);
    p & f != 0
}

fn mask_of(eight: bool) -> (r: u32)
    ensures
        r == width_mask(eight),
{
    if eight {
        0x100
    } else {
        0x10000
    }
}

fn put_reg(r: u16, v: u32, eight: bool) -> (out: u16)
    ensures
        out == put(r, v as int, eight),
{
    if eight {
        ((r / 256) as u32 * 256 + v % 256) as u16
    } else {
        (v % 0x10000) as u16
    }
}

fn negative(v: u32, eight: bool) -> (r: bool)
    ensures
        r == is_negative(v as int, eight),
{
    if eight {
        v >= 0x80
    } else {
        v >= 0x8000
    }
}

fn flag_update(p: u8, f: u8, on: bool) -> (r: u8)
    ensures
        r == with_flag(p, f, on),
{
    reveal(with_flag);
    if on {
        p | f
    } else {
        p & !f
    }
}

fn nz_update(p: u8, v: u32, eight: bool) -> (r: u8)
    ensures
        r == with_nz(p, v as int, eight),
{
    flag_update(flag_update(p, FLAG_ZERO, v == 0), FLAG_NEGATIVE, negative(v, eight))
}

impl Cpu {
    pub const FLAG_CARRY: u8 = FLAG_CARRY;
    pub const FLAG_ZERO: u8 = FLAG_ZERO;
    pub const FLAG_IRQ: u8 = FLAG_IRQ;
    pub const FLAG_DECIMAL: u8 = FLAG_DECIMAL;
    pub const FLAG_OVERFLOW: u8 = FLAG_OVERFLOW;
    pub const FLAG_NEGATIVE: u8 = FLAG_NEGATIVE;

    /// The program counter lies in the 24-bit address space.
    pub open spec fn pc_in_range(&self) -> bool {
        self.pc < 0x1000000
    }

    /// The program counter is in range, and in emulation mode the registers
    /// are 8-bit, the width bits of the status byte are set and the stack
    /// pointer is in page one.
    pub open spec fn wf(&self) -> bool {
        self.pc_in_range() && emulation_invariant(*self)
    }

    pub fn new() -> (c: Cpu)
        ensures
            c == power_on_cpu(),
            c.wf(),
    {
        proof {
            lemma_power_on_invariant();
        }
        Cpu {
            a: 0,
            x: 0,
            y: 0,
            sp: 0x01FF,
            pc: 0x008000,
            dp: 0,
            db: 0,
            pb: 0,
            p: 0x34,
            m_flag: true,
            x_flag: true,
            e_flag: true,
            cycles: 0,
        }
    }

    pub fn reset(&mut self)
        ensures
            *final(self) == power_on_cpu(),
            final(self).wf(),
    {
        *self = Cpu::new();
    }

    /// Whether any of the status bits `flag` is set.
    pub fn get_flag(&self, flag: u8) -> (r: bool)
        ensures
            r == (self.p & flag != 0),
    {
        self.p & flag != 0
    }

    fn set_status(&mut self, p: u8)
        ensures
            *final(self) == with_status(*old(self), p),
    {
        if self.e_flag {
            self.p = p | (FLAG_MEMORY | FLAG_INDEX);
            self.m_flag = true;
            self.x_flag = true;
        } else {
            self.p = p;
            self.m_flag = flag_is_set(p, FLAG_MEMORY);
            self.x_flag = flag_is_set(p, FLAG_INDEX);
        }
    }

    #[verifier::rlimit(40)]
    fn operand_address(&mut self, memory: &Memory, mode: AddressingMode, eight: bool) -> (addr: u32)
        requires
            old(self).pc_in_range(),
            memory@.wf(),
        ensures
            (addr, final(self).pc) == effective_address(*old(self), memory@, mode, eight),
            *final(self) == at_pc(*old(self), final(self).pc),
            final(self).pc_in_range(),
            addr < 0x1000000,
    {
        match mode {
            AddressingMode::Immediate => {
                let pc = self.pc;
                self.pc = add24(pc, if eight {
                    1
                } else {
                    2
                });
                pc
            },
            AddressingMode::DirectPage | AddressingMode::DirectPageIndexedX
            | AddressingMode::DirectPageIndexedY => self.direct_address(memory, mode, eight),
            AddressingMode::Absolute | AddressingMode::AbsoluteIndexedX
            | AddressingMode::AbsoluteIndexedY => self.absolute_address(memory, mode, eight),
            AddressingMode::AbsoluteLong | AddressingMode::AbsoluteLongIndexedX => {
                self.long_address(memory, mode, eight)
            },
            AddressingMode::IndirectIndexed | AddressingMode::IndexedIndirect => {
                self.indirect_address(memory, mode, eight)
            },
            _ => 0,
        }
    }

    #[verifier::rlimit(40)]
    fn direct_address(&mut self, memory: &Memory, mode: AddressingMode, eight: bool) -> (addr: u32)
        requires
            old(self).pc_in_range(),
            memory@.wf(),
            mode == AddressingMode::DirectPage || mode == AddressingMode::DirectPageIndexedX
                || mode == AddressingMode::DirectPageIndexedY,
        ensures
            (addr, final(self).pc) == effective_address(*old(self), memory@, mode, eight),
            *final(self) == at_pc(*old(self), final(self).pc),
            final(self).pc_in_range(),
            addr < 0x1000000,
    {
        let pc = self.pc;
        let b0 = read_at(memory, pc);
        self.pc = add24(pc, 1);
        let index: u32 = if mode == AddressingMode::DirectPageIndexedX {
            self.x as u32 % 256
        } else if mode == AddressingMode::DirectPageIndexedY {
            self.y as u32 % 256
        } else {
            0
        };
        (self.dp as u32 + b0 as u32 + index) % 0x10000
    }

    #[verifier::rlimit(40)]
    fn absolute_address(&mut self, memory: &Memory, mode: AddressingMode, eight: bool) -> (addr: u32)
        requires
            old(self).pc_in_range(),
            memory@.wf(),
            mode == AddressingMode::Absolute || mode == AddressingMode::AbsoluteIndexedX || mode
                == AddressingMode::AbsoluteIndexedY,
        ensures
            (addr, final(self).pc) == effective_address(*old(self), memory@, mode, eight),
            *final(self) == at_pc(*old(self), final(self).pc),
            final(self).pc_in_range(),
            addr < 0x1000000,
    {
        let pc = self.pc;
        let w = word_from(memory, pc);
        self.pc = add24(pc, 2);
        if mode == AddressingMode::Absolute {
            self.db as u32 * 0x10000 + w
        } else if mode == AddressingMode::AbsoluteIndexedX {
            self.db as u32 * 0x10000 + (w + self.x as u32) % 0x10000
        } else {
            self.db as u32 * 0x10000 + (w + self.y as u32) % 0x10000
        }
    }

    #[verifier::rlimit(40)]
    fn long_address(&mut self, memory: &Memory, mode: AddressingMode, eight: bool) -> (addr: u32)
        requires
            old(self).pc_in_range(),
            memory@.wf(),
            mode == AddressingMode::AbsoluteLong || mode == AddressingMode::AbsoluteLongIndexedX,
        ensures
            (addr, final(self).pc) == effective_address(*old(self), memory@, mode, eight),
            *final(self) == at_pc(*old(self), final(self).pc),
            final(self).pc_in_range(),
            addr < 0x1000000,
    {
        let pc = self.pc;
        let w = word_from(memory, pc);
        let b2 = read_at(memory, add24(pc, 2));
        self.pc = add24(pc, 3);
        if mode == AddressingMode::AbsoluteLong {
            w + 0x10000 * b2 as u32
        } else {
            (w + 0x10000 * b2 as u32 + self.x as u32) % 0x1000000
        }
    }

    #[verifier::rlimit(40)]
    fn indirect_address(&mut self, memory: &Memory, mode: AddressingMode, eight: bool) -> (addr: u32)
        requires
            old(self).pc_in_range(),
            memory@.wf(),
            mode == AddressingMode::IndirectIndexed || mode == AddressingMode::IndexedIndirect,
        ensures
            (addr, final(self).pc) == effective_address(*old(self), memory@, mode, eight),
            *final(self) == at_pc(*old(self), final(self).pc),
            final(self).pc_in_range(),
            addr < 0x1000000,
    {
        let pc = self.pc;
        let b0 = read_at(memory, pc);
        self.pc = add24(pc, 1);
        if mode == AddressingMode::IndirectIndexed {
            let ptr = pointer_from(memory, (self.dp as u32 + b0 as u32) % 0x10000);
            self.db as u32 * 0x10000 + (ptr + self.y as u32) % 0x10000
        } else {
            let ptr = pointer_from(memory, (self.dp as u32 + b0 as u32 + self.x as u32 % 256) % 0x10000);
            self.db as u32 * 0x10000 + ptr
        }
    }

    fn read_operand(&mut self, memory: &Memory, mode: AddressingMode, eight: bool) -> (v: u32)
        requires
            old(self).pc_in_range(),
            memory@.wf(),
        ensures
            ({
                let (addr, pc) = effective_address(*old(self), memory@, mode, eight);
                &&& v as int == load_value(memory@, addr, eight)
                &&& *final(self) == at_pc(*old(self), pc)
            }),
            v < width_mask(eight),
            final(self).pc_in_range(),
    {
        let addr = self.operand_address(memory, mode, eight);
        load_from(memory, addr, eight)
    }

    fn load(&mut self, memory: &Memory, op: Operation, mode: AddressingMode)
        requires
            old(self).pc_in_range(),
            memory@.wf(),
            op == Operation::LoadA || op == Operation::LoadX || op == Operation::LoadY,
        ensures
            *final(self) == load_spec(*old(self), memory@, op, mode),
            final(self).pc_in_range(),
    {
        match op {
            Operation::LoadA => {
                let eight = self.m_flag;
                let v = self.read_operand(memory, mode, eight);
                self.a = put_reg(self.a, v, eight);
                self.p = nz_update(self.p, v, eight);
            },
            Operation::LoadX => {
                let eight = self.x_flag;
                let v = self.read_operand(memory, mode, eight);
                self.x = put_reg(self.x, v, eight);
                self.p = nz_update(self.p, v, eight);
            },
            _ => {
                let eight = self.x_flag;
                let v = self.read_operand(memory, mode, eight);
                self.y = put_reg(self.y, v, eight);
                self.p = nz_update(self.p, v, eight);
            },
        }
    }

    fn store(&mut self, memory: &mut Memory, op: Operation, mode: AddressingMode)
        requires
            old(self).pc_in_range(),
            old(memory)@.wf(),
        ensures
            (*final(self), final(memory)@) == store_spec(*old(self), old(memory)@, op, mode),
            final(self).pc_in_range(),
            final(memory)@.wf(),
    {
        let eight = match op {
            Operation::StoreX | Operation::StoreY => self.x_flag,
            _ => self.m_flag,
        };
        let v: u32 = match op {
            Operation::StoreA => self.a as u32,
            Operation::StoreX => self.x as u32,
            Operation::StoreY => self.y as u32,
            _ => 0,
        };
        let addr = self.operand_address(memory, mode, eight);
        store_to(memory, addr, v, eight);
    }

    #[verifier::rlimit(40)]
    fn adc(&mut self, v: u32)
        requires
            v < width_mask(old(self).m_flag),
        ensures
            *final(self) == adc_spec(*old(self), v as int),
    {
        let eight = self.m_flag;
        let mask = mask_of(eight);
        let acc: u32 = self.a as u32 % mask;
        let carry: u32 = if flag_is_set(self.p, FLAG_CARRY) {
            1
        } else {
            0
        };
        let sum = acc + v + carry;
        let result = sum % mask;
        let overflow = negative(acc, eight) == negative(v, eight) && negative(result, eight)
            != negative(acc, eight);
        self.a = put_reg(self.a, result, eight);
        self.p = nz_update(
            flag_update(flag_update(self.p, FLAG_CARRY, sum >= mask), FLAG_OVERFLOW, overflow),
            result,
            eight,
        );
    }

    #[verifier::rlimit(40)]
    fn sbc(&mut self, v: u32)
        requires
            v < width_mask(old(self).m_flag),
        ensures
            *final(self) == sbc_spec(*old(self), v as int),
    {
        let eight = self.m_flag;
        let mask = mask_of(eight);
        let acc: u32 = self.a as u32 % mask;
        let borrow: u32 = if flag_is_set(self.p, FLAG_CARRY) {
            0
        } else {
            1
        };
        let no_borrow = acc >= v + borrow;
        let result: u32 = if no_borrow {
            acc - v - borrow
        } else {
            acc + mask - v - borrow
        };
        proof {
            let diff = acc - v - borrow;
            if !no_borrow {
                lemma_mod_of_negative(diff, mask as int);
            } else {
                vstd::arithmetic::div_mod::lemma_small_mod(diff as nat, mask as nat);
            }
        }
        let overflow = negative(acc, eight) != negative(v, eight) && negative(result, eight)
            != negative(acc, eight);
        self.a = put_reg(self.a, result, eight);
        self.p = nz_update(
            flag_update(flag_update(self.p, FLAG_CARRY, no_borrow), FLAG_OVERFLOW, overflow),
            result,
            eight,
        );
    }

    fn compare(p: u8, r: u32, v: u32, eight: bool) -> (out: u8)
        requires
            r < width_mask(eight),
            v < width_mask(eight),
        ensures
            out == crate::semantics::compare_flags(p, r as int, v as int, eight),
    {
        let mask = mask_of(eight);
        let diff: u32 = if r >= v {
            r - v
        } else {
            r + mask - v
        };
        proof {
            if r < v {
                lemma_mod_of_negative(r - v, mask as int);
            }
        }
        flag_update(nz_update(p, diff, eight), FLAG_CARRY, r >= v)
    }

    #[verifier::rlimit(40)]
    fn alu(&mut self, memory: &Memory, op: Operation, mode: AddressingMode)
        requires
            old(self).pc_in_range(),
            memory@.wf(),
        ensures
            *final(self) == alu_spec(*old(self), memory@, op, mode),
            final(self).pc_in_range(),
    {
        let eight = match op {
            Operation::CompareX | Operation::CompareY => self.x_flag,
            _ => self.m_flag,
        };
        let mask = mask_of(eight);
        let v = self.read_operand(memory, mode, eight);
        match op {
            Operation::Add => self.adc(v),
            Operation::Sub => self.sbc(v),
            Operation::Compare => {
                self.p = Self::compare(self.p, self.a as u32 % mask, v, eight);
            },
            Operation::CompareX => {
                self.p = Self::compare(self.p, self.x as u32 % mask, v, eight);
            },
            Operation::CompareY => {
                self.p = Self::compare(self.p, self.y as u32 % mask, v, eight);
            },
            _ => {
                let acc = (self.a as u32 % mask) as u16;
                let w = v as u16;
                let r: u16 = match op {
                    Operation::And => acc & w,
                    Operation::Or => acc | w,
                    _ => acc ^ w,
                };
                let r = r as u32 % mask;
                self.a = put_reg(self.a, r, eight);
                self.p = nz_update(self.p, r, eight);
            },
        }
    }

    fn modify_value(op: Operation, v: u32, eight: bool, carry: bool) -> (r: (u32, bool))
        requires
            v < width_mask(eight),
        ensures
            (r.0 as int, r.1) == modify(op, v as int, eight, carry),
            r.0 < width_mask(eight),
    {
        let mask = mask_of(eight);
        match op {
            Operation::Inc => ((v + 1) % mask, carry),
            Operation::Dec => {
                if v == 0 {
                    (mask - 1, carry)
                } else {
                    (v - 1, carry)
                }
            },
            Operation::ShiftLeft => ((v * 2) % mask, negative(v, eight)),
            _ => (v / 2, v % 2 == 1),
        }
    }

    #[verifier::rlimit(40)]
    fn read_modify_write(&mut self, memory: &mut Memory, op: Operation, mode: AddressingMode)
        requires
            old(self).pc_in_range(),
            old(memory)@.wf(),
        ensures
            (*final(self), final(memory)@) == modify_spec(*old(self), old(memory)@, op, mode),
            final(self).pc_in_range(),
            final(memory)@.wf(),
    {
        let eight = self.m_flag;
        let mask = mask_of(eight);
        let carry = flag_is_set(self.p, FLAG_CARRY);
        if mode == AddressingMode::Implied {
            let (r, cy) = Self::modify_value(op, self.a as u32 % mask, eight, carry);
            self.a = put_reg(self.a, r, eight);
            self.p = nz_update(flag_update(self.p, FLAG_CARRY, cy), r, eight);
        } else {
            let addr = self.operand_address(memory, mode, eight);
            let v = load_from(memory, addr, eight);
            let (r, cy) = Self::modify_value(op, v, eight, carry);
            self.p = nz_update(flag_update(self.p, FLAG_CARRY, cy), r, eight);
            store_to(memory, addr, r, eight);
        }
    }

    fn transfer(&mut self, op: Operation)
        ensures
            *final(self) == transfer_spec(*old(self), op),
    {
        match op {
            Operation::TransferAX | Operation::TransferAY | Operation::TransferXY
            | Operation::TransferYX | Operation::TransferSX => self.transfer_to_index(op),
            Operation::TransferXA | Operation::TransferYA | Operation::TransferSC => {
                self.transfer_to_accumulator(op)
            },
            _ => self.transfer_other(op),
        }
    }

    #[verifier::rlimit(40)]
    fn transfer_to_index(&mut self, op: Operation)
        requires
            op == Operation::TransferAX || op == Operation::TransferAY || op
                == Operation::TransferXY || op == Operation::TransferYX || op
                == Operation::TransferSX,
        ensures
            *final(self) == transfer_spec(*old(self), op),
    {
        let x8 = self.x_flag;
        let xm = mask_of(x8);
        match op {
            Operation::TransferAX => {
                self.x = put_reg(self.x, self.a as u32, x8);
                self.p = nz_update(self.p, self.x as u32 % xm, x8);
            },
            Operation::TransferAY => {
                self.y = put_reg(self.y, self.a as u32, x8);
                self.p = nz_update(self.p, self.y as u32 % xm, x8);
            },
            Operation::TransferXY => {
                self.y = put_reg(self.y, self.x as u32, x8);
                self.p = nz_update(self.p, self.y as u32 % xm, x8);
            },
            Operation::TransferYX => {
                self.x = put_reg(self.x, self.y as u32, x8);
                self.p = nz_update(self.p, self.x as u32 % xm, x8);
            },
            _ => {
                self.x = put_reg(self.x, self.sp as u32, x8);
                self.p = nz_update(self.p, self.x as u32 % xm, x8);
            },
        }
    }

    #[verifier::rlimit(40)]
    fn transfer_to_accumulator(&mut self, op: Operation)
        requires
            op == Operation::TransferXA || op == Operation::TransferYA || op
                == Operation::TransferSC,
        ensures
            *final(self) == transfer_spec(*old(self), op),
    {
        let m8 = self.m_flag;
        let mm = mask_of(m8);
        let v: u16 = match op {
            Operation::TransferXA => self.x,
            Operation::TransferYA => self.y,
            _ => self.sp,
        };
        self.a = put_reg(self.a, v as u32, m8);
        self.p = nz_update(self.p, self.a as u32 % mm, m8);
    }

    #[verifier::rlimit(40)]
    fn transfer_other(&mut self, op: Operation)
        requires
            !(op == Operation::TransferAX || op == Operation::TransferAY || op
                == Operation::TransferXY || op == Operation::TransferYX || op
                == Operation::TransferSX || op == Operation::TransferXA || op
                == Operation::TransferYA || op == Operation::TransferSC),
        ensures
            *final(self) == transfer_spec(*old(self), op),
    {
        let m8 = self.m_flag;
        let x8 = self.x_flag;
        let xm = mask_of(x8);
        match op {
            Operation::TransferXS => {
                self.sp = if self.e_flag {
                    0x100 + self.x % 256
                } else {
                    put_reg(self.sp, self.x as u32, x8)
                };
            },
            Operation::TransferCS => {
                self.sp = if self.e_flag {
                    0x100 + self.a % 256
                } else {
                    put_reg(self.sp, self.a as u32, m8)
                };
            },
            Operation::Tcd => {
                self.dp = self.a;
                self.p = nz_update(self.p, self.a as u32, false);
            },
            _ => {
                let cur = self.x as u32 % xm;
                let dec = if cur == 0 {
                    xm - 1
                } else {
                    cur - 1
                };
                proof {
                    if cur == 0 {
                        lemma_mod_of_negative(-1, xm as int);
                    }
                }
                self.x = put_reg(self.x, dec, x8);
                self.p = nz_update(self.p, self.x as u32 % xm, x8);
            },
        }
    }

    fn push_byte(&mut self, memory: &mut Memory, value: u8)
        requires
            old(memory)@.wf(),
        ensures
            (*final(self), final(memory)@) == push_spec(*old(self), old(memory)@, value),
            final(memory)@.wf(),
    {
        memory.write(self.sp as u32, value);
        if self.e_flag {
            if self.sp % 256 == 0 {
                self.sp = 0x1FF;
            } else {
                self.sp = self.sp - 1;
            }
        } else {
            self.sp = if self.sp == 0 {
                0xFFFF
            } else {
                self.sp - 1
            };
        }
    }

    fn pull_byte(&mut self, memory: &Memory) -> (v: u8)
        requires
            memory@.wf(),
        ensures
            (*final(self), v) == pull_spec(*old(self), memory@),
    {
        if self.e_flag {
            if self.sp % 256 == 0xFF {
                self.sp = 0x100;
            } else {
                self.sp = self.sp + 1;
            }
        } else {
            self.sp = if self.sp == 0xFFFF {
                0
            } else {
                self.sp + 1
            };
        }
        memory.read(self.sp as u32)
    }

    fn push_wide(&mut self, memory: &mut Memory, v: u16, eight: bool)
        requires
            old(memory)@.wf(),
        ensures
            (*final(self), final(memory)@) == push_value(*old(self), old(memory)@, v, eight),
            final(memory)@.wf(),
    {
        if eight {
            self.push_byte(memory, (v % 256) as u8);
        } else {
            self.push_byte(memory, (v / 256) as u8);
            self.push_byte(memory, (v % 256) as u8);
        }
    }

    fn pull_wide(&mut self, memory: &Memory, r: u16, eight: bool) -> (out: u16)
        requires
            memory@.wf(),
        ensures
            (*final(self), out) == pull_value(*old(self), memory@, r, eight),
    {
        if eight {
            let lo = self.pull_byte(memory);
            put_reg(r, lo as u32, true)
        } else {
            let lo = self.pull_byte(memory);
            let hi = self.pull_byte(memory);
            lo as u16 + 256 * hi as u16
        }
    }

    #[verifier::rlimit(40)]
    fn stack(&mut self, memory: &mut Memory, op: Operation)
        requires
            old(memory)@.wf(),
        ensures
            (*final(self), final(memory)@) == stack_spec(*old(self), old(memory)@, op),
            final(memory)@.wf(),
            final(self).pc == old(self).pc,
    {
        match op {
            Operation::PushA => self.push_wide(memory, self.a, self.m_flag),
            Operation::PushX => self.push_wide(memory, self.x, self.x_flag),
            Operation::PushY => self.push_wide(memory, self.y, self.x_flag),
            Operation::PushP => self.push_byte(memory, self.p),
            Operation::PullA => {
                let eight = self.m_flag;
                let p = self.p;
                let a = self.pull_wide(memory, self.a, eight);
                self.a = a;
                self.p = nz_update(p, a as u32 % mask_of(eight), eight);
            },
            Operation::PullX => {
                let eight = self.x_flag;
                let p = self.p;
                let x = self.pull_wide(memory, self.x, eight);
                self.x = x;
                self.p = nz_update(p, x as u32 % mask_of(eight), eight);
            },
            Operation::PullY => {
                let eight = self.x_flag;
                let p = self.p;
                let y = self.pull_wide(memory, self.y, eight);
                self.y = y;
                self.p = nz_update(p, y as u32 % mask_of(eight), eight);
            },
            _ => {
                let p = self.pull_byte(memory);
                self.set_status(p);
            },
        }
    }

    fn push_return_address(&mut self, memory: &mut Memory, ret: u32)
        requires
            old(memory)@.wf(),
        ensures
            (*final(self), final(memory)@) == push_return(*old(self), old(memory)@, ret as int),
            final(memory)@.wf(),
    {
        self.push_byte(memory, ((ret / 256) % 256) as u8);
        self.push_byte(memory, (ret % 256) as u8);
    }

    #[verifier::rlimit(40)]
    fn control(&mut self, memory: &mut Memory, op: Operation)
        requires
            old(self).pc_in_range(),
            old(memory)@.wf(),
        ensures
            (*final(self), final(memory)@) == control_spec(*old(self), old(memory)@, op),
            final(self).pc_in_range(),
            final(memory)@.wf(),
    {
        match op {
            Operation::Jump | Operation::JumpIndirect => self.jump(memory, op),
            Operation::JumpSubroutine => self.call(memory),
            Operation::ReturnFromSubroutine | Operation::Rtl => self.ret(memory, op),
            Operation::ReturnFromInterrupt => self.ret_interrupt(memory),
            _ => self.software_interrupt(memory, op),
        }
    }

    spec fn is_brk_like(op: Operation) -> bool {
        match op {
            Operation::Jump | Operation::JumpIndirect | Operation::JumpSubroutine
            | Operation::ReturnFromSubroutine | Operation::Rtl | Operation::ReturnFromInterrupt => false,
            _ => true,
        }
    }

    #[verifier::rlimit(40)]
    fn jump(&mut self, memory: &Memory, op: Operation)
        requires
            old(self).pc_in_range(),
            memory@.wf(),
            op == Operation::Jump || op == Operation::JumpIndirect,
        ensures
            (*final(self), memory@) == control_spec(*old(self), memory@, op),
            final(self).pc_in_range(),
    {
        let pc = self.pc;
        let bank: u32 = pc / 0x10000 * 0x10000;
        let w = word_from(memory, pc);
        if op == Operation::Jump {
            self.pc = bank + w;
        } else {
            self.pc = bank + pointer_from(memory, w);
        }
    }

    #[verifier::rlimit(40)]
    fn call(&mut self, memory: &mut Memory)
        requires
            old(self).pc_in_range(),
            old(memory)@.wf(),
        ensures
            (*final(self), final(memory)@) == control_spec(
                *old(self),
                old(memory)@,
                Operation::JumpSubroutine,
            ),
            final(self).pc_in_range(),
            final(memory)@.wf(),
    {
        let pc = self.pc;
        let bank: u32 = pc / 0x10000 * 0x10000;
        let target = word_from(memory, pc);
        self.push_return_address(memory, (pc + 1) % 0x10000);
        self.pc = bank + target;
    }

    #[verifier::rlimit(40)]
    fn ret(&mut self, memory: &Memory, op: Operation)
        requires
            old(self).pc_in_range(),
            memory@.wf(),
            op == Operation::ReturnFromSubroutine || op == Operation::Rtl,
        ensures
            (*final(self), memory@) == control_spec(*old(self), memory@, op),
            final(self).pc_in_range(),
    {
        let pc = self.pc;
        let bank: u32 = pc / 0x10000 * 0x10000;
        let lo = self.pull_byte(memory) as u32;
        let hi = self.pull_byte(memory) as u32;
        if op == Operation::ReturnFromSubroutine {
            self.pc = bank + (lo + 256 * hi + 1) % 0x10000;
        } else {
            let b = self.pull_byte(memory) as u32;
            self.pc = b * 0x10000 + (lo + 256 * hi + 1) % 0x10000;
        }
    }

    #[verifier::rlimit(40)]
    fn ret_interrupt(&mut self, memory: &Memory)
        requires
            old(self).pc_in_range(),
            memory@.wf(),
        ensures
            (*final(self), memory@) == control_spec(
                *old(self),
                memory@,
                Operation::ReturnFromInterrupt,
            ),
            final(self).pc_in_range(),
    {
        let p = self.pull_byte(memory);
        let lo = self.pull_byte(memory) as u32;
        let hi = self.pull_byte(memory) as u32;
        if self.e_flag {
            self.pc = lo + 256 * hi;
        } else {
            let b = self.pull_byte(memory) as u32;
            self.pc = b * 0x10000 + lo + 256 * hi;
        }
        self.set_status(p);
    }

    #[verifier::rlimit(40)]
    fn software_interrupt(&mut self, memory: &mut Memory, op: Operation)
        requires
            old(self).pc_in_range(),
            old(memory)@.wf(),
            Self::is_brk_like(op),
        ensures
            (*final(self), final(memory)@) == control_spec(*old(self), old(memory)@, op),
            final(self).pc_in_range(),
            final(memory)@.wf(),
    {
        let pc = self.pc;
        let p = self.p;
        self.push_return_address(memory, add24(pc, 1));
        self.push_byte(memory, p | FLAG_INDEX);
        let vector = if self.e_flag {
            VECTOR_BRK_EMULATION
        } else {
            VECTOR_BRK_NATIVE
        };
        self.p = p | FLAG_IRQ;
        self.pc = word_from(memory, vector);
    }

    #[verifier::rlimit(40)]
    fn branch(&mut self, memory: &Memory, flag: u8, condition: bool) -> (extra: u8)
        requires
            old(self).pc_in_range(),
            memory@.wf(),
        ensures
            (*final(self), extra) == branch_spec(*old(self), memory@, flag, condition),
            final(self).pc_in_range(),
    {
        let pc = self.pc;
        let d = read_at(memory, pc) as u32;
        let next = add24(pc, 1);
        if flag_is_set(self.p, flag) == condition {
            let target: u32 = if d >= 0x80 {
                (next + 0x1000000 + d - 0x100) % 0x1000000
            } else {
                (next + d) % 0x1000000
            };
            proof {
                let t = crate::semantics::branch_target(*old(self), memory@);
                assert(next as int == (pc as int + 1) % 0x1000000);
                assert(t == wrap24(pc + 1 + crate::semantics::signed8(d as int)));
            }
            self.pc = target;
            if next / 256 != target / 256 {
                2
            } else {
                1
            }
        } else {
            self.pc = next;
            0
        }
    }

    #[verifier::rlimit(40)]
    fn change_mode(&mut self, memory: &Memory, op: Operation)
        requires
            old(self).pc_in_range(),
            memory@.wf(),
        ensures
            *final(self) == mode_spec(*old(self), memory@, op),
            final(self).pc_in_range(),
    {
        match op {
            Operation::Xce => {
                let to_emulation = flag_is_set(self.p, FLAG_CARRY);
                let p = flag_update(self.p, FLAG_CARRY, self.e_flag);
                if to_emulation {
                    self.e_flag = true;
                    self.p = p | (FLAG_MEMORY | FLAG_INDEX);
                    self.m_flag = true;
                    self.x_flag = true;
                    self.sp = 0x100 + self.sp % 256;
                } else {
                    self.e_flag = false;
                    self.p = p;
                    self.m_flag = flag_is_set(p, FLAG_MEMORY);
                    self.x_flag = flag_is_set(p, FLAG_INDEX);
                }
            },
            Operation::Rep => {
                let v = read_at(memory, self.pc);
                self.pc = add24(self.pc, 1);
                let p = self.p & !v;
                self.set_status(p);
            },
            Operation::Sep => {
                let v = read_at(memory, self.pc);
                self.pc = add24(self.pc, 1);
                let p = self.p | v;
                self.set_status(p);
            },
            Operation::SetFlag(f) => {
                self.p = self.p | f;
            },
            Operation::ClearFlag(f) => {
                self.p = self.p & !f;
            },
            _ => {},
        }
    }

    #[verifier::rlimit(40)]
    fn execute_operation(&mut self, op: Operation, mode: AddressingMode, memory: &mut Memory) -> (extra: u8)
        requires
            old(self).pc_in_range(),
            old(memory)@.wf(),
        ensures
            (*final(self), final(memory)@, extra) == operation_spec(
                *old(self),
                old(memory)@,
                op,
                mode,
            ),
            final(self).pc_in_range(),
            final(memory)@.wf(),
    {
        reveal(operation_spec);
        match op {
            Operation::LoadA | Operation::LoadX | Operation::LoadY => {
                self.load(memory, op, mode);
                0
            },
            Operation::StoreA | Operation::StoreX | Operation::StoreY | Operation::StoreZero => {
                self.store(memory, op, mode);
                0
            },
            Operation::Add | Operation::Sub | Operation::And | Operation::Or | Operation::Xor
            | Operation::Compare | Operation::CompareX | Operation::CompareY => {
                self.alu(memory, op, mode);
                0
            },
            Operation::Inc | Operation::Dec | Operation::ShiftLeft | Operation::ShiftRight => {
                self.read_modify_write(memory, op, mode);
                0
            },
            Operation::TransferAX | Operation::TransferAY | Operation::TransferXA
            | Operation::TransferXY | Operation::TransferYA | Operation::TransferYX
            | Operation::TransferSX | Operation::TransferXS | Operation::TransferSC
            | Operation::TransferCS | Operation::Tcd | Operation::DecX => {
                self.transfer(op);
                0
            },
            Operation::PushA | Operation::PullA | Operation::PushP | Operation::PullP
            | Operation::PushX | Operation::PullX | Operation::PushY | Operation::PullY => {
                self.stack(memory, op);
                0
            },
            Operation::Jump | Operation::JumpIndirect | Operation::JumpSubroutine
            | Operation::ReturnFromSubroutine | Operation::Rtl | Operation::ReturnFromInterrupt
            | Operation::SoftwareInterrupt => {
                self.control(memory, op);
                0
            },
            Operation::Branch { flag, condition } => self.branch(memory, flag, condition),
            Operation::Xce | Operation::Rep | Operation::Sep | Operation::SetFlag(_)
            | Operation::ClearFlag(_) | Operation::Nop => {
                self.change_mode(memory, op);
                0
            },
        }
    }

    fn immediate_byte(&self, op: Operation) -> (r: bool)
        ensures
            r == immediate_is_byte(*self, op),
    {
        match op {
            Operation::LoadX | Operation::LoadY | Operation::CompareX | Operation::CompareY => {
                self.x_flag
            },
            Operation::Rep | Operation::Sep => true,
            _ => self.m_flag,
        }
    }

    /// Executes one decoded instruction whose opcode has been fetched; returns its cycle cost.
    #[verifier::rlimit(40)]
    fn execute_instruction(&mut self, info: OpcodeInfo, memory: &mut Memory) -> (cost: u8)
        requires
            old(self).pc_in_range(),
            old(memory)@.wf(),
        ensures
            ({
                let (c2, m2, extra) = operation_spec(
                    *old(self),
                    old(memory)@,
                    info.operation,
                    info.mode,
                );
                &&& *final(self) == c2
                &&& final(memory)@ == m2
                &&& cost == (info.cycles + (if info.mode == AddressingMode::Immediate
                    && !immediate_is_byte(*old(self), info.operation) {
                    1int
                } else {
                    0
                }) + extra) as u8
            }),
            final(self).pc_in_range(),
            final(memory)@.wf(),
    {
        let wide: u8 = if info.mode == AddressingMode::Immediate && !self.immediate_byte(
            info.operation,
        ) {
            1
        } else {
            0
        };
        let extra = self.execute_operation(info.operation, info.mode, memory);
        (info.cycles as u32 + wide as u32 + extra as u32) as u8
    }

    /// Fetches, decodes and executes one instruction; returns the cycles it cost.
    /// An opcode the decoder does not know costs two cycles and changes nothing
    /// but the program counter and the cycle count.
    pub fn step(&mut self, memory: &mut Memory) -> (cycles: u8)
        requires
            old(self).wf(),
            old(memory)@.wf(),
        ensures
            (*final(self), final(memory)@, cycles) == step_spec(*old(self), old(memory)@),
            final(self).wf(),
            final(memory)@.wf(),
    {
        let mut sink = SilentSink;
        self.step_with(memory, &mut sink)
    }

    /// As `step`, reporting an opcode the decoder does not know to `sink`.
    #[verifier::rlimit(40)]
    pub fn step_with<S: DiagnosticSink>(&mut self, memory: &mut Memory, sink: &mut S) -> (cycles: u8)
        requires
            old(self).wf(),
            old(memory)@.wf(),
        ensures
            (*final(self), final(memory)@, cycles) == step_spec(*old(self), old(memory)@),
            final(self).wf(),
            final(memory)@.wf(),
    {
        proof {
            crate::emulation::lemma_step_keeps_invariant(*old(self), old(memory)@);
        }
        let at = self.pc;
        let opcode = memory.read(at);
        self.pc = add24(at, 1);
        let cycles = match get_opcode_info(opcode) {
            Some(info) => self.execute_instruction(info, memory),
            None => {
                sink.unknown_opcode(opcode, at);
                2
            },
        };
        self.cycles = self.cycles.wrapping_add(cycles as u64);
        cycles
    }

    /// Enters the NMI handler.
    pub fn handle_nmi(&mut self, memory: &mut Memory)
        requires
            old(self).wf(),
            old(memory)@.wf(),
        ensures
            (*final(self), final(memory)@) == nmi_spec(*old(self), old(memory)@),
            final(self).wf(),
            final(memory)@.wf(),
    {
        proof {
            crate::emulation::lemma_nmi_keeps_invariant(*old(self), old(memory)@);
        }
        let pc = self.pc;
        let p = self.p;
        if !self.e_flag {
            self.push_byte(memory, (pc / 0x10000) as u8);
        }
        self.push_return_address(memory, pc % 0x10000);
        self.push_byte(memory, p);
        let vector = if self.e_flag {
            VECTOR_NMI_EMULATION
        } else {
            VECTOR_NMI_NATIVE
        };
        self.p = (p | FLAG_IRQ) & !FLAG_DECIMAL;
        self.pc = word_from(memory, vector);
    }
}

} // verus!
