use vstd::prelude::*;

verus! {

/// Status register bit: carry.
pub const FLAG_CARRY: u8 = 0x01;
/// Status register bit: zero result.
pub const FLAG_ZERO: u8 = 0x02;
/// Status register bit: IRQ disable.
pub const FLAG_IRQ: u8 = 0x04;
/// Status register bit: decimal mode.
pub const FLAG_DECIMAL: u8 = 0x08;
/// Status register bit: 8-bit index registers (also the B flag of a pushed BRK status).
pub const FLAG_INDEX: u8 = 0x10;
/// Status register bit: 8-bit accumulator and memory.
pub const FLAG_MEMORY: u8 = 0x20;
/// Status register bit: signed overflow.
pub const FLAG_OVERFLOW: u8 = 0x40;
/// Status register bit: negative result.
pub const FLAG_NEGATIVE: u8 = 0x80;

/// What an instruction does, independent of how it finds its operand.
#[derive(Clone, Copy, Debug, PartialEq, Eq, Structural)]
pub enum Operation {
    LoadA,
    LoadX,
    LoadY,
    StoreA,
    StoreX,
    StoreY,
    StoreZero,
    Add,
    Sub,
    Inc,
    Dec,
    And,
    Or,
    Xor,
    Xce,
    Rep,
    Sep,
    Tcd,
    DecX,
    Rtl,
    Compare,
    CompareX,
    CompareY,
    ShiftLeft,
    ShiftRight,
    TransferAX,
    TransferAY,
    TransferXA,
    TransferXY,
    TransferYA,
    TransferYX,
    TransferSX,
    TransferXS,
    TransferSC,
    TransferCS,
    PushA,
    PullA,
    PushP,
    PullP,
    PushX,
    PullX,
    PushY,
    PullY,
    JumpSubroutine,
    ReturnFromSubroutine,
    ReturnFromInterrupt,
    SoftwareInterrupt,
    SetFlag(u8),
    ClearFlag(u8),
    Jump,
    JumpIndirect,
    Branch { flag: u8, condition: bool },
    Nop,
}

/// How an instruction locates its operand.
#[derive(Clone, Copy, Debug, PartialEq, Eq, Structural)]
pub enum AddressingMode {
    Implied,
    Immediate,
    DirectPage,
    DirectPageIndexedX,
    DirectPageIndexedY,
    Absolute,
    AbsoluteIndexedX,
    AbsoluteIndexedY,
    AbsoluteLong,
    AbsoluteLongIndexedX,
    Indirect,
    IndirectIndexed,
    IndexedIndirect,
}

/// One row of the decode table.
#[derive(Clone, Copy, Debug, PartialEq, Eq, Structural)]
pub struct OpcodeInfo {
    pub operation: Operation,
    pub mode: AddressingMode,
    pub cycles: u8,
}

pub open spec fn entry(operation: Operation, mode: AddressingMode, cycles: u8) -> OpcodeInfo {
    OpcodeInfo { operation, mode, cycles }
}

/// The decode table: what each opcode byte means, or `None` for a byte the
/// decoder does not know.
#[verifier::opaque]
pub open spec fn decode(opcode: u8) -> Option<OpcodeInfo> {
    match opcode {
        0x18 => Some(entry(Operation::ClearFlag(FLAG_CARRY), AddressingMode::Implied, 2)),
        0x38 => Some(entry(Operation::SetFlag(FLAG_CARRY), AddressingMode::Implied, 2)),
        0x58 => Some(entry(Operation::ClearFlag(FLAG_IRQ), AddressingMode::Implied, 2)),
        0x78 => Some(entry(Operation::SetFlag(FLAG_IRQ), AddressingMode::Implied, 2)),
        0xB8 => Some(entry(Operation::ClearFlag(FLAG_OVERFLOW), AddressingMode::Implied, 2)),
        0xD8 => Some(entry(Operation::ClearFlag(FLAG_DECIMAL), AddressingMode::Implied, 2)),
        0xF8 => Some(entry(Operation::SetFlag(FLAG_DECIMAL), AddressingMode::Implied, 2)),
        0xAA => Some(entry(Operation::TransferAX, AddressingMode::Implied, 2)),
        0xA8 => Some(entry(Operation::TransferAY, AddressingMode::Implied, 2)),
        0x8A => Some(entry(Operation::TransferXA, AddressingMode::Implied, 2)),
        0x98 => Some(entry(Operation::TransferYA, AddressingMode::Implied, 2)),
        0x9B => Some(entry(Operation::TransferXY, AddressingMode::Implied, 2)),
        0xBB => Some(entry(Operation::TransferYX, AddressingMode::Implied, 2)),
        0xBA => Some(entry(Operation::TransferSX, AddressingMode::Implied, 2)),
        0x9A => Some(entry(Operation::TransferXS, AddressingMode::Implied, 2)),
        0x3B => Some(entry(Operation::TransferSC, AddressingMode::Implied, 2)),
        0x1B => Some(entry(Operation::TransferCS, AddressingMode::Implied, 2)),
        0xA9 => Some(entry(Operation::LoadA, AddressingMode::Immediate, 2)),
        0xA5 => Some(entry(Operation::LoadA, AddressingMode::DirectPage, 3)),
        0xB5 => Some(entry(Operation::LoadA, AddressingMode::DirectPageIndexedX, 4)),
        0xAD => Some(entry(Operation::LoadA, AddressingMode::Absolute, 4)),
        0xBD => Some(entry(Operation::LoadA, AddressingMode::AbsoluteIndexedX, 4)),
        0xB9 => Some(entry(Operation::LoadA, AddressingMode::AbsoluteIndexedY, 4)),
        0xB1 => Some(entry(Operation::LoadA, AddressingMode::IndirectIndexed, 5)),
        0xA1 => Some(entry(Operation::LoadA, AddressingMode::IndexedIndirect, 6)),
        0xA2 => Some(entry(Operation::LoadX, AddressingMode::Immediate, 2)),
        0xA6 => Some(entry(Operation::LoadX, AddressingMode::DirectPage, 3)),
        0xB6 => Some(entry(Operation::LoadX, AddressingMode::DirectPageIndexedY, 4)),
        0xAE => Some(entry(Operation::LoadX, AddressingMode::Absolute, 4)),
        0xBE => Some(entry(Operation::LoadX, AddressingMode::AbsoluteIndexedY, 4)),
        0xA0 => Some(entry(Operation::LoadY, AddressingMode::Immediate, 2)),
        0xA4 => Some(entry(Operation::LoadY, AddressingMode::DirectPage, 3)),
        0xB4 => Some(entry(Operation::LoadY, AddressingMode::DirectPageIndexedX, 4)),
        0xAC => Some(entry(Operation::LoadY, AddressingMode::Absolute, 4)),
        0xBC => Some(entry(Operation::LoadY, AddressingMode::AbsoluteIndexedX, 4)),
        0x85 => Some(entry(Operation::StoreA, AddressingMode::DirectPage, 3)),
        0x95 => Some(entry(Operation::StoreA, AddressingMode::DirectPageIndexedX, 4)),
        0x8D => Some(entry(Operation::StoreA, AddressingMode::Absolute, 4)),
        0x8F => Some(entry(Operation::StoreA, AddressingMode::AbsoluteLong, 5)),
        0x9D => Some(entry(Operation::StoreA, AddressingMode::AbsoluteIndexedX, 5)),
        0x9F => Some(entry(Operation::StoreA, AddressingMode::AbsoluteLongIndexedX, 5)),
        0x99 => Some(entry(Operation::StoreA, AddressingMode::AbsoluteIndexedY, 5)),
        0x91 => Some(entry(Operation::StoreA, AddressingMode::IndirectIndexed, 6)),
        0x81 => Some(entry(Operation::StoreA, AddressingMode::IndexedIndirect, 6)),
        0x86 => Some(entry(Operation::StoreX, AddressingMode::DirectPage, 3)),
        0x96 => Some(entry(Operation::StoreX, AddressingMode::DirectPageIndexedY, 4)),
        0x8E => Some(entry(Operation::StoreX, AddressingMode::Absolute, 4)),
        0x84 => Some(entry(Operation::StoreY, AddressingMode::DirectPage, 3)),
        0x94 => Some(entry(Operation::StoreY, AddressingMode::DirectPageIndexedX, 4)),
        0x8C => Some(entry(Operation::StoreY, AddressingMode::Absolute, 4)),
        0x64 => Some(entry(Operation::StoreZero, AddressingMode::DirectPage, 3)),
        0x74 => Some(entry(Operation::StoreZero, AddressingMode::DirectPageIndexedX, 4)),
        0x9C => Some(entry(Operation::StoreZero, AddressingMode::Absolute, 4)),
        0x9E => Some(entry(Operation::StoreZero, AddressingMode::AbsoluteIndexedX, 5)),
        0xFB => Some(entry(Operation::Xce, AddressingMode::Implied, 2)),
        0xC2 => Some(entry(Operation::Rep, AddressingMode::Immediate, 3)),
        0xE2 => Some(entry(Operation::Sep, AddressingMode::Immediate, 3)),
        0x5B => Some(entry(Operation::Tcd, AddressingMode::Implied, 2)),
        0x69 => Some(entry(Operation::Add, AddressingMode::Immediate, 2)),
        0x65 => Some(entry(Operation::Add, AddressingMode::DirectPage, 3)),
        0x75 => Some(entry(Operation::Add, AddressingMode::DirectPageIndexedX, 4)),
        0x6D => Some(entry(Operation::Add, AddressingMode::Absolute, 4)),
        0x7D => Some(entry(Operation::Add, AddressingMode::AbsoluteIndexedX, 4)),
        0x79 => Some(entry(Operation::Add, AddressingMode::AbsoluteIndexedY, 4)),
        0x71 => Some(entry(Operation::Add, AddressingMode::IndirectIndexed, 5)),
        0x61 => Some(entry(Operation::Add, AddressingMode::IndexedIndirect, 6)),
        0xE9 => Some(entry(Operation::Sub, AddressingMode::Immediate, 2)),
        0xE5 => Some(entry(Operation::Sub, AddressingMode::DirectPage, 3)),
        0xF5 => Some(entry(Operation::Sub, AddressingMode::DirectPageIndexedX, 4)),
        0xED => Some(entry(Operation::Sub, AddressingMode::Absolute, 4)),
        0xFD => Some(entry(Operation::Sub, AddressingMode::AbsoluteIndexedX, 4)),
        0xF9 => Some(entry(Operation::Sub, AddressingMode::AbsoluteIndexedY, 4)),
        0xF1 => Some(entry(Operation::Sub, AddressingMode::IndirectIndexed, 5)),
        0xE1 => Some(entry(Operation::Sub, AddressingMode::IndexedIndirect, 6)),
        0x1A => Some(entry(Operation::Inc, AddressingMode::Implied, 2)),
        0xE6 => Some(entry(Operation::Inc, AddressingMode::DirectPage, 5)),
        0xEE => Some(entry(Operation::Inc, AddressingMode::Absolute, 6)),
        0x3A => Some(entry(Operation::Dec, AddressingMode::Implied, 2)),
        0xC6 => Some(entry(Operation::Dec, AddressingMode::DirectPage, 5)),
        0xCE => Some(entry(Operation::Dec, AddressingMode::Absolute, 6)),
        0x29 => Some(entry(Operation::And, AddressingMode::Immediate, 2)),
        0x25 => Some(entry(Operation::And, AddressingMode::DirectPage, 3)),
        0x35 => Some(entry(Operation::And, AddressingMode::DirectPageIndexedX, 4)),
        0x2D => Some(entry(Operation::And, AddressingMode::Absolute, 4)),
        0x3D => Some(entry(Operation::And, AddressingMode::AbsoluteIndexedX, 4)),
        0x39 => Some(entry(Operation::And, AddressingMode::AbsoluteIndexedY, 4)),
        0x31 => Some(entry(Operation::And, AddressingMode::IndirectIndexed, 5)),
        0x21 => Some(entry(Operation::And, AddressingMode::IndexedIndirect, 6)),
        0x09 => Some(entry(Operation::Or, AddressingMode::Immediate, 2)),
        0x05 => Some(entry(Operation::Or, AddressingMode::DirectPage, 3)),
        0x15 => Some(entry(Operation::Or, AddressingMode::DirectPageIndexedX, 4)),
        0x0D => Some(entry(Operation::Or, AddressingMode::Absolute, 4)),
        0x1D => Some(entry(Operation::Or, AddressingMode::AbsoluteIndexedX, 4)),
        0x19 => Some(entry(Operation::Or, AddressingMode::AbsoluteIndexedY, 4)),
        0x11 => Some(entry(Operation::Or, AddressingMode::IndirectIndexed, 5)),
        0x01 => Some(entry(Operation::Or, AddressingMode::IndexedIndirect, 6)),
        0x49 => Some(entry(Operation::Xor, AddressingMode::Immediate, 2)),
        0x45 => Some(entry(Operation::Xor, AddressingMode::DirectPage, 3)),
        0x55 => Some(entry(Operation::Xor, AddressingMode::DirectPageIndexedX, 4)),
        0x4D => Some(entry(Operation::Xor, AddressingMode::Absolute, 4)),
        0x5D => Some(entry(Operation::Xor, AddressingMode::AbsoluteIndexedX, 4)),
        0x59 => Some(entry(Operation::Xor, AddressingMode::AbsoluteIndexedY, 4)),
        0x51 => Some(entry(Operation::Xor, AddressingMode::IndirectIndexed, 5)),
        0x41 => Some(entry(Operation::Xor, AddressingMode::IndexedIndirect, 6)),
        0xC9 => Some(entry(Operation::Compare, AddressingMode::Immediate, 2)),
        0xC5 => Some(entry(Operation::Compare, AddressingMode::DirectPage, 3)),
        0xD5 => Some(entry(Operation::Compare, AddressingMode::DirectPageIndexedX, 4)),
        0xCD => Some(entry(Operation::Compare, AddressingMode::Absolute, 4)),
        0xDD => Some(entry(Operation::Compare, AddressingMode::AbsoluteIndexedX, 4)),
        0xD9 => Some(entry(Operation::Compare, AddressingMode::AbsoluteIndexedY, 4)),
        0xD1 => Some(entry(Operation::Compare, AddressingMode::IndirectIndexed, 5)),
        0xC1 => Some(entry(Operation::Compare, AddressingMode::IndexedIndirect, 6)),
        0xE0 => Some(entry(Operation::CompareX, AddressingMode::Immediate, 2)),
        0xE4 => Some(entry(Operation::CompareX, AddressingMode::DirectPage, 3)),
        0xEC => Some(entry(Operation::CompareX, AddressingMode::Absolute, 4)),
        0xC0 => Some(entry(Operation::CompareY, AddressingMode::Immediate, 2)),
        0xC4 => Some(entry(Operation::CompareY, AddressingMode::DirectPage, 3)),
        0xCC => Some(entry(Operation::CompareY, AddressingMode::Absolute, 4)),
        0xCA => Some(entry(Operation::DecX, AddressingMode::Implied, 2)),
        0x6B => Some(entry(Operation::Rtl, AddressingMode::Implied, 6)),
        0x48 => Some(entry(Operation::PushA, AddressingMode::Implied, 3)),
        0x68 => Some(entry(Operation::PullA, AddressingMode::Implied, 4)),
        0x08 => Some(entry(Operation::PushP, AddressingMode::Implied, 3)),
        0x28 => Some(entry(Operation::PullP, AddressingMode::Implied, 4)),
        0xDA => Some(entry(Operation::PushX, AddressingMode::Implied, 3)),
        0xFA => Some(entry(Operation::PullX, AddressingMode::Implied, 4)),
        0x5A => Some(entry(Operation::PushY, AddressingMode::Implied, 3)),
        0x7A => Some(entry(Operation::PullY, AddressingMode::Implied, 4)),
        0x0A => Some(entry(Operation::ShiftLeft, AddressingMode::Implied, 2)),
        0x06 => Some(entry(Operation::ShiftLeft, AddressingMode::DirectPage, 5)),
        0x0E => Some(entry(Operation::ShiftLeft, AddressingMode::Absolute, 6)),
        0x4A => Some(entry(Operation::ShiftRight, AddressingMode::Implied, 2)),
        0x46 => Some(entry(Operation::ShiftRight, AddressingMode::DirectPage, 5)),
        0x4E => Some(entry(Operation::ShiftRight, AddressingMode::Absolute, 6)),
        0x20 => Some(entry(Operation::JumpSubroutine, AddressingMode::Absolute, 6)),
        0x60 => Some(entry(Operation::ReturnFromSubroutine, AddressingMode::Implied, 6)),
        0x40 => Some(entry(Operation::ReturnFromInterrupt, AddressingMode::Implied, 6)),
        0x00 => Some(entry(Operation::SoftwareInterrupt, AddressingMode::Implied, 7)),
        0x4C => Some(entry(Operation::Jump, AddressingMode::Absolute, 3)),
        0x6C => Some(entry(Operation::JumpIndirect, AddressingMode::Indirect, 5)),
        0x10 => Some(entry(Operation::Branch { flag: FLAG_NEGATIVE, condition: false }, AddressingMode::Implied, 2)),
        0x30 => Some(entry(Operation::Branch { flag: FLAG_NEGATIVE, condition: true }, AddressingMode::Implied, 2)),
        0x50 => Some(entry(Operation::Branch { flag: FLAG_OVERFLOW, condition: false }, AddressingMode::Implied, 2)),
        0x70 => Some(entry(Operation::Branch { flag: FLAG_OVERFLOW, condition: true }, AddressingMode::Implied, 2)),
        0x90 => Some(entry(Operation::Branch { flag: FLAG_CARRY, condition: false }, AddressingMode::Implied, 2)),
        0xB0 => Some(entry(Operation::Branch { flag: FLAG_CARRY, condition: true }, AddressingMode::Implied, 2)),
        0xD0 => Some(entry(Operation::Branch { flag: FLAG_ZERO, condition: false }, AddressingMode::Implied, 2)),
        0xF0 => Some(entry(Operation::Branch { flag: FLAG_ZERO, condition: true }, AddressingMode::Implied, 2)),
        0xEA => Some(entry(Operation::Nop, AddressingMode::Implied, 2)),
        _ => None,
    }
}

/// Looks up one opcode byte in the decode table.
pub fn get_opcode_info(opcode: u8) -> (r: Option<OpcodeInfo>)
    ensures
        r == decode(opcode),
{
    reveal(decode);
    match opcode {
        0x18 => Some(OpcodeInfo { operation: Operation::ClearFlag(FLAG_CARRY), mode: AddressingMode::Implied, cycles: 2 }),
        0x38 => Some(OpcodeInfo { operation: Operation::SetFlag(FLAG_CARRY), mode: AddressingMode::Implied, cycles: 2 }),
        0x58 => Some(OpcodeInfo { operation: Operation::ClearFlag(FLAG_IRQ), mode: AddressingMode::Implied, cycles: 2 }),
        0x78 => Some(OpcodeInfo { operation: Operation::SetFlag(FLAG_IRQ), mode: AddressingMode::Implied, cycles: 2 }),
        0xB8 => Some(OpcodeInfo { operation: Operation::ClearFlag(FLAG_OVERFLOW), mode: AddressingMode::Implied, cycles: 2 }),
        0xD8 => Some(OpcodeInfo { operation: Operation::ClearFlag(FLAG_DECIMAL), mode: AddressingMode::Implied, cycles: 2 }),
        0xF8 => Some(OpcodeInfo { operation: Operation::SetFlag(FLAG_DECIMAL), mode: AddressingMode::Implied, cycles: 2 }),
        0xAA => Some(OpcodeInfo { operation: Operation::TransferAX, mode: AddressingMode::Implied, cycles: 2 }),
        0xA8 => Some(OpcodeInfo { operation: Operation::TransferAY, mode: AddressingMode::Implied, cycles: 2 }),
        0x8A => Some(OpcodeInfo { operation: Operation::TransferXA, mode: AddressingMode::Implied, cycles: 2 }),
        0x98 => Some(OpcodeInfo { operation: Operation::TransferYA, mode: AddressingMode::Implied, cycles: 2 }),
        0x9B => Some(OpcodeInfo { operation: Operation::TransferXY, mode: AddressingMode::Implied, cycles: 2 }),
        0xBB => Some(OpcodeInfo { operation: Operation::TransferYX, mode: AddressingMode::Implied, cycles: 2 }),
        0xBA => Some(OpcodeInfo { operation: Operation::TransferSX, mode: AddressingMode::Implied, cycles: 2 }),
        0x9A => Some(OpcodeInfo { operation: Operation::TransferXS, mode: AddressingMode::Implied, cycles: 2 }),
        0x3B => Some(OpcodeInfo { operation: Operation::TransferSC, mode: AddressingMode::Implied, cycles: 2 }),
        0x1B => Some(OpcodeInfo { operation: Operation::TransferCS, mode: AddressingMode::Implied, cycles: 2 }),
        0xA9 => Some(OpcodeInfo { operation: Operation::LoadA, mode: AddressingMode::Immediate, cycles: 2 }),
        0xA5 => Some(OpcodeInfo { operation: Operation::LoadA, mode: AddressingMode::DirectPage, cycles: 3 }),
        0xB5 => Some(OpcodeInfo { operation: Operation::LoadA, mode: AddressingMode::DirectPageIndexedX, cycles: 4 }),
        0xAD => Some(OpcodeInfo { operation: Operation::LoadA, mode: AddressingMode::Absolute, cycles: 4 }),
        0xBD => Some(OpcodeInfo { operation: Operation::LoadA, mode: AddressingMode::AbsoluteIndexedX, cycles: 4 }),
        0xB9 => Some(OpcodeInfo { operation: Operation::LoadA, mode: AddressingMode::AbsoluteIndexedY, cycles: 4 }),
        0xB1 => Some(OpcodeInfo { operation: Operation::LoadA, mode: AddressingMode::IndirectIndexed, cycles: 5 }),
        0xA1 => Some(OpcodeInfo { operation: Operation::LoadA, mode: AddressingMode::IndexedIndirect, cycles: 6 }),
        0xA2 => Some(OpcodeInfo { operation: Operation::LoadX, mode: AddressingMode::Immediate, cycles: 2 }),
        0xA6 => Some(OpcodeInfo { operation: Operation::LoadX, mode: AddressingMode::DirectPage, cycles: 3 }),
        0xB6 => Some(OpcodeInfo { operation: Operation::LoadX, mode: AddressingMode::DirectPageIndexedY, cycles: 4 }),
        0xAE => Some(OpcodeInfo { operation: Operation::LoadX, mode: AddressingMode::Absolute, cycles: 4 }),
        0xBE => Some(OpcodeInfo { operation: Operation::LoadX, mode: AddressingMode::AbsoluteIndexedY, cycles: 4 }),
        0xA0 => Some(OpcodeInfo { operation: Operation::LoadY, mode: AddressingMode::Immediate, cycles: 2 }),
        0xA4 => Some(OpcodeInfo { operation: Operation::LoadY, mode: AddressingMode::DirectPage, cycles: 3 }),
        0xB4 => Some(OpcodeInfo { operation: Operation::LoadY, mode: AddressingMode::DirectPageIndexedX, cycles: 4 }),
        0xAC => Some(OpcodeInfo { operation: Operation::LoadY, mode: AddressingMode::Absolute, cycles: 4 }),
        0xBC => Some(OpcodeInfo { operation: Operation::LoadY, mode: AddressingMode::AbsoluteIndexedX, cycles: 4 }),
        0x85 => Some(OpcodeInfo { operation: Operation::StoreA, mode: AddressingMode::DirectPage, cycles: 3 }),
        0x95 => Some(OpcodeInfo { operation: Operation::StoreA, mode: AddressingMode::DirectPageIndexedX, cycles: 4 }),
        0x8D => Some(OpcodeInfo { operation: Operation::StoreA, mode: AddressingMode::Absolute, cycles: 4 }),
        0x8F => Some(OpcodeInfo { operation: Operation::StoreA, mode: AddressingMode::AbsoluteLong, cycles: 5 }),
        0x9D => Some(OpcodeInfo { operation: Operation::StoreA, mode: AddressingMode::AbsoluteIndexedX, cycles: 5 }),
        0x9F => Some(OpcodeInfo { operation: Operation::StoreA, mode: AddressingMode::AbsoluteLongIndexedX, cycles: 5 }),
        0x99 => Some(OpcodeInfo { operation: Operation::StoreA, mode: AddressingMode::AbsoluteIndexedY, cycles: 5 }),
        0x91 => Some(OpcodeInfo { operation: Operation::StoreA, mode: AddressingMode::IndirectIndexed, cycles: 6 }),
        0x81 => Some(OpcodeInfo { operation: Operation::StoreA, mode: AddressingMode::IndexedIndirect, cycles: 6 }),
        0x86 => Some(OpcodeInfo { operation: Operation::StoreX, mode: AddressingMode::DirectPage, cycles: 3 }),
        0x96 => Some(OpcodeInfo { operation: Operation::StoreX, mode: AddressingMode::DirectPageIndexedY, cycles: 4 }),
        0x8E => Some(OpcodeInfo { operation: Operation::StoreX, mode: AddressingMode::Absolute, cycles: 4 }),
        0x84 => Some(OpcodeInfo { operation: Operation::StoreY, mode: AddressingMode::DirectPage, cycles: 3 }),
        0x94 => Some(OpcodeInfo { operation: Operation::StoreY, mode: AddressingMode::DirectPageIndexedX, cycles: 4 }),
        0x8C => Some(OpcodeInfo { operation: Operation::StoreY, mode: AddressingMode::Absolute, cycles: 4 }),
        0x64 => Some(OpcodeInfo { operation: Operation::StoreZero, mode: AddressingMode::DirectPage, cycles: 3 }),
        0x74 => Some(OpcodeInfo { operation: Operation::StoreZero, mode: AddressingMode::DirectPageIndexedX, cycles: 4 }),
        0x9C => Some(OpcodeInfo { operation: Operation::StoreZero, mode: AddressingMode::Absolute, cycles: 4 }),
        0x9E => Some(OpcodeInfo { operation: Operation::StoreZero, mode: AddressingMode::AbsoluteIndexedX, cycles: 5 }),
        0xFB => Some(OpcodeInfo { operation: Operation::Xce, mode: AddressingMode::Implied, cycles: 2 }),
        0xC2 => Some(OpcodeInfo { operation: Operation::Rep, mode: AddressingMode::Immediate, cycles: 3 }),
        0xE2 => Some(OpcodeInfo { operation: Operation::Sep, mode: AddressingMode::Immediate, cycles: 3 }),
        0x5B => Some(OpcodeInfo { operation: Operation::Tcd, mode: AddressingMode::Implied, cycles: 2 }),
        0x69 => Some(OpcodeInfo { operation: Operation::Add, mode: AddressingMode::Immediate, cycles: 2 }),
        0x65 => Some(OpcodeInfo { operation: Operation::Add, mode: AddressingMode::DirectPage, cycles: 3 }),
        0x75 => Some(OpcodeInfo { operation: Operation::Add, mode: AddressingMode::DirectPageIndexedX, cycles: 4 }),
        0x6D => Some(OpcodeInfo { operation: Operation::Add, mode: AddressingMode::Absolute, cycles: 4 }),
        0x7D => Some(OpcodeInfo { operation: Operation::Add, mode: AddressingMode::AbsoluteIndexedX, cycles: 4 }),
        0x79 => Some(OpcodeInfo { operation: Operation::Add, mode: AddressingMode::AbsoluteIndexedY, cycles: 4 }),
        0x71 => Some(OpcodeInfo { operation: Operation::Add, mode: AddressingMode::IndirectIndexed, cycles: 5 }),
        0x61 => Some(OpcodeInfo { operation: Operation::Add, mode: AddressingMode::IndexedIndirect, cycles: 6 }),
        0xE9 => Some(OpcodeInfo { operation: Operation::Sub, mode: AddressingMode::Immediate, cycles: 2 }),
        0xE5 => Some(OpcodeInfo { operation: Operation::Sub, mode: AddressingMode::DirectPage, cycles: 3 }),
        0xF5 => Some(OpcodeInfo { operation: Operation::Sub, mode: AddressingMode::DirectPageIndexedX, cycles: 4 }),
        0xED => Some(OpcodeInfo { operation: Operation::Sub, mode: AddressingMode::Absolute, cycles: 4 }),
        0xFD => Some(OpcodeInfo { operation: Operation::Sub, mode: AddressingMode::AbsoluteIndexedX, cycles: 4 }),
        0xF9 => Some(OpcodeInfo { operation: Operation::Sub, mode: AddressingMode::AbsoluteIndexedY, cycles: 4 }),
        0xF1 => Some(OpcodeInfo { operation: Operation::Sub, mode: AddressingMode::IndirectIndexed, cycles: 5 }),
        0xE1 => Some(OpcodeInfo { operation: Operation::Sub, mode: AddressingMode::IndexedIndirect, cycles: 6 }),
        0x1A => Some(OpcodeInfo { operation: Operation::Inc, mode: AddressingMode::Implied, cycles: 2 }),
        0xE6 => Some(OpcodeInfo { operation: Operation::Inc, mode: AddressingMode::DirectPage, cycles: 5 }),
        0xEE => Some(OpcodeInfo { operation: Operation::Inc, mode: AddressingMode::Absolute, cycles: 6 }),
        0x3A => Some(OpcodeInfo { operation: Operation::Dec, mode: AddressingMode::Implied, cycles: 2 }),
        0xC6 => Some(OpcodeInfo { operation: Operation::Dec, mode: AddressingMode::DirectPage, cycles: 5 }),
        0xCE => Some(OpcodeInfo { operation: Operation::Dec, mode: AddressingMode::Absolute, cycles: 6 }),
        0x29 => Some(OpcodeInfo { operation: Operation::And, mode: AddressingMode::Immediate, cycles: 2 }),
        0x25 => Some(OpcodeInfo { operation: Operation::And, mode: AddressingMode::DirectPage, cycles: 3 }),
        0x35 => Some(OpcodeInfo { operation: Operation::And, mode: AddressingMode::DirectPageIndexedX, cycles: 4 }),
        0x2D => Some(OpcodeInfo { operation: Operation::And, mode: AddressingMode::Absolute, cycles: 4 }),
        0x3D => Some(OpcodeInfo { operation: Operation::And, mode: AddressingMode::AbsoluteIndexedX, cycles: 4 }),
        0x39 => Some(OpcodeInfo { operation: Operation::And, mode: AddressingMode::AbsoluteIndexedY, cycles: 4 }),
        0x31 => Some(OpcodeInfo { operation: Operation::And, mode: AddressingMode::IndirectIndexed, cycles: 5 }),
        0x21 => Some(OpcodeInfo { operation: Operation::And, mode: AddressingMode::IndexedIndirect, cycles: 6 }),
        0x09 => Some(OpcodeInfo { operation: Operation::Or, mode: AddressingMode::Immediate, cycles: 2 }),
        0x05 => Some(OpcodeInfo { operation: Operation::Or, mode: AddressingMode::DirectPage, cycles: 3 }),
        0x15 => Some(OpcodeInfo { operation: Operation::Or, mode: AddressingMode::DirectPageIndexedX, cycles: 4 }),
        0x0D => Some(OpcodeInfo { operation: Operation::Or, mode: AddressingMode::Absolute, cycles: 4 }),
        0x1D => Some(OpcodeInfo { operation: Operation::Or, mode: AddressingMode::AbsoluteIndexedX, cycles: 4 }),
        0x19 => Some(OpcodeInfo { operation: Operation::Or, mode: AddressingMode::AbsoluteIndexedY, cycles: 4 }),
        0x11 => Some(OpcodeInfo { operation: Operation::Or, mode: AddressingMode::IndirectIndexed, cycles: 5 }),
        0x01 => Some(OpcodeInfo { operation: Operation::Or, mode: AddressingMode::IndexedIndirect, cycles: 6 }),
        0x49 => Some(OpcodeInfo { operation: Operation::Xor, mode: AddressingMode::Immediate, cycles: 2 }),
        0x45 => Some(OpcodeInfo { operation: Operation::Xor, mode: AddressingMode::DirectPage, cycles: 3 }),
        0x55 => Some(OpcodeInfo { operation: Operation::Xor, mode: AddressingMode::DirectPageIndexedX, cycles: 4 }),
        0x4D => Some(OpcodeInfo { operation: Operation::Xor, mode: AddressingMode::Absolute, cycles: 4 }),
        0x5D => Some(OpcodeInfo { operation: Operation::Xor, mode: AddressingMode::AbsoluteIndexedX, cycles: 4 }),
        0x59 => Some(OpcodeInfo { operation: Operation::Xor, mode: AddressingMode::AbsoluteIndexedY, cycles: 4 }),
        0x51 => Some(OpcodeInfo { operation: Operation::Xor, mode: AddressingMode::IndirectIndexed, cycles: 5 }),
        0x41 => Some(OpcodeInfo { operation: Operation::Xor, mode: AddressingMode::IndexedIndirect, cycles: 6 }),
        0xC9 => Some(OpcodeInfo { operation: Operation::Compare, mode: AddressingMode::Immediate, cycles: 2 }),
        0xC5 => Some(OpcodeInfo { operation: Operation::Compare, mode: AddressingMode::DirectPage, cycles: 3 }),
        0xD5 => Some(OpcodeInfo { operation: Operation::Compare, mode: AddressingMode::DirectPageIndexedX, cycles: 4 }),
        0xCD => Some(OpcodeInfo { operation: Operation::Compare, mode: AddressingMode::Absolute, cycles: 4 }),
        0xDD => Some(OpcodeInfo { operation: Operation::Compare, mode: AddressingMode::AbsoluteIndexedX, cycles: 4 }),
        0xD9 => Some(OpcodeInfo { operation: Operation::Compare, mode: AddressingMode::AbsoluteIndexedY, cycles: 4 }),
        0xD1 => Some(OpcodeInfo { operation: Operation::Compare, mode: AddressingMode::IndirectIndexed, cycles: 5 }),
        0xC1 => Some(OpcodeInfo { operation: Operation::Compare, mode: AddressingMode::IndexedIndirect, cycles: 6 }),
        0xE0 => Some(OpcodeInfo { operation: Operation::CompareX, mode: AddressingMode::Immediate, cycles: 2 }),
        0xE4 => Some(OpcodeInfo { operation: Operation::CompareX, mode: AddressingMode::DirectPage, cycles: 3 }),
        0xEC => Some(OpcodeInfo { operation: Operation::CompareX, mode: AddressingMode::Absolute, cycles: 4 }),
        0xC0 => Some(OpcodeInfo { operation: Operation::CompareY, mode: AddressingMode::Immediate, cycles: 2 }),
        0xC4 => Some(OpcodeInfo { operation: Operation::CompareY, mode: AddressingMode::DirectPage, cycles: 3 }),
        0xCC => Some(OpcodeInfo { operation: Operation::CompareY, mode: AddressingMode::Absolute, cycles: 4 }),
        0xCA => Some(OpcodeInfo { operation: Operation::DecX, mode: AddressingMode::Implied, cycles: 2 }),
        0x6B => Some(OpcodeInfo { operation: Operation::Rtl, mode: AddressingMode::Implied, cycles: 6 }),
        0x48 => Some(OpcodeInfo { operation: Operation::PushA, mode: AddressingMode::Implied, cycles: 3 }),
        0x68 => Some(OpcodeInfo { operation: Operation::PullA, mode: AddressingMode::Implied, cycles: 4 }),
        0x08 => Some(OpcodeInfo { operation: Operation::PushP, mode: AddressingMode::Implied, cycles: 3 }),
        0x28 => Some(OpcodeInfo { operation: Operation::PullP, mode: AddressingMode::Implied, cycles: 4 }),
        0xDA => Some(OpcodeInfo { operation: Operation::PushX, mode: AddressingMode::Implied, cycles: 3 }),
        0xFA => Some(OpcodeInfo { operation: Operation::PullX, mode: AddressingMode::Implied, cycles: 4 }),
        0x5A => Some(OpcodeInfo { operation: Operation::PushY, mode: AddressingMode::Implied, cycles: 3 }),
        0x7A => Some(OpcodeInfo { operation: Operation::PullY, mode: AddressingMode::Implied, cycles: 4 }),
        0x0A => Some(OpcodeInfo { operation: Operation::ShiftLeft, mode: AddressingMode::Implied, cycles: 2 }),
        0x06 => Some(OpcodeInfo { operation: Operation::ShiftLeft, mode: AddressingMode::DirectPage, cycles: 5 }),
        0x0E => Some(OpcodeInfo { operation: Operation::ShiftLeft, mode: AddressingMode::Absolute, cycles: 6 }),
        0x4A => Some(OpcodeInfo { operation: Operation::ShiftRight, mode: AddressingMode::Implied, cycles: 2 }),
        0x46 => Some(OpcodeInfo { operation: Operation::ShiftRight, mode: AddressingMode::DirectPage, cycles: 5 }),
        0x4E => Some(OpcodeInfo { operation: Operation::ShiftRight, mode: AddressingMode::Absolute, cycles: 6 }),
        0x20 => Some(OpcodeInfo { operation: Operation::JumpSubroutine, mode: AddressingMode::Absolute, cycles: 6 }),
        0x60 => Some(OpcodeInfo { operation: Operation::ReturnFromSubroutine, mode: AddressingMode::Implied, cycles: 6 }),
        0x40 => Some(OpcodeInfo { operation: Operation::ReturnFromInterrupt, mode: AddressingMode::Implied, cycles: 6 }),
        0x00 => Some(OpcodeInfo { operation: Operation::SoftwareInterrupt, mode: AddressingMode::Implied, cycles: 7 }),
        0x4C => Some(OpcodeInfo { operation: Operation::Jump, mode: AddressingMode::Absolute, cycles: 3 }),
        0x6C => Some(OpcodeInfo { operation: Operation::JumpIndirect, mode: AddressingMode::Indirect, cycles: 5 }),
        0x10 => Some(OpcodeInfo { operation: Operation::Branch { flag: FLAG_NEGATIVE, condition: false }, mode: AddressingMode::Implied, cycles: 2 }),
        0x30 => Some(OpcodeInfo { operation: Operation::Branch { flag: FLAG_NEGATIVE, condition: true }, mode: AddressingMode::Implied, cycles: 2 }),
        0x50 => Some(OpcodeInfo { operation: Operation::Branch { flag: FLAG_OVERFLOW, condition: false }, mode: AddressingMode::Implied, cycles: 2 }),
        0x70 => Some(OpcodeInfo { operation: Operation::Branch { flag: FLAG_OVERFLOW, condition: true }, mode: AddressingMode::Implied, cycles: 2 }),
        0x90 => Some(OpcodeInfo { operation: Operation::Branch { flag: FLAG_CARRY, condition: false }, mode: AddressingMode::Implied, cycles: 2 }),
        0xB0 => Some(OpcodeInfo { operation: Operation::Branch { flag: FLAG_CARRY, condition: true }, mode: AddressingMode::Implied, cycles: 2 }),
        0xD0 => Some(OpcodeInfo { operation: Operation::Branch { flag: FLAG_ZERO, condition: false }, mode: AddressingMode::Implied, cycles: 2 }),
        0xF0 => Some(OpcodeInfo { operation: Operation::Branch { flag: FLAG_ZERO, condition: true }, mode: AddressingMode::Implied, cycles: 2 }),
        0xEA => Some(OpcodeInfo { operation: Operation::Nop, mode: AddressingMode::Implied, cycles: 2 }),
        _ => None,
    }
}

/// Builds the whole decode table as 256 entries indexed by opcode byte.
pub fn create_opcode_table() -> (table: Vec<Option<OpcodeInfo>>)
    ensures
        table@.len() == 256,
        forall|b: int| 0 <= b < 256 ==> #[trigger] table@[b] == decode(b as u8),
{
    let mut table: Vec<Option<OpcodeInfo>> = Vec::new();
    let mut b: u16 = 0;
    while b < 256
        invariant
            b <= 256,
            table@.len() == b,
            forall|i: int| 0 <= i < b ==> #[trigger] table@[i] == decode(i as u8),
        decreases 256 - b,
    {
        table.push(get_opcode_info(b as u8));
        b = b + 1;
    }
    table
}

} // verus!
