use vstd::prelude::*;
use crate::cpu::Cpu;
use crate::memory::MemoryView;
use crate::opcodes::{
    Operation,
    AddressingMode,
    FLAG_CARRY,
    FLAG_ZERO,
    FLAG_IRQ,
    FLAG_DECIMAL,
    FLAG_INDEX,
    FLAG_MEMORY,
    FLAG_OVERFLOW,
    FLAG_NEGATIVE,
};
use crate::semantics::{
    flag_set,
    with_flag,
    with_nz,
    with_status,
    emulation_invariant,
    touches_no_width_bit,
    lemma_flags_apart,
    lemma_other_bits,
    lemma_set_bits,
    lemma_decoded_flags,
    load_spec,
    store_spec,
    alu_spec,
    modify_spec,
    transfer_spec,
    stack_spec,
    control_spec,
    branch_spec,
    mode_spec,
    operation_spec,
    step_spec,
    nmi_spec,
    push_spec,
    pull_spec,
};

verus! {

/// The status updates that operations make keep the width bits.
proof fn lemma_width_bits_kept()
    ensures
        forall|p: u8, v: int, eight: bool|
            #![trigger with_nz(p, v, eight)]
            flag_set(with_nz(p, v, eight), FLAG_MEMORY) == flag_set(p, FLAG_MEMORY) && flag_set(
                with_nz(p, v, eight),
                FLAG_INDEX,
            ) == flag_set(p, FLAG_INDEX),
        forall|p: u8, on: bool|
            #![trigger with_flag(p, FLAG_CARRY, on)]
            flag_set(with_flag(p, FLAG_CARRY, on), FLAG_MEMORY) == flag_set(p, FLAG_MEMORY)
                && flag_set(with_flag(p, FLAG_CARRY, on), FLAG_INDEX) == flag_set(p, FLAG_INDEX),
        forall|p: u8, on: bool|
            #![trigger with_flag(p, FLAG_OVERFLOW, on)]
            flag_set(with_flag(p, FLAG_OVERFLOW, on), FLAG_MEMORY) == flag_set(p, FLAG_MEMORY)
                && flag_set(with_flag(p, FLAG_OVERFLOW, on), FLAG_INDEX) == flag_set(
                p,
                FLAG_INDEX,
            ),
        forall|p: u8|
            #![trigger p | (FLAG_MEMORY | FLAG_INDEX)]
            flag_set(p | (FLAG_MEMORY | FLAG_INDEX), FLAG_MEMORY) && flag_set(
                p | (FLAG_MEMORY | FLAG_INDEX),
                FLAG_INDEX,
            ),
        forall|p: u8|
            #![trigger p | FLAG_IRQ]
            flag_set(p | FLAG_IRQ, FLAG_MEMORY) == flag_set(p, FLAG_MEMORY) && flag_set(
                p | FLAG_IRQ,
                FLAG_INDEX,
            ) == flag_set(p, FLAG_INDEX),
{
    lemma_flags_apart();
    assert forall|p: u8, v: int, eight: bool|
        #![trigger with_nz(p, v, eight)]
        flag_set(with_nz(p, v, eight), FLAG_MEMORY) == flag_set(p, FLAG_MEMORY) && flag_set(
            with_nz(p, v, eight),
            FLAG_INDEX,
        ) == flag_set(p, FLAG_INDEX) by {
        let p1 = with_flag(p, FLAG_ZERO, v == 0);
        lemma_other_bits(p, FLAG_ZERO, FLAG_MEMORY);
        lemma_other_bits(p, FLAG_ZERO, FLAG_INDEX);
        lemma_other_bits(p1, FLAG_NEGATIVE, FLAG_MEMORY);
        lemma_other_bits(p1, FLAG_NEGATIVE, FLAG_INDEX);
    }
    assert forall|p: u8, on: bool|
        #![trigger with_flag(p, FLAG_CARRY, on)]
        flag_set(with_flag(p, FLAG_CARRY, on), FLAG_MEMORY) == flag_set(p, FLAG_MEMORY)
            && flag_set(with_flag(p, FLAG_CARRY, on), FLAG_INDEX) == flag_set(p, FLAG_INDEX) by {
        lemma_other_bits(p, FLAG_CARRY, FLAG_MEMORY);
        lemma_other_bits(p, FLAG_CARRY, FLAG_INDEX);
    }
    assert forall|p: u8, on: bool|
        #![trigger with_flag(p, FLAG_OVERFLOW, on)]
        flag_set(with_flag(p, FLAG_OVERFLOW, on), FLAG_MEMORY) == flag_set(p, FLAG_MEMORY)
            && flag_set(with_flag(p, FLAG_OVERFLOW, on), FLAG_INDEX) == flag_set(p, FLAG_INDEX) by {
        lemma_other_bits(p, FLAG_OVERFLOW, FLAG_MEMORY);
        lemma_other_bits(p, FLAG_OVERFLOW, FLAG_INDEX);
    }
    assert forall|p: u8|
        #![trigger p | (FLAG_MEMORY | FLAG_INDEX)]
        flag_set(p | (FLAG_MEMORY | FLAG_INDEX), FLAG_MEMORY) && flag_set(
            p | (FLAG_MEMORY | FLAG_INDEX),
            FLAG_INDEX,
        ) by {
        lemma_set_bits(p, FLAG_MEMORY | FLAG_INDEX, FLAG_MEMORY);
        lemma_set_bits(p, FLAG_MEMORY | FLAG_INDEX, FLAG_INDEX);
    }
    assert forall|p: u8|
        #![trigger p | FLAG_IRQ]
        flag_set(p | FLAG_IRQ, FLAG_MEMORY) == flag_set(p, FLAG_MEMORY) && flag_set(
            p | FLAG_IRQ,
            FLAG_INDEX,
        ) == flag_set(p, FLAG_INDEX) by {
        lemma_other_bits(p, FLAG_IRQ, FLAG_MEMORY);
        lemma_other_bits(p, FLAG_IRQ, FLAG_INDEX);
    }
}

proof fn lemma_status_keeps(c: Cpu, p: u8)
    requires
        emulation_invariant(c),
    ensures
        emulation_invariant(with_status(c, p)),
{
    lemma_width_bits_kept();
}

proof fn lemma_push_pull_keep(c: Cpu, m: MemoryView, b: u8)
    requires
        emulation_invariant(c),
    ensures
        emulation_invariant(push_spec(c, m, b).0),
        emulation_invariant(pull_spec(c, m).0),
{
}

#[verifier::rlimit(60)]
proof fn lemma_data_ops_keep(c: Cpu, m: MemoryView, op: Operation, mode: AddressingMode)
    requires
        emulation_invariant(c),
    ensures
        emulation_invariant(load_spec(c, m, op, mode)),
        emulation_invariant(store_spec(c, m, op, mode).0),
        emulation_invariant(alu_spec(c, m, op, mode)),
        emulation_invariant(modify_spec(c, m, op, mode).0),
        emulation_invariant(transfer_spec(c, op)),
{
    lemma_width_bits_kept();
}

#[verifier::rlimit(60)]
proof fn lemma_stack_ops_keep(c: Cpu, m: MemoryView, op: Operation)
    requires
        emulation_invariant(c),
    ensures
        emulation_invariant(stack_spec(c, m, op).0),
{
    lemma_width_bits_kept();
    let (c1, m1) = push_spec(c, m, 0);
    lemma_push_pull_keep(c, m, 0);
    match op {
        Operation::PullP => {
            let (c2, p) = pull_spec(c, m);
            lemma_status_keeps(c2, p);
        },
        _ => {},
    }
}

#[verifier::rlimit(80)]
proof fn lemma_control_ops_keep(c: Cpu, m: MemoryView, op: Operation)
    requires
        emulation_invariant(c),
    ensures
        emulation_invariant(control_spec(c, m, op).0),
{
    lemma_width_bits_kept();
}

proof fn lemma_mode_ops_keep(c: Cpu, m: MemoryView, op: Operation)
    requires
        emulation_invariant(c),
        touches_no_width_bit(op),
    ensures
        emulation_invariant(mode_spec(c, m, op)),
{
    lemma_width_bits_kept();
    match op {
        Operation::SetFlag(f) | Operation::ClearFlag(f) => {
            lemma_other_bits(c.p, f, FLAG_MEMORY);
            lemma_other_bits(c.p, f, FLAG_INDEX);
        },
        _ => {},
    }
}

/// Every CPU step keeps the emulation-mode invariant.
pub proof fn lemma_step_keeps_invariant(c: Cpu, m: MemoryView)
    requires
        emulation_invariant(c),
    ensures
        emulation_invariant(step_spec(c, m).0),
{
    let c1 = Cpu { pc: crate::semantics::wrap24(c.pc + 1), ..c };
    let opcode = crate::memory::read_spec(m, c.pc);
    lemma_decoded_flags(opcode);
    if let Some(info) = crate::opcodes::decode(opcode) {
        reveal(operation_spec);
        let op = info.operation;
        let mode = info.mode;
        lemma_data_ops_keep(c1, m, op, mode);
        lemma_stack_ops_keep(c1, m, op);
        lemma_control_ops_keep(c1, m, op);
        lemma_mode_ops_keep(c1, m, op);
        match op {
            Operation::Branch { flag, condition } => {
                assert(emulation_invariant(branch_spec(c1, m, flag, condition).0));
            },
            _ => {},
        }
    }
}

/// NMI entry keeps the emulation-mode invariant.
pub proof fn lemma_nmi_keeps_invariant(c: Cpu, m: MemoryView)
    requires
        emulation_invariant(c),
    ensures
        emulation_invariant(nmi_spec(c, m).0),
{
    lemma_width_bits_kept();
    lemma_flags_apart();
    let p = c.p | FLAG_IRQ;
    lemma_other_bits(p, FLAG_DECIMAL, FLAG_MEMORY);
    lemma_other_bits(p, FLAG_DECIMAL, FLAG_INDEX);
}

} // verus!
