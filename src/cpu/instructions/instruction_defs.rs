//! The instruction handlers. Each takes the fetched instruction bytes,
//! updates the register file, and returns (cost in cycles, length in bytes).
use vstd::prelude::*;
use crate::common::Byte;
use crate::cpu::{lemma_compose_round_trip, Cpu};
use crate::cpu::instructions::apply;
use crate::cpu::instructions::instruction_map::Handler;
use crate::cpu::instructions::meta_instructions::{bytes_to_dword, inc};

verus! {

/// NOP: no effect.
pub fn nop(cpu: &mut Cpu, instruction: [Byte; 4]) -> (r: (u16, u8))
    ensures
        (*final(cpu), r.0, r.1) == apply(Handler::Nop, *old(cpu), instruction@),
{
    (4, 1)
}

/// LD BC,nn: loads the two immediate bytes into B and C.
pub fn ld_bc_imm(cpu: &mut Cpu, instruction: [Byte; 4]) -> (r: (u16, u8))
    ensures
        (*final(cpu), r.0, r.1) == apply(Handler::LdBcImm, *old(cpu), instruction@),
{
    proof {
        lemma_compose_round_trip(instruction@[1], instruction@[2]);
    }
    cpu.set_BC(bytes_to_dword((instruction[1], instruction[2])));
    (10, 3)
}

/// Loads A into the high byte of BC and clears the low byte.
pub fn ld_bc_a(cpu: &mut Cpu, instruction: [Byte; 4]) -> (r: (u16, u8))
    ensures
        (*final(cpu), r.0, r.1) == apply(Handler::LdBcA, *old(cpu), instruction@),
{
    proof {
        lemma_compose_round_trip(cpu.A, 0);
    }
    let zero: Byte = 0;
    cpu.set_BC(bytes_to_dword((cpu.A, zero)));
    (7, 1)
}

/// INC BC: adds one to the pair, wrapping at 16 bits.
pub fn inc_bc(cpu: &mut Cpu, instruction: [Byte; 4]) -> (r: (u16, u8))
    ensures
        (*final(cpu), r.0, r.1) == apply(Handler::IncBc, *old(cpu), instruction@),
{
    let bc = cpu.BC();
    let next: u16 = if bc == 0xFFFF { 0 } else { bc + 1 };
    cpu.set_BC(next);
    (6, 1)
}

/// INC B: adds one to B, wrapping at 8 bits.
pub fn inc_b(cpu: &mut Cpu, instruction: [Byte; 4]) -> (r: (u16, u8))
    ensures
        (*final(cpu), r.0, r.1) == apply(Handler::IncB, *old(cpu), instruction@),
{
    inc(&mut cpu.B);
    (4, 1)
}

} // verus!
