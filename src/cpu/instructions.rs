//! Instruction handlers, the operand helpers they are built from, and the
//! dispatch from decoded opcode to handler.
pub mod instruction_defs;
pub mod instruction_map;
pub mod meta_instructions;

use vstd::prelude::*;
use crate::common::{Byte, Fault};
use crate::cpu::{compose, high8, low8, wrap_inc, Cpu};
use self::instruction_map::{decode, Handler, InstructionMap, MapObj};

verus! {

/// What handler `h` does to `cpu` for the instruction bytes `instr`: the
/// register file after it, its cost in cycles, and its length in bytes.
pub open spec fn apply(h: Handler, cpu: Cpu, instr: Seq<Byte>) -> (Cpu, u16, u8) {
    match h {
        Handler::Nop => (cpu, 4, 1),
        Handler::LdBcImm => (Cpu { B: instr[1], C: instr[2], ..cpu }, 10, 3),
        Handler::LdBcA => (Cpu { B: cpu.A, C: 0, ..cpu }, 7, 1),
        Handler::IncBc => {
            let bc = wrap_inc(compose(cpu.B, cpu.C));
            (Cpu { B: high8(bc), C: low8(bc), ..cpu }, 6, 1)
        },
        Handler::IncB => (Cpu { B: ((cpu.B + 1) % 256) as Byte, ..cpu }, 4, 1),
    }
}

/// The outcome of running the instruction whose bytes are `instr` against
/// the dispatch tables `tables`.
pub open spec fn run_spec(tables: Seq<Seq<MapObj>>, cpu: Cpu, instr: Seq<Byte>) -> Result<(Cpu, u16, u8), Fault> {
    match decode(tables, 0, instr, 0) {
        Ok(h) => Ok(apply(h, cpu, instr)),
        Err(e) => Err(e),
    }
}

/// Decodes `instruction` through `map` and runs its handler on `cpu`.
/// Returns the instruction's cost in cycles and its length in bytes; a
/// decode failure changes nothing.
pub fn run(cpu: &mut Cpu, map: &InstructionMap, instruction: [Byte; 4]) -> (r: Result<(u16, u8), Fault>)
    ensures
        match run_spec(map.tables(), *old(cpu), instruction@) {
            Ok((after, cycles, len)) => r == Ok::<(u16, u8), Fault>((cycles, len)) && *final(cpu) == after
                && cycles >= 1,
            Err(e) => r == Err::<(u16, u8), Fault>(e) && *final(cpu) == *old(cpu),
        },
{
    match map.get(&instruction) {
        Ok(Handler::Nop) => Ok(instruction_defs::nop(cpu, instruction)),
        Ok(Handler::LdBcImm) => Ok(instruction_defs::ld_bc_imm(cpu, instruction)),
        Ok(Handler::LdBcA) => Ok(instruction_defs::ld_bc_a(cpu, instruction)),
        Ok(Handler::IncBc) => Ok(instruction_defs::inc_bc(cpu, instruction)),
        Ok(Handler::IncB) => Ok(instruction_defs::inc_b(cpu, instruction)),
        Err(e) => Err(e),
    }
}

} // verus!
