//! The CPU core: register file, register-pair views and the per-tick
//! state machine that paces instruction execution.
#![allow(non_snake_case)]

pub mod instructions;

use vstd::prelude::*;
use crate::bus::BusMessage;
use crate::common::{Address, Byte, Fault};
use self::instructions::meta_instructions::{bytes_to_dword, dword_to_bytes};
use self::instructions::instruction_map::InstructionMap;
use self::instructions::{run, run_spec};

verus! {

/// The low eight bits of a word.
pub open spec fn low8(w: Address) -> Byte {
    (w % 256) as Byte
}

/// The high eight bits of a word.
pub open spec fn high8(w: Address) -> Byte {
    (w / 256) as Byte
}

/// The word whose high byte is `h` and whose low byte is `l`.
pub open spec fn compose(h: Byte, l: Byte) -> Address {
    (h * 256 + l) as Address
}

/// A word split into its (high, low) bytes.
pub open spec fn decompose(w: Address) -> (Byte, Byte) {
    (high8(w), low8(w))
}

/// `w + 1`, wrapping from 0xFFFF to 0.
pub open spec fn wrap_inc(w: Address) -> Address {
    ((w + 1) % 65536) as Address
}

/// `w - 1`, wrapping from 0 to 0xFFFF.
pub open spec fn wrap_dec(w: Address) -> Address {
    ((w + 65535) % 65536) as Address
}

/// Anything an instruction can read or write as an operand: an 8-bit
/// register, a 16-bit register, a composed pair. Handlers are generic over
/// it, so one handler serves every operand width.
pub trait CPUModifiable: Copy + Sized {
    /// The value widened to 16 bits.
    spec fn wide(self) -> Address;

    /// The value that `set8(new)` stores.
    spec fn from8(new: Byte) -> Self;

    /// The value that `set16(new)` stores.
    spec fn from16(new: Address) -> Self;

    fn get8(self) -> (r: Byte)
        ensures
            r == low8(self.wide()),
    ;

    fn set8(&mut self, new: Byte)
        ensures
            *final(self) == Self::from8(new),
    ;

    fn get16(self) -> (r: Address)
        ensures
            r == self.wide(),
    ;

    fn set16(&mut self, new: Address)
        ensures
            *final(self) == Self::from16(new),
    ;
}

impl CPUModifiable for Byte {
    open spec fn wide(self) -> Address {
        self as Address
    }

    open spec fn from8(new: Byte) -> Byte {
        new
    }

    open spec fn from16(new: Address) -> Byte {
        low8(new)
    }

    fn get8(self) -> (r: Byte) {
        self
    }

    fn set8(&mut self, new: Byte) {
        *self = new;
    }

    fn get16(self) -> (r: Address) {
        self as Address
    }

    fn set16(&mut self, new: Address) {
        *self = (new % 256) as Byte;
    }
}

impl CPUModifiable for Address {
    open spec fn wide(self) -> Address {
        self
    }

    open spec fn from8(new: Byte) -> Address {
        new as Address
    }

    open spec fn from16(new: Address) -> Address {
        new
    }

    fn get8(self) -> (r: Byte) {
        (self % 256) as Byte
    }

    fn set8(&mut self, new: Byte) {
        *self = new as Address;
    }

    fn get16(self) -> (r: Address) {
        self
    }

    fn set16(&mut self, new: Address) {
        *self = new;
    }
}

/// Splitting a composed pair gives back the two bytes it was made of.
pub proof fn lemma_compose_round_trip(h: Byte, l: Byte)
    ensures
        decompose(compose(h, l)) == (h, l),
{
}

/// Composing the two halves of a word gives back the word.
pub proof fn lemma_decompose_round_trip(w: Address)
    ensures
        compose(high8(w), low8(w)) == w,
{
}

/// The register file, with the shadow bank, and the count of ticks the
/// instruction in progress still takes.
#[derive(PartialEq, Eq, Structural, Copy, Clone, Debug)]
pub struct Cpu {
    pub count: u16,
    pub A: Byte,
    pub B: Byte,
    pub C: Byte,
    pub D: Byte,
    pub E: Byte,
    pub F: Byte,
    pub H: Byte,
    pub L: Byte,
    pub I: Byte,
    pub SP: Address,
    pub PC: Address,
    pub IX: Address,
    pub IY: Address,
    pub sA: Byte,
    pub sB: Byte,
    pub sC: Byte,
    pub sD: Byte,
    pub sE: Byte,
    pub sF: Byte,
    pub sH: Byte,
    pub sL: Byte,
}

/// A register file with every register zero.
pub open spec fn zero_cpu() -> Cpu {
    Cpu {
        count: 0,
        A: 0,
        B: 0,
        C: 0,
        D: 0,
        E: 0,
        F: 0,
        H: 0,
        L: 0,
        I: 0,
        SP: 0,
        PC: 0,
        IX: 0,
        IY: 0,
        sA: 0,
        sB: 0,
        sC: 0,
        sD: 0,
        sE: 0,
        sF: 0,
        sH: 0,
        sL: 0,
    }
}

impl Cpu {
    /// A CPU at reset: every register zero, nothing in progress.
    pub fn new() -> (cpu: Cpu)
        ensures
            cpu == zero_cpu(),
    {
        Cpu {
            count: 0,
            A: 0,
            B: 0,
            C: 0,
            D: 0,
            E: 0,
            F: 0,
            H: 0,
            L: 0,
            I: 0,
            SP: 0,
            PC: 0,
            IX: 0,
            IY: 0,
            sA: 0,
            sB: 0,
            sC: 0,
            sD: 0,
            sE: 0,
            sF: 0,
            sH: 0,
            sL: 0,
        }
    }

    pub fn BC(&self) -> (r: Address)
        ensures
            r == compose(self.B, self.C),
    {
        bytes_to_dword((self.B, self.C))
    }

    pub fn AF(&self) -> (r: Address)
        ensures
            r == compose(self.A, self.F),
    {
        bytes_to_dword((self.A, self.F))
    }

    pub fn DE(&self) -> (r: Address)
        ensures
            r == compose(self.D, self.E),
    {
        bytes_to_dword((self.D, self.E))
    }

    pub fn HL(&self) -> (r: Address)
        ensures
            r == compose(self.H, self.L),
    {
        bytes_to_dword((self.H, self.L))
    }

    pub fn set_BC(&mut self, new: Address)
        ensures
            *final(self) == (Cpu { B: high8(new), C: low8(new), ..*old(self) }),
    {
        let bytes = dword_to_bytes(new);
        self.B = bytes.0;
        self.C = bytes.1;
    }

    pub fn set_AF(&mut self, new: Address)
        ensures
            *final(self) == (Cpu { A: high8(new), F: low8(new), ..*old(self) }),
    {
        let bytes = dword_to_bytes(new);
        self.A = bytes.0;
        self.F = bytes.1;
    }

    pub fn set_DE(&mut self, new: Address)
        ensures
            *final(self) == (Cpu { D: high8(new), E: low8(new), ..*old(self) }),
    {
        let bytes = dword_to_bytes(new);
        self.D = bytes.0;
        self.E = bytes.1;
    }

    pub fn set_HL(&mut self, new: Address)
        ensures
            *final(self) == (Cpu { H: high8(new), L: low8(new), ..*old(self) }),
    {
        let bytes = dword_to_bytes(new);
        self.H = bytes.0;
        self.L = bytes.1;
    }

    /// Takes one clock tick. While an instruction is still in progress the
    /// tick only counts down its remaining cycles and `false` comes back;
    /// with nothing in progress, `true` says that the next instruction is to
    /// be fetched and executed now.
    pub fn tick(&mut self) -> (fetch: bool)
        ensures
            fetch == (old(self).count == 0),
            fetch ==> *final(self) == *old(self),
            !fetch ==> *final(self) == (Cpu { count: (old(self).count - 1) as u16, ..*old(self) }),
    {
        if self.count == 0 {
            true
        } else {
            self.count = self.count - 1;
            false
        }
    }

    /// Decodes and executes the fetched bytes at the program counter: the
    /// handler's effect is applied, the program counter moves past the
    /// instruction, and the instruction's cost less one is left as the
    /// cycles still to wait. Returns the cost. A decode failure changes
    /// nothing.
    pub fn execute(&mut self, map: &InstructionMap, instruction: [Byte; 4]) -> (r: Result<u16, Fault>)
        ensures
            match run_spec(map.tables(), *old(self), instruction@) {
                Ok((after, cycles, len)) => r == Ok::<u16, Fault>(cycles) && *final(self) == (Cpu {
                    PC: ((old(self).PC + len) % 65536) as Address,
                    count: (cycles - 1) as u16,
                    ..after
                }),
                Err(e) => r == Err::<u16, Fault>(e) && *final(self) == *old(self),
            },
    {
        match run(self, map, instruction) {
            Ok((cycles, len)) => {
                self.PC = ((self.PC as u32 + len as u32) % 65536) as Address;
                self.count = cycles - 1;
                Ok(cycles)
            },
            Err(e) => Err(e),
        }
    }
}

/// The byte that a memory-read request for the instruction stream came back
/// with: `MemReadOk` carries it, `Error` is an address fault, and any other
/// reply breaks the protocol.
pub fn fetch_reply(reply: &BusMessage) -> (r: Result<Byte, Fault>)
    ensures
        match *reply {
            BusMessage::MemReadOk(b) => r == Ok::<Byte, Fault>(b),
            BusMessage::Error => r == Err::<Byte, Fault>(Fault::AddressFault),
            _ => r == Err::<Byte, Fault>(Fault::ProtocolViolation),
        },
{
    match reply {
        BusMessage::MemReadOk(b) => Ok(*b),
        BusMessage::Error => Err(Fault::AddressFault),
        _ => Err(Fault::ProtocolViolation),
    }
}

} // verus!
