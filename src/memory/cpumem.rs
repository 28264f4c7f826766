//! General RAM in the upper 32KB of memory space.
use vstd::prelude::*;
use vstd::array::spec_array_update;
use vstd::slice::slice_to_vec;
use crate::bus::{DeviceRanges, MmioDevice, RWEnum, Range};
use crate::common::{Address, Byte};

verus! {

/// Read/write memory of 32KB. It claims `[0x8000, 0xFFFF)`: a half-open range of 16-bit addresses cannot reach 0xFFFF itself.
#[derive(Clone, Copy, Debug)]
pub struct CPURam {
    pub bytes: [Byte; 0x8000],
}

impl CPURam {
    /// A bank filled with zeros.
    pub fn new() -> (r: CPURam)
        ensures
            forall|i: int| 0 <= i < 0x8000 ==> r.bytes@[i] == 0,
    {
        CPURam { bytes: [0; 0x8000] }
    }

    /// A copy of the whole bank.
    pub fn get_memory(&self) -> (r: Vec<Byte>)
        ensures
            r@ == self.bytes@,
    {
        slice_to_vec(self.bytes.as_slice())
    }
}

impl MmioDevice for CPURam {
    open spec fn claims(&self, io: bool, dir: RWEnum) -> Seq<Range> {
        if io {
            seq![]
        } else {
            seq![Range(0x8000, 0xFFFF)]
        }
    }

    open spec fn read_spec(&self, io: bool, address: Address) -> Result<Byte, ()> {
        if !io && address < 0x8000 {
            Ok(self.bytes@[address as int])
        } else {
            Err(())
        }
    }

    open spec fn write_spec(&self, io: bool, address: Address, data: Byte) -> Option<CPURam> {
        if !io && address < 0x8000 {
            Some(CPURam { bytes: spec_array_update(self.bytes, address as int, data) })
        } else {
            None
        }
    }

    fn read(&self, address: Address, io: bool) -> (r: Result<Byte, ()>) {
        if !io && address < 0x8000 {
            Ok(self.bytes[address as usize])
        } else {
            Err(())
        }
    }

    fn write(&mut self, address: Address, data: Byte, io: bool) -> (r: Result<(), ()>) {
        if !io && address < 0x8000 {
            let ghost before = self.bytes;
            self.bytes[address as usize] = data;
            assert(self.bytes =~= spec_array_update(before, address as int, data));
            Ok(())
        } else {
            Err(())
        }
    }

    fn get_ranges(&self) -> (r: DeviceRanges) {
        DeviceRanges {
            read: vec![Range(0x8000, 0xFFFF)],
            write: vec![Range(0x8000, 0xFFFF)],
            io_read: Vec::new(),
            io_write: Vec::new(),
        }
    }
}

} // verus!
