//! The RAM bank in the 16KB above the ROM.
use vstd::prelude::*;
use vstd::array::spec_array_update;
use vstd::slice::slice_to_vec;
use crate::bus::{DeviceRanges, MmioDevice, RWEnum, Range};
use crate::common::{Address, Byte};

verus! {

/// Read/write memory of 16KB, claimed at `[0x4000, 0x8000)`.
#[derive(Clone, Copy, Debug)]
pub struct ULARam {
    pub bytes: [Byte; 0x4000],
}

impl ULARam {
    /// A bank filled with zeros.
    pub fn new() -> (r: ULARam)
        ensures
            forall|i: int| 0 <= i < 0x4000 ==> r.bytes@[i] == 0,
    {
        ULARam { bytes: [0; 0x4000] }
    }

    /// A copy of the whole bank.
    pub fn get_memory(&self) -> (r: Vec<Byte>)
        ensures
            r@ == self.bytes@,
    {
        slice_to_vec(self.bytes.as_slice())
    }
}

impl MmioDevice for ULARam {
    open spec fn claims(&self, io: bool, dir: RWEnum) -> Seq<Range> {
        if io {
            seq![]
        } else {
            seq![Range(0x4000, 0x8000)]
        }
    }

    open spec fn read_spec(&self, io: bool, address: Address) -> Result<Byte, ()> {
        if !io && address < 0x4000 {
            Ok(self.bytes@[address as int])
        } else {
            Err(())
        }
    }

    open spec fn write_spec(&self, io: bool, address: Address, data: Byte) -> Option<ULARam> {
        if !io && address < 0x4000 {
            Some(ULARam { bytes: spec_array_update(self.bytes, address as int, data) })
        } else {
            None
        }
    }

    fn read(&self, address: Address, io: bool) -> (r: Result<Byte, ()>) {
        if !io && address < 0x4000 {
            Ok(self.bytes[address as usize])
        } else {
            Err(())
        }
    }

    fn write(&mut self, address: Address, data: Byte, io: bool) -> (r: Result<(), ()>) {
        if !io && address < 0x4000 {
            let ghost before = self.bytes;
            self.bytes[address as usize] = data;
            assert(self.bytes =~= spec_array_update(before, address as int, data));
            Ok(())
        } else {
            Err(())
        }
    }

    fn get_ranges(&self) -> (r: DeviceRanges) {
        DeviceRanges {
            read: vec![Range(0x4000, 0x8000)],
            write: vec![Range(0x4000, 0x8000)],
            io_read: Vec::new(),
            io_write: Vec::new(),
        }
    }
}

} // verus!
