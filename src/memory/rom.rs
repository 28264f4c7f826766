//! The read-only memory in the low 16KB of memory space.
use vstd::prelude::*;
use vstd::slice::slice_to_vec;
use crate::bus::{DeviceRanges, MmioDevice, RWEnum, Range};
use crate::common::{Address, Byte};

verus! {

/// Read-only memory: answers reads of its 16KB and refuses every write.
#[derive(Clone, Copy, Debug)]
pub struct Rom {
    pub contents: [Byte; 0x4000],
}

impl Rom {
    /// The bytes the ROM holds.
    pub open spec fn bytes(&self) -> Seq<Byte> {
        self.contents@
    }

    pub fn new(contents: [Byte; 0x4000]) -> (r: Rom)
        ensures
            r.bytes() == contents@,
    {
        Rom { contents }
    }

    /// A copy of the whole image.
    pub fn get_memory(&self) -> (r: Vec<Byte>)
        ensures
            r@ == self.bytes(),
    {
        slice_to_vec(self.contents.as_slice())
    }
}

impl MmioDevice for Rom {
    open spec fn claims(&self, io: bool, dir: RWEnum) -> Seq<Range> {
        if io {
            seq![]
        } else {
            seq![Range(0x0000, 0x4000)]
        }
    }

    open spec fn read_spec(&self, io: bool, address: Address) -> Result<Byte, ()> {
        if !io && address < 0x4000 {
            Ok(self.bytes()[address as int])
        } else {
            Err(())
        }
    }

    open spec fn write_spec(&self, io: bool, address: Address, data: Byte) -> Option<Rom> {
        None
    }

    fn read(&self, address: Address, io: bool) -> (r: Result<Byte, ()>) {
        if !io && address < 0x4000 {
            Ok(self.contents[address as usize])
        } else {
            Err(())
        }
    }

    fn write(&mut self, address: Address, data: Byte, io: bool) -> (r: Result<(), ()>) {
        Err(())
    }

    fn get_ranges(&self) -> (r: DeviceRanges) {
        DeviceRanges {
            read: vec![Range(0x0000, 0x4000)],
            write: vec![Range(0x0000, 0x4000)],
            io_read: Vec::new(),
            io_write: Vec::new(),
        }
    }
}

} // verus!
