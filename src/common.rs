//! Plain values shared by every part of the machine.
use vstd::prelude::*;

verus! {

/// A 16-bit address, in memory space or in I/O space.
pub type Address = u16;

/// The unit of transfer on the bus.
pub type Byte = u8;

/// Why an access or an instruction could not complete.
#[derive(PartialEq, Eq, Structural, Copy, Clone, Debug)]
pub enum Fault {
    /// No registered range covers the address, or the device refused the access.
    AddressFault,
    /// A reply of the wrong kind came back for a request.
    ProtocolViolation,
    /// The dispatch table holds no handler for the decoded opcode path.
    NotImplemented,
}

/// A point on the display raster.
#[derive(PartialEq, Eq, Structural, Hash, Copy, Clone, Debug)]
pub struct Vec2 {
    pub x: u16,
    pub y: u16,
}

impl Vec2 {
    pub fn new(x: u16, y: u16) -> (r: Vec2)
        ensures
            r.x == x,
            r.y == y,
    {
        Vec2 { x, y }
    }
}

/// An axis-aligned rectangle on the display raster.
#[derive(PartialEq, Eq, Structural, Hash, Copy, Clone, Debug)]
pub struct Rect {
    pub x: u16,
    pub y: u16,
    pub w: u16,
    pub h: u16,
}

impl Rect {
    pub fn new(x: u16, y: u16, w: u16, h: u16) -> (r: Rect)
        ensures
            r.x == x,
            r.y == y,
            r.w == w,
            r.h == h,
    {
        Rect { x, y, w, h }
    }
}

} // verus!
