//! The display-timing unit: a one-address I/O device that holds the border
//! colour, and the raster position it advances on every tick.
use vstd::prelude::*;
use crate::bus::{DeviceRanges, MmioDevice, RWEnum, Range};
use crate::common::{Address, Byte, Vec2};

verus! {

/// Left edge of the border area on the raster.
pub const BORDER_X: u16 = 96;
/// Top edge of the border area on the raster.
pub const BORDER_Y: u16 = 16;
/// Width of the border area.
pub const BORDER_W: u16 = 352;
/// Height of the border area.
pub const BORDER_H: u16 = 315;
/// Left edge of the paper (screen) area, inside the border.
pub const SCREEN_X: u16 = BORDER_X + 48;
/// Top edge of the paper (screen) area, inside the border.
pub const SCREEN_Y: u16 = BORDER_Y + 48;
/// Width of the paper area.
pub const SCREEN_W: u16 = 256;
/// Height of the paper area.
pub const SCREEN_H: u16 = 192;
/// The I/O address of the border register.
pub const BORDER_PORT: Address = 0xFE;

/// A colour as red, green and blue intensities.
#[derive(PartialEq, Eq, Structural, Copy, Clone, Debug)]
pub struct Color {
    pub r: u8,
    pub g: u8,
    pub b: u8,
}

impl Color {
    #[allow(non_snake_case)]
    pub fn RGB(r: u8, g: u8, b: u8) -> (c: Color)
        ensures
            c == (Color { r, g, b }),
    {
        Color { r, g, b }
    }
}

/// The palette entry for a border code; only its low three bits count.
pub open spec fn palette(code: Byte) -> Color {
    let c = code % 8;
    if c == 0 {
        Color { r: 0x00, g: 0x00, b: 0x00 }
    } else if c == 1 {
        Color { r: 0x00, g: 0x00, b: 0xd7 }
    } else if c == 2 {
        Color { r: 0xd7, g: 0x00, b: 0x00 }
    } else if c == 3 {
        Color { r: 0xd7, g: 0x00, b: 0xd7 }
    } else if c == 4 {
        Color { r: 0x00, g: 0xd7, b: 0x00 }
    } else if c == 5 {
        Color { r: 0x00, g: 0xd7, b: 0xd7 }
    } else if c == 6 {
        Color { r: 0xd7, g: 0xd7, b: 0x00 }
    } else {
        Color { r: 0xd7, g: 0xd7, b: 0xd7 }
    }
}

/// Whether the `w2` by `h2` box at (x2, y2) lies strictly inside the `w1` by
/// `h1` box at (x1, y1).
pub open spec fn inside_spec(x1: u16, y1: u16, w1: u16, h1: u16, x2: u16, y2: u16, w2: u16, h2: u16) -> bool {
    x2 > x1 && y2 > y1 && x2 + w2 < x1 + w1 && y2 + h2 < y1 + h1
}

/// Where the raster goes after `p`: one step right, back to the left edge
/// and down a line past the border's right edge, back to the top past its
/// bottom edge.
pub open spec fn next_pos(p: Vec2) -> Vec2 {
    let x = p.x + 1;
    if x >= BORDER_X + BORDER_W {
        if p.y + 1 >= BORDER_Y + BORDER_H {
            Vec2 { x: 0, y: 0 }
        } else {
            Vec2 { x: 0, y: (p.y + 1) as u16 }
        }
    } else {
        Vec2 { x: x as u16, y: p.y }
    }
}

/// The point to paint in the border colour at raster position `p`, relative
/// to the border's origin: only positions in the border but outside the
/// paper get one.
pub open spec fn paint_at(p: Vec2) -> Option<Vec2> {
    if inside_spec(SCREEN_X, SCREEN_Y, SCREEN_W, SCREEN_H, p.x, p.y, 1, 1) {
        None
    } else if inside_spec(BORDER_X, BORDER_Y, BORDER_W, BORDER_H, p.x, p.y, 1, 1) {
        Some(Vec2 { x: (p.x - BORDER_X) as u16, y: (p.y - BORDER_Y) as u16 })
    } else {
        None
    }
}

/// What the video layer is to do for one raster step.
#[derive(PartialEq, Eq, Structural, Copy, Clone, Debug)]
pub struct RenderStep {
    /// A point to paint in `color`, relative to the border's origin.
    pub point: Option<Vec2>,
    /// The border colour at this step.
    pub color: Color,
    /// The raster wrapped to the top: show the frame and clear to black.
    pub present: bool,
}

/// The display-timing unit's state.
#[derive(PartialEq, Eq, Structural, Copy, Clone, Debug)]
pub struct Ula {
    pub border_color: Color,
    pub render_pos: Vec2,
}

impl Ula {
    /// The raster position lies inside the raster.
    pub open spec fn wf(&self) -> bool {
        self.render_pos.x < BORDER_X + BORDER_W && self.render_pos.y < BORDER_Y + BORDER_H
    }

    /// A unit with a black border, its raster at the origin.
    pub fn new() -> (u: Ula)
        ensures
            u.wf(),
            u.border_color == palette(0),
            u.render_pos == (Vec2 { x: 0, y: 0 }),
    {
        Ula { border_color: Color::RGB(0, 0, 0), render_pos: Vec2::new(0, 0) }
    }

    /// The palette entry for border code `data`.
    pub fn convert_color(&self, data: Byte) -> (c: Color)
        ensures
            c == palette(data),
    {
        let code = data % 8;
        if code == 0 {
            Color::RGB(0x0, 0x0, 0x0)
        } else if code == 1 {
            Color::RGB(0x0, 0x0, 0xd7)
        } else if code == 2 {
            Color::RGB(0xd7, 0x0, 0x0)
        } else if code == 3 {
            Color::RGB(0xd7, 0x0, 0xd7)
        } else if code == 4 {
            Color::RGB(0x0, 0xd7, 0x0)
        } else if code == 5 {
            Color::RGB(0x0, 0xd7, 0xd7)
        } else if code == 6 {
            Color::RGB(0xd7, 0xd7, 0x0)
        } else {
            Color::RGB(0xd7, 0xd7, 0xd7)
        }
    }

    pub fn inside(&self, x1: u16, y1: u16, w1: u16, h1: u16, x2: u16, y2: u16, w2: u16, h2: u16) -> (r: bool)
        ensures
            r == inside_spec(x1, y1, w1, h1, x2, y2, w2, h2),
    {
        x2 > x1 && y2 > y1 && (x2 as u32) + (w2 as u32) < (x1 as u32) + (w1 as u32) && (y2 as u32) + (
        h2 as u32) < (y1 as u32) + (h1 as u32)
    }

    /// The current border colour.
    pub fn border_color(&self) -> (c: Color)
        ensures
            c == self.border_color,
    {
        self.border_color
    }

    /// One raster step: says what to paint at the current position, then
    /// advances the position.
    pub fn event_loop(&mut self) -> (r: RenderStep)
        requires
            old(self).wf(),
        ensures
            final(self).wf(),
            final(self).border_color == old(self).border_color,
            final(self).render_pos == next_pos(old(self).render_pos),
            r.point == paint_at(old(self).render_pos),
            r.color == old(self).border_color,
            r.present == (final(self).render_pos == (Vec2 { x: 0, y: 0 })),
    {
        let pos = self.render_pos;
        let point = if self.inside(SCREEN_X, SCREEN_Y, SCREEN_W, SCREEN_H, pos.x, pos.y, 1, 1) {
            None
        } else if self.inside(BORDER_X, BORDER_Y, BORDER_W, BORDER_H, pos.x, pos.y, 1, 1) {
            Some(Vec2::new(pos.x - BORDER_X, pos.y - BORDER_Y))
        } else {
            None
        };
        let mut x = pos.x + 1;
        let mut y = pos.y;
        if x >= BORDER_X + BORDER_W {
            x = 0;
            y += 1;
        }
        if y >= BORDER_Y + BORDER_H {
            y = 0;
        }
        self.render_pos = Vec2::new(x, y);
        RenderStep { point, color: self.border_color, present: x == 0 && y == 0 }
    }
}

impl MmioDevice for Ula {
    open spec fn claims(&self, io: bool, dir: RWEnum) -> Seq<Range> {
        if io {
            seq![Range(BORDER_PORT, 0xFF)]
        } else {
            seq![]
        }
    }

    open spec fn read_spec(&self, io: bool, address: Address) -> Result<Byte, ()> {
        Err(())
    }

    open spec fn write_spec(&self, io: bool, address: Address, data: Byte) -> Option<Ula> {
        if io {
            Some(Ula { border_color: palette(data), ..*self })
        } else {
            None
        }
    }

    fn read(&self, address: Address, io: bool) -> (r: Result<Byte, ()>) {
        Err(())
    }

    fn write(&mut self, address: Address, data: Byte, io: bool) -> (r: Result<(), ()>) {
        if io {
            self.border_color = self.convert_color(data);
            Ok(())
        } else {
            Err(())
        }
    }

    fn get_ranges(&self) -> (r: DeviceRanges) {
        DeviceRanges {
            read: Vec::new(),
            write: Vec::new(),
            io_read: vec![Range(BORDER_PORT, 0xFF)],
            io_write: vec![Range(BORDER_PORT, 0xFF)],
        }
    }
}

} // verus!
