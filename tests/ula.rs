use kosmetic_zx::common::{Rect, Vec2};
use kosmetic_zx::ula::{Color, Ula};

#[test]
fn palette_uses_low_three_bits() {
    let ula = Ula::new();
    let expected = [
        (0x00, 0x00, 0x00),
        (0x00, 0x00, 0xd7),
        (0xd7, 0x00, 0x00),
        (0xd7, 0x00, 0xd7),
        (0x00, 0xd7, 0x00),
        (0x00, 0xd7, 0xd7),
        (0xd7, 0xd7, 0x00),
        (0xd7, 0xd7, 0xd7),
    ];
    for (code, (r, g, b)) in expected.iter().enumerate() {
        assert_eq!(ula.convert_color(code as u8), Color::RGB(*r, *g, *b));
        assert_eq!(ula.convert_color(code as u8 | 0xF8), Color::RGB(*r, *g, *b));
    }
}

#[test]
fn raster_paints_border_only() {
    let mut ula = Ula::new();
    let step = ula.event_loop();
    assert_eq!(step.point, None);
    assert!(!step.present);
    assert_eq!(ula.render_pos, Vec2::new(1, 0));
    ula.render_pos = Vec2::new(100, 20);
    let step = ula.event_loop();
    assert_eq!(step.point, Some(Vec2::new(4, 4)));
    assert_eq!(step.color, Color::RGB(0, 0, 0));
    ula.render_pos = Vec2::new(200, 100);
    assert_eq!(ula.event_loop().point, None);
}

#[test]
fn raster_wraps_lines_and_frames() {
    let mut ula = Ula::new();
    ula.render_pos = Vec2::new(447, 10);
    assert!(!ula.event_loop().present);
    assert_eq!(ula.render_pos, Vec2::new(0, 11));
    ula.render_pos = Vec2::new(447, 330);
    assert!(ula.event_loop().present);
    assert_eq!(ula.render_pos, Vec2::new(0, 0));
}

#[test]
fn inside_is_strict() {
    let ula = Ula::new();
    assert!(ula.inside(0, 0, 10, 10, 1, 1, 1, 1));
    assert!(!ula.inside(0, 0, 10, 10, 0, 1, 1, 1));
    assert!(!ula.inside(0, 0, 10, 10, 8, 8, 2, 2));
    assert!(ula.inside(0xFFF0, 0, 0x20, 10, 0xFFF8, 1, 1, 1));
    let r = Rect::new(1, 2, 3, 4);
    assert_eq!((r.x, r.y, r.w, r.h), (1, 2, 3, 4));
}
