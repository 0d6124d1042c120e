//! Geometry, motion arithmetic, animation, sprite lookup and random-source
//! behavior.

use invade_rs::geometry::{Point, Rect, Shape};
use invade_rs::motion::{clamp_coord, displacement, translate, COORD_MAX, COORD_MIN};
use invade_rs::random::Prng;
use invade_rs::sequence::{Frame, Sequence};
use invade_rs::sprite::{Cell, CellName, SheetEntry, SpriteSheet};

fn cell(x: i16, y: i16, w: i16, h: i16) -> Cell {
    Cell { frame: Rect::new_from_x_y_w_h(x, y, w, h) }
}

#[test]
fn rect_accessors_reflect_construction() {
    let r = Rect::new(Point { x: 3, y: 4 }, Shape { width: 10, height: 20 });
    assert_eq!(r.x(), 3);
    assert_eq!(r.y(), 4);
    assert_eq!(r.width(), 10);
    assert_eq!(r.height(), 20);
    assert_eq!(r.left(), 3);
    assert_eq!(r.top(), 4);
    assert_eq!(r.right(), 13);
    assert_eq!(r.bottom(), 24);
}

#[test]
fn rect_set_x_set_y_move_origin_only() {
    let mut r = Rect::new_from_x_y_w_h(1, 2, 3, 4);
    r.set_x(7);
    r.set_y(9);
    assert_eq!(r.x(), 7);
    assert_eq!(r.y(), 9);
    assert_eq!(r.width(), 3);
    assert_eq!(r.height(), 4);
}

#[test]
fn rects_overlap_strictly() {
    let a = Rect::new_from_x_y_w_h(0, 0, 10, 10);
    let b = Rect::new_from_x_y_w_h(5, 5, 10, 10);
    assert!(a.intersects(&b));
    assert!(b.intersects(&a));
}

#[test]
fn touching_edges_do_not_intersect() {
    let a = Rect::new_from_x_y_w_h(0, 0, 10, 10);
    let b = Rect::new_from_x_y_w_h(10, 0, 10, 10);
    assert!(!a.intersects(&b));
    assert!(!b.intersects(&a));
}

#[test]
fn zero_width_rect_has_no_leading_edge() {
    let a = Rect::new_from_x_y_w_h(0, 0, 0, 10);
    let b = Rect::new_from_x_y_w_h(0, 0, 10, 10);
    assert!(!a.intersects(&b));
    assert!(!b.intersects(&a));
}

#[test]
fn wall_sliver_intersects_overhanging_box() {
    // The left wall is one pixel wide; a box reaching past x = 0 meets it.
    let wall = Rect::new_from_x_y_w_h(0, 0, 1, 600);
    let ferris = Rect::new_from_x_y_w_h(-80, 0, 96, 64);
    assert!(ferris.intersects(&wall));
}

#[test]
fn displacement_scales_and_rounds_half_away_from_zero() {
    // 80 millipixels per millisecond over one second: 80 pixels.
    assert_eq!(displacement(80, 1000), 80);
    assert_eq!(displacement(-80, 1000), -80);
    // 80.48 rounds down, 80.56 rounds up.
    assert_eq!(displacement(80, 1006), 80);
    assert_eq!(displacement(80, 1007), 81);
    // Exactly one half rounds away from zero, on both sides.
    assert_eq!(displacement(1, 500), 1);
    assert_eq!(displacement(-1, 500), -1);
    assert_eq!(displacement(0, 12345), 0);
}

#[test]
fn translate_clamps_to_coordinate_band() {
    assert_eq!(translate(0, 50), 50);
    assert_eq!(translate(COORD_MAX, 10), COORD_MAX);
    assert_eq!(translate(COORD_MIN, -10), COORD_MIN);
    assert_eq!(clamp_coord(1000000), COORD_MAX);
    assert_eq!(clamp_coord(-1000000), COORD_MIN);
    assert_eq!(clamp_coord(123), 123);
}

#[test]
fn sequence_advances_one_frame_and_wraps() {
    let frames = [
        Frame::new(cell(0, 0, 8, 8), 100),
        Frame::new(cell(8, 0, 8, 8), 100),
    ];
    let mut s = Sequence::new(frames);
    assert_eq!(s.current_frame().cell.frame.x(), 0);
    s.update(150);
    assert_eq!(s.current, 1);
    assert_eq!(s.acc_time_ms, 50);
    s.update(120);
    // 50 + 120 exceeds 100: wraps back to the first frame.
    assert_eq!(s.current, 0);
    assert_eq!(s.acc_time_ms, 70);
}

#[test]
fn sequence_stays_within_frame_duration() {
    let frames = [Frame::new(cell(0, 0, 8, 8), 100), Frame::new(cell(8, 0, 8, 8), 100)];
    let mut s = Sequence::new(frames);
    s.update(100);
    // Equal to the duration does not advance; strict exceedance does.
    assert_eq!(s.current, 0);
    assert_eq!(s.acc_time_ms, 100);
}

#[test]
fn sprite_sheet_lookup_finds_first_match() {
    let entries = vec![
        SheetEntry { name: CellName::Missile, cell: cell(0, 0, 8, 16) },
        SheetEntry { name: CellName::Ship, cell: cell(8, 0, 64, 32) },
        SheetEntry { name: CellName::Missile, cell: cell(99, 99, 1, 1) },
    ];
    let sheet = SpriteSheet::new(entries);
    let c = sheet.cell(CellName::Missile).unwrap();
    assert_eq!(c.frame.x(), 0);
    assert_eq!(c.shape().width, 8);
    assert!(sheet.cell(CellName::Shield(0)).is_none());
}

#[test]
fn sprite_sheet_duplicate_preserves_table() {
    let entries = vec![SheetEntry { name: CellName::Ship, cell: cell(1, 2, 3, 4) }];
    let sheet = SpriteSheet::new(entries);
    let copy = sheet.duplicate();
    assert_eq!(copy.cells.len(), 1);
    assert_eq!(copy.cell(CellName::Ship).unwrap().frame.y(), 2);
}

#[test]
fn prng_is_deterministic_from_its_seed() {
    let mut a = Prng::new(42);
    let mut b = Prng::new(42);
    let draws_a: Vec<u32> = (0..8).map(|_| a.next_u32()).collect();
    let draws_b: Vec<u32> = (0..8).map(|_| b.next_u32()).collect();
    assert_eq!(draws_a, draws_b);
    let mut c = Prng::new(43);
    let draws_c: Vec<u32> = (0..8).map(|_| c.next_u32()).collect();
    assert_ne!(draws_a, draws_c);
}

#[test]
fn prng_from_entropy_draws() {
    let mut p = Prng::from_entropy();
    let _ = p.next_u32();
}
