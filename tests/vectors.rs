use pixel_units::units::Pixels;
use pixel_units::vectors::{Axis, Dimension, Direction, Position, Size};

#[test]
fn position_from_equal_pair_on_both_axes() {
    let p: Position<u32> = Position::from((7u16, 7u16));
    assert_eq!(p.get(Axis::X), 7);
    assert_eq!(p.get(Axis::Y), 7);
    let q: Position<Pixels<u16>> = Position::from((12u16, 12u16));
    assert_eq!(q.get(Axis::X), Pixels::from(12u16));
    assert_eq!(q.get(Axis::Y), Pixels::from(12u16));
}

#[test]
fn position_from_pair_keeps_order() {
    let p: Position<u64> = Position::from((1u8, 2u8));
    assert_eq!(p, Position { x: 1, y: 2 });
}

#[test]
fn position_set_changes_one_axis() {
    let mut p = Position { x: 1u16, y: 2u16 };
    p.set(Axis::X, 10);
    assert_eq!(p, Position { x: 10, y: 2 });
    p.set(Axis::Y, 20);
    assert_eq!(p, Position { x: 10, y: 20 });
}

#[test]
fn position_add_componentwise() {
    let a = Position { x: 1u32, y: 2u32 };
    let b = Position { x: 10u32, y: 20u32 };
    assert_eq!(a + b, Position { x: 11, y: 22 });
    let c = Position { x: Pixels::from(5u16), y: Pixels::from(6u16) };
    let d = Position { x: Pixels::from(1u8), y: Pixels::from(2u8) };
    assert_eq!(c + d, Position { x: Pixels::from(6u16), y: Pixels::from(8u16) });
}

#[test]
fn position_none_then_fill_and_unwrap() {
    let mut p: Position<Option<i32>> = Position::none();
    assert_eq!(p, Position { x: None, y: None });
    p.set(Axis::Y, Some(-3));
    p.set(Axis::X, Some(4));
    assert_eq!(p.unwrap_contents(), Position { x: 4, y: -3 });
}

#[test]
fn size_none_then_fill_and_unwrap() {
    let mut s: Size<Option<u16>> = Size::none();
    assert_eq!(s, Size { width: None, height: None });
    s.set(Dimension::Width, Some(640));
    assert_eq!(s.get(Dimension::Height), None);
    s.set(Dimension::Height, Some(480));
    let done = s.unwrap_contents();
    assert_eq!(done, Size { width: 640, height: 480 });
    assert_eq!(done.get(Dimension::Width), 640);
    assert_eq!(done.get(Dimension::Height), 480);
}

#[test]
fn size_from_pair_and_set() {
    let mut s: Size<Pixels<u16>> = Size::from((800u16, 600u16));
    assert_eq!(s.width, Pixels::from(800u16));
    assert_eq!(s.height, Pixels::from(600u16));
    s.set(Dimension::Height, Pixels::from(0u16));
    assert_eq!(s, Size { width: Pixels::from(800u16), height: Pixels::from(0u16) });
}

#[test]
fn dimension_from_direction() {
    assert_eq!(Dimension::from(Direction::Horizontal), Dimension::Width);
    assert_eq!(Dimension::from(Direction::Vertical), Dimension::Height);
}

#[test]
fn dimension_opposite_swaps() {
    assert_eq!(Dimension::Width.opposite(), Dimension::Height);
    assert_eq!(Dimension::Height.opposite(), Dimension::Width);
}

#[test]
fn axis_from_dimension() {
    assert_eq!(Axis::from(Dimension::Width), Axis::X);
    assert_eq!(Axis::from(Dimension::Height), Axis::Y);
}
