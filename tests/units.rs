use pixel_units::units::Pixels;

#[test]
fn pixels_from_wraps_value() {
    let p = Pixels::from(42u16);
    assert_eq!(p.value, 42);
    assert_eq!(p, Pixels { value: 42u16 });
}

#[test]
fn pixels_add_is_value_add() {
    let a = Pixels::from(120u16);
    let b = Pixels::from(30u16);
    assert_eq!(a + b, Pixels::from(150u16));
    assert_eq!(a + b, b + a);
}

#[test]
fn pixels_add_is_associative() {
    let a = Pixels::from(1000u16);
    let b = Pixels::from(200u16);
    let c = Pixels::from(34u16);
    assert_eq!((a + b) + c, a + (b + c));
    assert_eq!((a + b) + c, Pixels::from(1234u16));
}

#[test]
fn pixels_add_mixed_representations() {
    let a = Pixels::from(1000u16);
    let b = Pixels::from(255u8);
    assert_eq!(a + b, Pixels::from(1255u16));
    let wide = Pixels::from(70000u32);
    assert_eq!(wide + Pixels::from(65535u16), Pixels::from(135535u32));
}

#[test]
fn pixels_add_at_largest_value() {
    let a = Pixels::from(65000u16);
    let b = Pixels::from(535u16);
    assert_eq!(a + b, Pixels::from(u16::MAX));
}

#[test]
fn pixels_sub_is_value_sub() {
    let a = Pixels::from(300u16);
    let b = Pixels::from(45u8);
    assert_eq!(a - b, Pixels::from(255u16));
    assert_eq!(a - Pixels::from(300u16), Pixels::from(0u16));
    let s = Pixels::from(-5i32);
    assert_eq!(s - Pixels::from(10i16), Pixels::from(-15i32));
}

#[test]
fn pixels_add_assign_accumulates() {
    let mut p = Pixels::from(10u16);
    p.add_assign(Pixels::from(5u8));
    p.add_assign(Pixels::from(100u16));
    assert_eq!(p, Pixels::from(115u16));
}

#[test]
fn pixels_scale_by_count() {
    assert_eq!(Pixels::<u16>::from(100) * 3, Pixels::<u16>::from(300));
    assert_eq!(Pixels::<u16>::from(0) * 100000, Pixels::<u16>::from(0));
    assert_eq!(Pixels::<u16>::from(1) * 65535, Pixels::<u16>::from(65535));
}

#[test]
fn pixels_divide_by_count() {
    assert_eq!(Pixels::<u16>::from(300) / 3, Pixels::<u16>::from(100));
    assert_eq!(Pixels::<u16>::from(301) / 3, Pixels::<u16>::from(100));
    assert_eq!(Pixels::<u16>::from(2) / 3, Pixels::<u16>::from(0));
    assert_eq!(Pixels::<u16>::from(65535) / 65536, Pixels::<u16>::from(0));
    assert_eq!(Pixels::<u16>::from(65535) / 65539, Pixels::<u16>::from(0));
}

#[test]
fn pixels_order_by_value() {
    assert!(Pixels::from(3u16) < Pixels::from(4u16));
}
