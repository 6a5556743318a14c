use raytracer::ppm::{header, push_decimal, push_pixel_line, push_signed_decimal, Rgb, MAX_CHANNEL};

#[test]
fn decimal_digits() {
    let mut out = Vec::new();
    push_decimal(&mut out, 0);
    assert_eq!(out, b"0".to_vec());
    let mut out = b"x".to_vec();
    push_decimal(&mut out, 255);
    assert_eq!(out, b"x255".to_vec());
    let mut out = Vec::new();
    push_decimal(&mut out, u32::MAX);
    assert_eq!(out, b"4294967295".to_vec());
    let mut out = Vec::new();
    push_decimal(&mut out, 1000);
    assert_eq!(out, b"1000".to_vec());
}

#[test]
fn signed_decimal_digits() {
    let mut out = Vec::new();
    push_signed_decimal(&mut out, -42);
    assert_eq!(out, b"-42".to_vec());
    let mut out = Vec::new();
    push_signed_decimal(&mut out, i32::MIN);
    assert_eq!(out, b"-2147483648".to_vec());
    let mut out = Vec::new();
    push_signed_decimal(&mut out, i32::MAX);
    assert_eq!(out, b"2147483647".to_vec());
}

#[test]
fn header_line() {
    assert_eq!(MAX_CHANNEL, 255);
    assert_eq!(header(200, 100), b"P3\n200 100\n255\n".to_vec());
}

#[test]
fn pixel_line() {
    let mut out = Vec::new();
    push_pixel_line(&mut out, Rgb { r: 0, g: 127, b: 255 });
    assert_eq!(out, b"0 127 255\n".to_vec());
}
