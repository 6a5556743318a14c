//! The plain-text PPM ("P3") image format: a header line with the image's
//! width and height, a line with the largest channel value, then one
//! `"R G B"` line per pixel.
use vstd::prelude::*;

verus! {

/// The largest value a colour channel takes in the written image.
pub const MAX_CHANNEL: u32 = 255;

/// One pixel as written to the image: three channels in `0..=255`.
#[derive(Clone, Copy, Debug, PartialEq, Eq, Structural)]
pub struct Rgb {
    pub r: u8,
    pub g: u8,
    pub b: u8,
}

/// The ASCII code of the decimal digit `d`.
pub open spec fn digit_byte(d: nat) -> u8
    recommends
        d < 10,
{
    (48 + d) as u8
}

/// The decimal digits of `n`, most significant first, without leading zeros.
pub open spec fn decimal(n: nat) -> Seq<u8>
    decreases n,
{
    if n < 10 {
        seq![digit_byte(n)]
    } else {
        decimal(n / 10).push(digit_byte(n % 10))
    }
}

/// The decimal text of a signed integer: a `-` before the digits of a negative one.
pub open spec fn signed_decimal(n: int) -> Seq<u8> {
    if n < 0 {
        seq![45u8] + decimal((-n) as nat)
    } else {
        decimal(n as nat)
    }
}

/// `P3`, the width and height, and the largest channel value, each line ended by a newline.
pub open spec fn header_text(width: int, height: int) -> Seq<u8> {
    seq![80u8, 51u8, 10u8] + signed_decimal(width) + seq![32u8] + signed_decimal(height) + seq![
        10u8,
    ] + decimal(MAX_CHANNEL as nat) + seq![10u8]
}

/// The line of one pixel: its three channels in decimal, separated by spaces.
pub open spec fn pixel_text(p: Rgb) -> Seq<u8> {
    decimal(p.r as nat) + seq![32u8] + decimal(p.g as nat) + seq![32u8] + decimal(p.b as nat)
        + seq![10u8]
}

/// The lines of the given pixels, in order.
pub open spec fn pixels_text(ps: Seq<Rgb>) -> Seq<u8>
    decreases ps.len(),
{
    if ps.len() == 0 {
        Seq::empty()
    } else {
        pixels_text(ps.drop_last()) + pixel_text(ps.last())
    }
}

/// A whole image: the header, then the pixel lines.
pub open spec fn image_text(width: int, height: int, ps: Seq<Rgb>) -> Seq<u8> {
    header_text(width, height) + pixels_text(ps)
}

/// Appends the decimal digits of `n`.
pub fn push_decimal(out: &mut Vec<u8>, n: u32)
    ensures
        final(out)@ == old(out)@ + decimal(n as nat),
    decreases n,
{
    if n >= 10 {
        push_decimal(out, n / 10);
    }
    let d: u8 = (n % 10) as u8;
    out.push(48u8 + d);
    assert(out@ =~= old(out)@ + decimal(n as nat));
}

/// Appends the decimal text of `n`, with a `-` before a negative one.
pub fn push_signed_decimal(out: &mut Vec<u8>, n: i32)
    ensures
        final(out)@ == old(out)@ + signed_decimal(n as int),
{
    if n < 0 {
        out.push(45u8);
        let m: u32 = (0i64 - n as i64) as u32;
        push_decimal(out, m);
    } else {
        push_decimal(out, n as u32);
    }
    assert(out@ =~= old(out)@ + signed_decimal(n as int));
}

/// The header of a `width` by `height` image.
pub fn header(width: i32, height: i32) -> (r: Vec<u8>)
    ensures
        r@ == header_text(width as int, height as int),
{
    let mut out: Vec<u8> = Vec::new();
    out.push(80u8);
    out.push(51u8);
    out.push(10u8);
    push_signed_decimal(&mut out, width);
    out.push(32u8);
    push_signed_decimal(&mut out, height);
    out.push(10u8);
    push_decimal(&mut out, MAX_CHANNEL);
    out.push(10u8);
    assert(out@ =~= header_text(width as int, height as int));
    out
}

/// Appends the line of one pixel.
pub fn push_pixel_line(out: &mut Vec<u8>, p: Rgb)
    ensures
        final(out)@ == old(out)@ + pixel_text(p),
{
    push_decimal(out, p.r as u32);
    out.push(32u8);
    push_decimal(out, p.g as u32);
    out.push(32u8);
    push_decimal(out, p.b as u32);
    out.push(10u8);
    assert(out@ =~= old(out)@ + pixel_text(p));
}

} // verus!
