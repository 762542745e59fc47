//! The text of a plain-text pixmap.
//!
//! An image is the line `P3`, a line with width and height, a line with the
//! greatest channel value, 255, and then one line for each pixel, row by row
//! from the top and from left to right in each row. All numbers are in
//! decimal, and every line ends with a line feed.
use vstd::prelude::*;
use vstd::arithmetic::div_mod::lemma_fundamental_div_mod_converse;
use crate::util::{channel_spec, write_pixel_color};
use crate::vec3::Vec3;

verus! {

/// The ASCII digits of `n`, without leading zeros.
pub open spec fn decimal(n: nat) -> Seq<u8>
    decreases n,
{
    if n < 10 {
        seq![(48 + n) as u8]
    } else {
        decimal(n / 10).push((48 + n % 10) as u8)
    }
}

/// The line of one pixel: its three channels with a space between them.
pub open spec fn pixel_line(red: nat, green: nat, blue: nat) -> Seq<u8> {
    decimal(red) + seq![32u8] + decimal(green) + seq![32u8] + decimal(blue) + seq![10u8]
}

/// The three lines before the pixels.
pub open spec fn header(width: nat, height: nat) -> Seq<u8> {
    seq![80u8, 51u8, 10u8] + decimal(width) + seq![32u8] + decimal(height) + seq![
        10u8,
        50u8,
        53u8,
        53u8,
        10u8,
    ]
}

/// Where the pixel that the text shows in place `k` lies in a buffer that
/// holds the rows from the bottom of the image up, each from left to right:
/// the text starts with the top row.
pub open spec fn source_index(width: nat, height: nat, k: nat) -> int {
    (height - 1 - k / width) * width + k % width
}

/// The line of the pixel with the encoded colour `encoded`.
pub open spec fn encoded_line(encoded: Vec3) -> Seq<u8> {
    pixel_line(
        channel_spec(encoded.x) as nat,
        channel_spec(encoded.y) as nat,
        channel_spec(encoded.z) as nat,
    )
}

/// The lines of the first `k` pixels of the text.
pub open spec fn pixel_lines(width: nat, height: nat, pixels: Seq<Vec3>, k: nat) -> Seq<u8>
    decreases k,
{
    if k == 0 {
        Seq::empty()
    } else {
        pixel_lines(width, height, pixels, (k - 1) as nat) + encoded_line(
            pixels[source_index(width, height, (k - 1) as nat)],
        )
    }
}

/// The whole text of an image.
pub open spec fn image(width: nat, height: nat, pixels: Seq<Vec3>) -> Seq<u8> {
    header(width, height) + pixel_lines(width, height, pixels, width * height)
}

/// Appends the decimal digits of `n`.
pub fn push_decimal(out: &mut Vec<u8>, n: u32)
    ensures
        final(out)@ == old(out)@ + decimal(n as nat),
    decreases n,
{
    if n >= 10 {
        push_decimal(out, n / 10);
    }
    let digit: u8 = (n % 10) as u8;
    out.push(48 + digit);
    proof {
        if n < 10 {
            assert(final(out)@ =~= old(out)@ + decimal(n as nat));
        } else {
            assert(final(out)@ =~= old(out)@ + decimal(n as nat));
        }
    }
}

/// The header of an image of the given size.
pub fn ppm_header(width: u32, height: u32) -> (r: Vec<u8>)
    ensures
        r@ == header(width as nat, height as nat),
{
    let mut out: Vec<u8> = Vec::new();
    out.push(80);
    out.push(51);
    out.push(10);
    push_decimal(&mut out, width);
    out.push(32);
    push_decimal(&mut out, height);
    out.push(10);
    out.push(50);
    out.push(53);
    out.push(53);
    out.push(10);
    assert(out@ =~= header(width as nat, height as nat));
    out
}

/// The line of a pixel with the given channels.
pub fn ppm_pixel(red: u16, green: u16, blue: u16) -> (r: Vec<u8>)
    ensures
        r@ == pixel_line(red as nat, green as nat, blue as nat),
{
    let mut out: Vec<u8> = Vec::new();
    push_decimal(&mut out, red as u32);
    out.push(32);
    push_decimal(&mut out, green as u32);
    out.push(32);
    push_decimal(&mut out, blue as u32);
    out.push(10);
    assert(out@ =~= pixel_line(red as nat, green as nat, blue as nat));
    out
}

/// The place in the buffer of the pixel in the given row, counted from the
/// bottom of the image, and column, counted from the left.
pub fn pixel_index(width: u32, row: u32, column: u32) -> (r: u64)
    ensures
        r == row * width + column,
{
    proof {
        assert(row * width + column < 0x1_0000_0000_0000_0000) by (nonlinear_arith)
            requires
                row < 0x1_0000_0000,
                column < 0x1_0000_0000,
                width < 0x1_0000_0000,
        ;
        assert(0 <= row * width) by (nonlinear_arith)
            requires
                0 <= row,
                0 <= width,
        ;
    }
    (row as u64) * (width as u64) + (column as u64)
}

/// The text of an image from a buffer of encoded colours.
///
/// The buffer is indexed by pixel: row times width plus column, the rows
/// counted from the bottom of the image. The pixels may have been computed
/// in any order; the text shows them row by row from the top. `None` where
/// the buffer does not hold `width * height` pixels.
pub fn ppm_image(width: u32, height: u32, pixels: &Vec<Vec3>) -> (r: Option<Vec<u8>>)
    ensures
        r is Some <==> pixels@.len() == width * height,
        r matches Some(text) ==> text@ == image(width as nat, height as nat, pixels@),
{
    proof {
        assert(width * height < 0x1_0000_0000_0000_0000) by (nonlinear_arith)
            requires
                width < 0x1_0000_0000,
                height < 0x1_0000_0000,
        ;
    }
    let count: u64 = (width as u64) * (height as u64);
    if pixels.len() as u64 != count {
        return None;
    }
    let mut out = ppm_header(width, height);
    let ghost head = out@;
    let mut row: u32 = height;
    proof {
        assert((height - row) * width == 0) by (nonlinear_arith)
            requires
                row == height,
        ;
        assert(out@ =~= head + pixel_lines(width as nat, height as nat, pixels@, 0));
    }
    while row > 0
        invariant
            row <= height,
            pixels@.len() == width * height,
            pixels@.len() <= usize::MAX,
            head == header(width as nat, height as nat),
            out@ == head + pixel_lines(
                width as nat,
                height as nat,
                pixels@,
                ((height - row) * width) as nat,
            ),
        decreases row,
    {
        row -= 1;
        let mut col: u32 = 0;
        proof {
            assert((height - (row + 1)) * width == (height - 1 - row) * width + 0);
        }
        while col < width
            invariant
                col <= width,
                row < height,
                pixels@.len() == width * height,
                pixels@.len() <= usize::MAX,
                out@ == head + pixel_lines(
                    width as nat,
                    height as nat,
                    pixels@,
                    ((height - 1 - row) * width + col) as nat,
                ),
            decreases width - col,
        {
            let ghost k = ((height - 1 - row) * width + col) as nat;
            proof {
                assert(0 <= (height - 1 - row) * width) by (nonlinear_arith)
                    requires
                        row < height,
                        0 <= width,
                ;
                lemma_fundamental_div_mod_converse(
                    k as int,
                    width as int,
                    height - 1 - row,
                    col as int,
                );
                assert(source_index(width as nat, height as nat, k) == row * width + col);
                assert(row * width + col < width * height) by (nonlinear_arith)
                    requires
                        row < height,
                        col < width,
                ;
            }
            let index: u64 = pixel_index(width, row, col);
            let ghost before = out@;
            assert(index == source_index(width as nat, height as nat, k));
            assert(index < pixels@.len());
            let mut line = write_pixel_color(pixels[index as usize]);
            let ghost text = line@;
            out.append(&mut line);
            col += 1;
            proof {
                assert(text == encoded_line(pixels@[source_index(width as nat, height as nat, k)]));
                assert(out@ == before + text);
                assert(pixel_lines(width as nat, height as nat, pixels@, (k + 1) as nat)
                    == pixel_lines(width as nat, height as nat, pixels@, k) + text);
                assert(out@ =~= head + pixel_lines(
                    width as nat,
                    height as nat,
                    pixels@,
                    (k + 1) as nat,
                ));
            }
        }
        proof {
            assert((height - 1 - row) * width + width == (height - row) * width)
                by (nonlinear_arith);
        }
    }
    proof {
        assert((height - 0) * width == width * height) by (nonlinear_arith);
    }
    Some(out)
}

} // verus!
