//! Pixel writers: each stores one color at a byte offset of a frame buffer,
//! in the byte layout its name gives.

use vstd::prelude::*;
use crate::render::Color;

verus! {

/// `buffer` with `bytes` stored from offset `pos` on, and every other byte as it was.
pub open spec fn overwritten(buffer: Seq<u8>, pos: int, bytes: Seq<u8>) -> Seq<u8> {
    Seq::new(
        buffer.len(),
        |i: int| if pos <= i < pos + bytes.len() { bytes[i - pos] } else { buffer[i] },
    )
}

/// Writes nothing: for a surface whose pixel format is unknown.
pub fn no_op(_pos: usize, _buffer: &mut [u8], _color: Color)
    ensures
        final(_buffer)@ == old(_buffer)@,
{
}

/// Writes `color` as three bytes: red, green, blue.
pub fn rgb_24(pos: usize, buffer: &mut [u8], color: Color)
    requires
        pos + 3 <= old(buffer)@.len(),
    ensures
        final(buffer)@ == overwritten(old(buffer)@, pos as int, seq![color.red, color.green, color.blue]),
{
    buffer[pos] = color.red;
    buffer[pos + 1] = color.green;
    buffer[pos + 2] = color.blue;
}

/// Writes `color` as four bytes: a reserved byte, left zero, then red, green, blue.
pub fn rgb_32(pos: usize, buffer: &mut [u8], color: Color)
    requires
        pos + 4 <= old(buffer)@.len(),
    ensures
        final(buffer)@ == overwritten(
            old(buffer)@,
            pos as int,
            seq![0u8, color.red, color.green, color.blue],
        ),
{
    buffer[pos] = 0;
    buffer[pos + 1] = color.red;
    buffer[pos + 2] = color.green;
    buffer[pos + 3] = color.blue;
}

/// Writes `color` as three bytes: blue, green, red.
pub fn bgr_24(pos: usize, buffer: &mut [u8], color: Color)
    requires
        pos + 3 <= old(buffer)@.len(),
    ensures
        final(buffer)@ == overwritten(old(buffer)@, pos as int, seq![color.blue, color.green, color.red]),
{
    buffer[pos] = color.blue;
    buffer[pos + 1] = color.green;
    buffer[pos + 2] = color.red;
}

/// Writes `color` as four bytes: a reserved byte, left zero, then blue, green, red.
pub fn bgr_32(pos: usize, buffer: &mut [u8], color: Color)
    requires
        pos + 4 <= old(buffer)@.len(),
    ensures
        final(buffer)@ == overwritten(
            old(buffer)@,
            pos as int,
            seq![0u8, color.blue, color.green, color.red],
        ),
{
    buffer[pos] = 0;
    buffer[pos + 1] = color.blue;
    buffer[pos + 2] = color.green;
    buffer[pos + 3] = color.red;
}

/// Writes `color` as one byte of gray: the average of its three channels.
pub fn u8(pos: usize, buffer: &mut [u8], color: Color)
    requires
        pos < old(buffer)@.len(),
    ensures
        final(buffer)@ == overwritten(old(buffer)@, pos as int, seq![color.gray() as u8]),
{
    let sum: u16 = color.red as u16 + color.green as u16 + color.blue as u16;
    let gray: u16 = sum / 3;
    buffer[pos] = gray as u8;
}

} // verus!
