//! Layout of the status screen: four lines of text, stacked from the
//! vertical middle of the drawing area downwards.

use vstd::prelude::*;

verus! {

/// Horizontal position of every text line.
pub const TEXT_LEFT: i32 = 10;

/// Vertical distance from one text line to the next.
pub const LINE_SPACING: i32 = 24;

/// The number of text lines on the status screen: power, ADC reading,
/// voltage and temperature.
pub const TEXT_LINES: usize = 4;

/// A number in `0 .. 2^32` read as a two's-complement 32-bit number.
pub open spec fn as_signed_32(x: int) -> int {
    if x <= i32::MAX {
        x
    } else {
        x - 0x1_0000_0000
    }
}

/// Division by two, rounded towards zero.
pub open spec fn half_toward_zero(x: int) -> int {
    if x >= 0 {
        x / 2
    } else {
        -((-x) / 2)
    }
}

/// The vertical position of the first text line in a drawing area `height`
/// pixels high: half of `height - 10`, taken as a signed 32-bit number.
pub open spec fn first_line_y(height: u32) -> int {
    half_toward_zero(as_signed_32(height - 10))
}

/// The position of text line `line`.
pub open spec fn text_origin_of(height: u32, line: int) -> (int, int) {
    (TEXT_LEFT as int, first_line_y(height) + LINE_SPACING * line)
}

/// The positions of the four text lines of the status screen in a drawing
/// area `height` pixels high. Heights under 10 pixels have no layout.
pub fn text_line_origins(height: u32) -> (origins: [(i32, i32); 4])
    requires
        height >= 10,
    ensures
        forall|line: int|
            0 <= line < 4 ==> ((#[trigger] origins@[line]).0 as int, origins@[line].1 as int)
                == text_origin_of(height, line),
        forall|line: int| 0 <= line < 4 ==> (#[trigger] origins@[line]).0 == 10,
        forall|line: int|
            0 <= line < 4 && height - 10 <= i32::MAX ==> (#[trigger] origins@[line]).1 == (height
                - 10) / 2 + 24 * line,
        forall|line: int|
            0 <= line < 4 && height - 10 > i32::MAX ==> (#[trigger] origins@[line]).1 == -((
            0x1_0000_0000 - (height - 10)) / 2) + 24 * line,
{
    let shifted: i32 = (height - 10) as i32;
    let top: i32 = shifted / 2;
    assert(shifted == as_signed_32(height - 10)) by (bit_vector)
        requires
            shifted == (height - 10) as i32,
            height >= 10,
    ;
    let origins: [(i32, i32); 4] = [
        (TEXT_LEFT, top),
        (TEXT_LEFT, top + LINE_SPACING),
        (TEXT_LEFT, top + 2 * LINE_SPACING),
        (TEXT_LEFT, top + 3 * LINE_SPACING),
    ];
    origins
}

/// For every height up to the largest signed 32-bit coordinate, the first
/// line stands `(height - 10) / 2` pixels down and each further line
/// `LINE_SPACING` pixels below the one before.
pub proof fn lemma_line_positions(height: u32, line: int)
    requires
        10 <= height <= i32::MAX,
    ensures
        text_origin_of(height, line).1 == (height - 10) / 2 + LINE_SPACING * line,
        text_origin_of(height, line + 1).1 == text_origin_of(height, line).1 + LINE_SPACING,
        text_origin_of(height, line).0 == TEXT_LEFT,
{
}

} // verus!
