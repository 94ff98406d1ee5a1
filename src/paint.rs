use vstd::prelude::*;
use crate::geometry::Rect;

verus! {

/// The single pixel set on each paint: its position on the diagonal and
/// its raw color value.
#[derive(Clone, Copy, Debug, PartialEq, Eq, Structural)]
pub struct Pixel {
    pub x: i32,
    pub y: i32,
    pub color: u32,
}

/// The position of the pixel: the low eight bits of the millisecond count.
pub open spec fn pixel_coord(millis: u128) -> int {
    millis as int % 256
}

/// The color of the pixel: the millisecond count truncated to 32 bits.
pub open spec fn pixel_color(millis: u128) -> int {
    millis as int % 0x1_0000_0000
}

/// The pixel drawn for a paint at wall-clock time `millis` (milliseconds
/// since the epoch).
pub fn pixel_for_millis(millis: u128) -> (r: Pixel)
    ensures
        r.x as int == pixel_coord(millis),
        r.y == r.x,
        0 <= r.x <= 255,
        r.color as int == pixel_color(millis),
{
    let low: u128 = millis & 255;
    assert(low == millis % 256) by (bit_vector)
        requires
            low == millis & 255,
    ;
    let color: u32 = millis as u32;
    assert(color == millis % 0x1_0000_0000) by (bit_vector)
        requires
            color == millis as u32,
    ;
    let x: i32 = low as i32;
    Pixel { x, y: x, color }
}

/// What one paint draws: the text, laid out in `text_area` as a single line
/// centered both ways, and one pixel.
#[derive(Debug)]
pub struct PaintPlan {
    pub text: String,
    pub text_area: Rect,
    pub single_line: bool,
    pub center_horizontally: bool,
    pub center_vertically: bool,
    pub pixel: Pixel,
}

/// The greeting drawn on each paint.
pub open spec fn greeting() -> Seq<char> {
    seq!['H', 'e', 'l', 'l', 'o', ' ', 'w', 'o', 'r', 'l', 'd']
}

/// The paint of a window whose client area is `client`, at wall-clock time
/// `millis`: the greeting centered in the whole client area, and the pixel
/// of that instant.
pub fn paint_plan(client: Rect, millis: u128) -> (r: PaintPlan)
    ensures
        r.text@ == greeting(),
        r.text_area == client,
        r.single_line,
        r.center_horizontally,
        r.center_vertically,
        r.pixel == pixel_for_millis_spec(millis),
{
    let text = String::from_str("Hello world");
    proof {
        reveal_strlit("Hello world");
    }
    assert(text@ =~= greeting());
    PaintPlan {
        text,
        text_area: client,
        single_line: true,
        center_horizontally: true,
        center_vertically: true,
        pixel: pixel_for_millis(millis),
    }
}

/// The pixel of `pixel_for_millis`, as a value.
pub open spec fn pixel_for_millis_spec(millis: u128) -> Pixel {
    Pixel {
        x: pixel_coord(millis) as i32,
        y: pixel_coord(millis) as i32,
        color: pixel_color(millis) as u32,
    }
}

/// On every paint the pixel lies on the diagonal of the square
/// `[0, 255] x [0, 255]`, at the low eight bits of the millisecond count.
pub proof fn lemma_pixel_in_square(millis: u128)
    ensures
        ({
            let p = pixel_for_millis_spec(millis);
            &&& 0 <= p.x <= 255
            &&& p.y == p.x
            &&& p.x as int == millis as int % 256
        }),
{
}

} // verus!
