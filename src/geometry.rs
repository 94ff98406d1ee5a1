use vstd::prelude::*;

verus! {

/// A screen or client region given by its four edges.
#[derive(Clone, Copy, Debug, PartialEq, Eq, Structural)]
pub struct Rect {
    pub left: i32,
    pub top: i32,
    pub right: i32,
    pub bottom: i32,
}

impl Rect {
    pub fn new(left: i32, top: i32, right: i32, bottom: i32) -> (r: Rect)
        ensures
            r.left == left,
            r.top == top,
            r.right == right,
            r.bottom == bottom,
    {
        Rect { left, top, right, bottom }
    }
}

/// Where a span of length `extent` starts when centered in `[lo, hi)`:
/// the spare room is split in two, rounding down, the smaller half first.
pub open spec fn centered_start(lo: int, hi: int, extent: int) -> int {
    lo + (hi - lo - extent) / 2
}

/// Top-left corner at which single-line text of the given extent is drawn
/// when centered horizontally and vertically within `area`.
pub open spec fn centered_origin_spec(area: Rect, text_width: int, text_height: int) -> (int, int) {
    (
        centered_start(area.left as int, area.right as int, text_width),
        centered_start(area.top as int, area.bottom as int, text_height),
    )
}

/// Half of `d`, rounded towards negative infinity.
fn floor_half(d: i64) -> (r: i64)
    requires
        -0x4000_0000_0000_0000 <= d <= 0x4000_0000_0000_0000,
    ensures
        r as int == d as int / 2,
{
    if d >= 0 {
        d / 2
    } else {
        let r: i64 = -((-d + 1) / 2);
        assert(r as int == d as int / 2) by (nonlinear_arith)
            requires
                d < 0,
                r == -((-d + 1) / 2),
        ;
        r
    }
}

/// The origin of centered single-line text within `area`, as a text layout
/// with horizontal and vertical centering places it.
pub fn centered_origin(area: Rect, text_width: i32, text_height: i32) -> (r: (i64, i64))
    ensures
        (r.0 as int, r.1 as int) == centered_origin_spec(area, text_width as int, text_height as int),
{
    let dx: i64 = area.right as i64 - area.left as i64 - text_width as i64;
    let dy: i64 = area.bottom as i64 - area.top as i64 - text_height as i64;
    (area.left as i64 + floor_half(dx), area.top as i64 + floor_half(dy))
}

/// Centered text leaves equal room on both sides, up to one unit, which
/// falls after the text; vertically the same holds above and below.
pub proof fn lemma_text_centered(area: Rect, text_width: int, text_height: int)
    ensures
        ({
            let (x, y) = centered_origin_spec(area, text_width, text_height);
            let before_x = x - area.left;
            let after_x = area.right - (x + text_width);
            let before_y = y - area.top;
            let after_y = area.bottom - (y + text_height);
            &&& before_x <= after_x <= before_x + 1
            &&& before_y <= after_y <= before_y + 1
        }),
{
}

} // verus!
