use vstd::prelude::*;
use crate::geometry::Rect;

verus! {

/// The character of digit `d` (below 16), lower-case for ten and above.
pub open spec fn digit_char(d: nat) -> char {
    if d < 10 {
        ((d + 48) as u8) as char
    } else {
        ((d + 87) as u8) as char
    }
}

/// The digits of `n` in base `base`, most significant first, without
/// leading zeros ("0" for zero).
pub open spec fn digits(n: nat, base: nat) -> Seq<char>
    decreases n via digits_decreases
{
    if base < 2 || n < base {
        seq![digit_char(n % 16)]
    } else {
        digits(n / base, base).push(digit_char(n % base))
    }
}

#[via_fn]
proof fn digits_decreases(n: nat, base: nat) {
    if !(base < 2 || n < base) {
        assert(n / base < n) by (nonlinear_arith)
            requires
                base >= 2,
                n >= base,
        ;
    }
}

/// The decimal text of a signed value.
pub open spec fn decimal(v: int) -> Seq<char> {
    if v < 0 {
        seq!['-'] + digits((-v) as nat, 10)
    } else {
        digits(v as nat, 10)
    }
}

/// The lower-case hexadecimal text of a 32-bit status code, read as its
/// two's-complement bits.
pub open spec fn hex_of_status(code: i32) -> Seq<char> {
    digits((if code < 0 { code + 0x1_0000_0000 } else { code as int }) as nat, 16)
}

/// `<label>=<left>:<top>-<right>:<bottom>`
pub open spec fn rect_line(label: Seq<char>, r: Rect) -> Seq<char> {
    label + seq!['='] + decimal(r.left as int) + seq![':'] + decimal(r.top as int) + seq!['-']
        + decimal(r.right as int) + seq![':'] + decimal(r.bottom as int)
}

/// `dwa_result = <hex>`
pub open spec fn status_line(code: i32) -> Seq<char> {
    seq!['d', 'w', 'a', '_', 'r', 'e', 's', 'u', 'l', 't', ' ', '=', ' '] + hex_of_status(code)
}

pub open spec fn window_label() -> Seq<char> {
    seq!['w', 'i', 'n', 'd', 'o', 'w', '_', 'r', 'e', 'c', 't']
}

pub open spec fn frame_label() -> Seq<char> {
    seq!['f', 'r', 'a', 'm', 'e', '_', 'r', 'e', 'c', 't']
}

pub open spec fn desktop_label() -> Seq<char> {
    seq!['d', 'e', 's', 'k', 't', 'o', 'p', '_', 'r', 'e', 'c', 't']
}

/// The text of one digit.
fn digit_text(d: u64) -> (s: &'static str)
    requires
        d < 16,
    ensures
        s@ == seq![digit_char(d as nat)],
{
    proof {
        reveal_strlit("0");
        reveal_strlit("1");
        reveal_strlit("2");
        reveal_strlit("3");
        reveal_strlit("4");
        reveal_strlit("5");
        reveal_strlit("6");
        reveal_strlit("7");
        reveal_strlit("8");
        reveal_strlit("9");
        reveal_strlit("a");
        reveal_strlit("b");
        reveal_strlit("c");
        reveal_strlit("d");
        reveal_strlit("e");
        reveal_strlit("f");
    }
    let s = match d {
        0 => "0",
        1 => "1",
        2 => "2",
        3 => "3",
        4 => "4",
        5 => "5",
        6 => "6",
        7 => "7",
        8 => "8",
        9 => "9",
        10 => "a",
        11 => "b",
        12 => "c",
        13 => "d",
        14 => "e",
        _ => "f",
    };
    assert(s@ =~= seq![digit_char(d as nat)]);
    s
}

/// Appends the digits of `n` in base `base` to `out`.
fn push_digits(out: &mut String, n: u64, base: u64)
    requires
        base == 10 || base == 16,
    ensures
        final(out)@ == old(out)@ + digits(n as nat, base as nat),
    decreases n,
{
    if n >= base {
        push_digits(out, n / base, base);
        out.append(digit_text(n % base));
        assert(final(out)@ =~= old(out)@ + digits(n as nat, base as nat));
    } else {
        out.append(digit_text(n));
        assert(n as nat % 16 == n);
        assert(final(out)@ =~= old(out)@ + digits(n as nat, base as nat));
    }
}

/// Appends the decimal text of `v` to `out`.
fn push_decimal(out: &mut String, v: i32)
    ensures
        final(out)@ == old(out)@ + decimal(v as int),
{
    if v < 0 {
        proof {
            reveal_strlit("-");
        }
        out.append("-");
        push_digits(out, (-(v as i64)) as u64, 10);
        assert(final(out)@ =~= old(out)@ + decimal(v as int));
    } else {
        push_digits(out, v as u64, 10);
    }
}

/// The line `<label>=<left>:<top>-<right>:<bottom>` for a rectangle.
fn format_rect_line(label: &str, r: Rect) -> (s: String)
    ensures
        s@ == rect_line(label@, r),
{
    proof {
        reveal_strlit("=");
        reveal_strlit(":");
        reveal_strlit("-");
    }
    let mut s = String::from_str(label);
    s.append("=");
    push_decimal(&mut s, r.left);
    s.append(":");
    push_decimal(&mut s, r.top);
    s.append("-");
    push_decimal(&mut s, r.right);
    s.append(":");
    push_decimal(&mut s, r.bottom);
    assert(s@ =~= rect_line(label@, r));
    s
}

/// The line `dwa_result = <hex>` for a frame-bounds status code.
fn format_status_line(code: i32) -> (s: String)
    ensures
        s@ == status_line(code),
{
    proof {
        reveal_strlit("dwa_result = ");
    }
    let mut s = String::from_str("dwa_result = ");
    let bits: u64 = if code < 0 {
        (code as i64 + 0x1_0000_0000) as u64
    } else {
        code as u64
    };
    push_digits(&mut s, bits, 16);
    assert(s@ =~= status_line(code));
    s
}

/// The four diagnostic lines of one timer tick, in order: the frame-bounds
/// status, then the window, frame and desktop rectangles.
pub fn report_lines(status: i32, window: Rect, frame: Rect, desktop: Rect) -> (r: Vec<String>)
    ensures
        r@.len() == 4,
        r@[0]@ == status_line(status),
        r@[1]@ == rect_line(window_label(), window),
        r@[2]@ == rect_line(frame_label(), frame),
        r@[3]@ == rect_line(desktop_label(), desktop),
{
    proof {
        reveal_strlit("window_rect");
        reveal_strlit("frame_rect");
        reveal_strlit("desktop_rect");
    }
    let mut r: Vec<String> = Vec::new();
    r.push(format_status_line(status));
    r.push(format_rect_line("window_rect", window));
    r.push(format_rect_line("frame_rect", frame));
    r.push(format_rect_line("desktop_rect", desktop));
    assert("window_rect"@ =~= window_label());
    assert("frame_rect"@ =~= frame_label());
    assert("desktop_rect"@ =~= desktop_label());
    r
}

/// A failed extended-frame-bounds query, with the status code it gave.
#[derive(Clone, Copy, Debug, PartialEq, Eq, Structural)]
pub struct QueryError {
    pub code: i32,
}

/// The outcome of an extended-frame-bounds query that returned status
/// `code` and left `written` in its output rectangle: the rectangle when the
/// status reports success (not negative), the status otherwise.
pub fn frame_bounds_result(code: i32, written: Rect) -> (r: Result<Rect, QueryError>)
    ensures
        code >= 0 ==> r == Ok::<Rect, QueryError>(written),
        code < 0 ==> r == Err::<Rect, QueryError>(QueryError { code }),
{
    if code >= 0 {
        Ok(written)
    } else {
        Err(QueryError { code })
    }
}

/// The frame rectangle to report: the queried bounds, or the window's own
/// bounding rectangle when the query failed.
pub fn frame_or_window(window: Rect, query: Result<Rect, QueryError>) -> (r: Rect)
    ensures
        r == (match query {
            Ok(frame) => frame,
            Err(_) => window,
        }),
{
    match query {
        Ok(frame) => frame,
        Err(_) => window,
    }
}

/// The part of the client area that a redraw request covers.
#[derive(Clone, Copy, Debug, PartialEq, Eq, Structural)]
pub enum RedrawArea {
    WholeClient,
    Part(Rect),
}

/// What one timer tick does: log `lines`, then ask for a redraw of
/// `redraw`, erasing the background first when `erase` is set.
#[derive(Debug)]
pub struct TimerPlan {
    pub lines: Vec<String>,
    pub frame: Rect,
    pub redraw: RedrawArea,
    pub erase: bool,
}

/// One timer tick of a window with bounding rectangle `window` on a desktop
/// whose work area is `desktop`, where the extended-frame-bounds query
/// returned `status` and left `written` in its output rectangle.
pub fn on_timer(window: Rect, status: i32, written: Rect, desktop: Rect) -> (r: TimerPlan)
    ensures
        r.frame == (if status >= 0 { written } else { window }),
        r.lines@.len() == 4,
        r.lines@[0]@ == status_line(status),
        r.lines@[1]@ == rect_line(window_label(), window),
        r.lines@[2]@ == rect_line(frame_label(), r.frame),
        r.lines@[3]@ == rect_line(desktop_label(), desktop),
        r.redraw == RedrawArea::WholeClient,
        !r.erase,
{
    let frame = frame_or_window(window, frame_bounds_result(status, written));
    let lines = report_lines(status, window, frame, desktop);
    TimerPlan { lines, frame, redraw: RedrawArea::WholeClient, erase: false }
}

} // verus!
