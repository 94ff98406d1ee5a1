use miniwin::dispatch::{proc_result, window_proc, Action, WM_DESTROY, WM_PAINT, WM_TIMER};
use miniwin::geometry::{centered_origin, Rect};
use miniwin::message_loop::{handle_message, run_loop};
use miniwin::paint::{paint_plan, pixel_for_millis};
use miniwin::timer::{frame_bounds_result, frame_or_window, on_timer, report_lines, QueryError, RedrawArea};

#[test]
fn text_centered_even_room() {
    let area = Rect::new(0, 0, 100, 50);
    assert_eq!(centered_origin(area, 40, 10), (30, 20));
}

#[test]
fn text_centered_odd_room_rounds_down() {
    let area = Rect::new(10, 20, 111, 71);
    assert_eq!(centered_origin(area, 40, 10), (40, 40));
}

#[test]
fn text_wider_than_area() {
    let area = Rect::new(0, 0, 10, 10);
    assert_eq!(centered_origin(area, 15, 10), (-3, 0));
}

#[test]
fn text_centered_in_extreme_area() {
    let area = Rect::new(i32::MIN, i32::MIN, i32::MAX, i32::MAX);
    assert_eq!(centered_origin(area, 0, 1), (-1, -1));
}

#[test]
fn pixel_from_small_count() {
    let p = pixel_for_millis(1000);
    assert_eq!((p.x, p.y, p.color), (232, 232, 1000));
}

#[test]
fn pixel_at_byte_edges() {
    assert_eq!(pixel_for_millis(255).x, 255);
    assert_eq!(pixel_for_millis(256).x, 0);
    assert_eq!(pixel_for_millis(0).x, 0);
}

#[test]
fn pixel_color_truncated_to_32_bits() {
    let ms: u128 = (1u128 << 40) + 0x1_2345_6789;
    let p = pixel_for_millis(ms);
    assert_eq!(p.x, 0x89);
    assert_eq!(p.y, 0x89);
    assert_eq!(p.color, 0x2345_6789);
}

#[test]
fn pixel_of_current_style_timestamp() {
    let ms: u128 = 1_700_000_000_123;
    let p = pixel_for_millis(ms);
    assert_eq!(p.x as u128, ms & 255);
    assert!(p.x >= 0 && p.x <= 255);
    assert_eq!(p.color as u128, ms % (1u128 << 32));
}

#[test]
fn paint_uses_whole_client_area() {
    let client = Rect::new(0, 0, 784, 561);
    let plan = paint_plan(client, 513);
    assert_eq!(plan.text, "Hello world");
    assert_eq!(plan.text_area, client);
    assert!(plan.single_line && plan.center_horizontally && plan.center_vertically);
    assert_eq!(plan.pixel, pixel_for_millis(513));
    assert_eq!(plan.pixel.x, 1);
}

#[test]
fn report_of_fixed_rectangles() {
    let window = Rect::new(100, 100, 500, 400);
    let frame = Rect::new(102, 100, 498, 398);
    let desktop = Rect::new(0, 0, 1920, 1040);
    let lines = report_lines(0, window, frame, desktop);
    assert_eq!(
        lines,
        vec![
            "dwa_result = 0".to_string(),
            "window_rect=100:100-500:400".to_string(),
            "frame_rect=102:100-498:398".to_string(),
            "desktop_rect=0:0-1920:1040".to_string(),
        ]
    );
}

#[test]
fn report_of_negative_edges_and_hex_status() {
    let window = Rect::new(-8, -8, 1928, 1048);
    let lines = report_lines(0x1a, window, window, Rect::new(0, 0, 1, 1));
    assert_eq!(lines[0], "dwa_result = 1a");
    assert_eq!(lines[1], "window_rect=-8:-8-1928:1048");
    let extremes = Rect::new(i32::MIN, i32::MAX, -1, 0);
    let lines = report_lines(i32::MAX, extremes, extremes, extremes);
    assert_eq!(lines[0], "dwa_result = 7fffffff");
    assert_eq!(lines[3], "desktop_rect=-2147483648:2147483647--1:0");
}

#[test]
fn report_of_failure_status_as_bits() {
    let r = Rect::new(1, 2, 3, 4);
    let code = 0x8007_0057u32 as i32;
    let lines = report_lines(code, r, r, r);
    assert_eq!(lines[0], "dwa_result = 80070057");
    assert_eq!(report_lines(-1, r, r, r)[0], "dwa_result = ffffffff");
}

#[test]
fn frame_query_success_and_failure() {
    let written = Rect::new(102, 100, 498, 398);
    assert_eq!(frame_bounds_result(0, written), Ok(written));
    assert_eq!(frame_bounds_result(1, written), Ok(written));
    let code = 0x8000_4005u32 as i32;
    assert_eq!(frame_bounds_result(code, written), Err(QueryError { code }));
}

#[test]
fn frame_falls_back_to_window() {
    let window = Rect::new(100, 100, 500, 400);
    let frame = Rect::new(102, 100, 498, 398);
    assert_eq!(frame_or_window(window, Ok(frame)), frame);
    assert_eq!(frame_or_window(window, Err(QueryError { code: -5 })), window);
}

#[test]
fn timer_tick_logs_and_redraws_whole_client() {
    let window = Rect::new(100, 100, 500, 400);
    let written = Rect::new(102, 100, 498, 398);
    let desktop = Rect::new(0, 0, 1920, 1040);
    let plan = on_timer(window, 0, written, desktop);
    assert_eq!(plan.frame, written);
    assert_eq!(plan.lines[2], "frame_rect=102:100-498:398");
    assert_eq!(plan.redraw, RedrawArea::WholeClient);
    assert!(!plan.erase);
}

#[test]
fn timer_tick_with_failed_query_reports_window() {
    let window = Rect::new(100, 100, 500, 400);
    let written = Rect::new(0, 0, 0, 0);
    let desktop = Rect::new(0, 0, 1920, 1040);
    let plan = on_timer(window, 0x8000_4005u32 as i32, written, desktop);
    assert_eq!(plan.frame, window);
    assert_eq!(plan.lines[0], "dwa_result = 80004005");
    assert_eq!(plan.lines[2], "frame_rect=100:100-500:400");
    assert_eq!(plan.redraw, RedrawArea::WholeClient);
}

#[test]
fn dispatch_of_each_message() {
    assert_eq!(window_proc(WM_PAINT), Action::Paint);
    assert_eq!(window_proc(0x000F), Action::Paint);
    assert_eq!(window_proc(WM_TIMER), Action::ReportGeometry);
    assert_eq!(window_proc(0x0113), Action::ReportGeometry);
    assert_eq!(window_proc(WM_DESTROY), Action::PostQuit(0));
    assert_eq!(window_proc(0x0002), Action::PostQuit(0));
    assert_eq!(window_proc(0x0010), Action::Default);
    assert_eq!(window_proc(0x0012), Action::Default);
}

#[test]
fn procedure_results() {
    assert_eq!(proc_result(Action::Paint, 7), 0);
    assert_eq!(proc_result(Action::PostQuit(0), 7), 0);
    assert_eq!(proc_result(Action::ReportGeometry, -3), 0);
    assert_eq!(proc_result(Action::Default, 7), 7);
}

#[test]
fn loop_decision_on_retrieval_status() {
    assert!(handle_message(1));
    assert!(handle_message(42));
    assert!(!handle_message(0));
    assert!(!handle_message(-1));
}

#[test]
fn loop_stops_after_destroy() {
    let run = run_loop(&vec![WM_PAINT, WM_TIMER, 0x0200, WM_DESTROY, WM_PAINT, WM_TIMER]);
    assert!(run.exited);
    assert_eq!(
        run.dispatched,
        vec![Action::Paint, Action::ReportGeometry, Action::Default, Action::PostQuit(0)]
    );
}

#[test]
fn loop_waits_without_destroy() {
    let run = run_loop(&vec![WM_TIMER, WM_PAINT, WM_TIMER]);
    assert!(!run.exited);
    assert_eq!(run.dispatched, vec![Action::ReportGeometry, Action::Paint, Action::ReportGeometry]);
    let empty = run_loop(&vec![]);
    assert!(!empty.exited);
    assert!(empty.dispatched.is_empty());
}

#[test]
fn loop_ends_on_first_destroy() {
    let run = run_loop(&vec![WM_DESTROY, WM_DESTROY, WM_PAINT]);
    assert!(run.exited);
    assert_eq!(run.dispatched, vec![Action::PostQuit(0)]);
}
