use grid_automata::game_of_life::data_structs::{
    panned_coordinate, scrolled_zoom, CursorPos, MouseData, Params, ScrollUnit, WheelEvent,
    FIXED_ONE, INITIAL_ZOOM, ZOOM_MAX, ZOOM_MIN,
};
use grid_automata::game_of_life::handle_mouse_input;

fn line(y: i64) -> WheelEvent {
    WheelEvent { unit: ScrollUnit::Line, y: y * FIXED_ONE }
}

fn pixel(y: i64) -> WheelEvent {
    WheelEvent { unit: ScrollUnit::Pixel, y: y * FIXED_ONE }
}

fn at(x: i64, y: i64) -> CursorPos {
    CursorPos { x: x * FIXED_ONE, y: y * FIXED_ONE }
}

fn fresh() -> Params {
    Params::new(10000, 10000, 1280, 720, 42).unwrap()
}

#[test]
fn scroll_scales_the_zoom_by_one_plus_amount_times_sensitivity() {
    assert_eq!(scrolled_zoom(1_000_000, line(-5)), 500_000);
    assert_eq!(scrolled_zoom(1_000_000, line(10)), 2_000_000);
    assert_eq!(scrolled_zoom(1_000_000, line(1)), 1_100_000);
    assert_eq!(scrolled_zoom(4_000_000, line(-1)), 3_600_000);
    assert_eq!(scrolled_zoom(1_000_000, pixel(1)), 1_001_000);
    assert_eq!(scrolled_zoom(1_000_000, pixel(-500)), 500_000);
    assert_eq!(scrolled_zoom(2_000_000, pixel(250)), 2_500_000);
    assert_eq!(scrolled_zoom(1_000_000, line(0)), 1_000_000);
}

#[test]
fn scroll_accepts_fractions_of_a_unit() {
    let half_line = WheelEvent { unit: ScrollUnit::Line, y: 500_000 };
    assert_eq!(scrolled_zoom(1_000_000, half_line), 1_050_000);
    let third = WheelEvent { unit: ScrollUnit::Line, y: 333_333 };
    // 3_000_000 * 10_333_333 / 10_000_000 = 3_099_999.9, rounded down.
    assert_eq!(scrolled_zoom(3_000_000, third), 3_099_999);
}

#[test]
fn scroll_clamps_at_both_ends() {
    assert_eq!(scrolled_zoom(150_000, line(-5)), ZOOM_MIN);
    assert_eq!(scrolled_zoom(ZOOM_MIN, line(-1)), ZOOM_MIN);
    assert_eq!(scrolled_zoom(60_000_000, line(10)), ZOOM_MAX);
    assert_eq!(scrolled_zoom(ZOOM_MAX, line(1)), ZOOM_MAX);
    assert_eq!(scrolled_zoom(1_000_000, line(-10)), ZOOM_MIN);
    assert_eq!(scrolled_zoom(1_000_000, line(-11)), ZOOM_MIN);
    assert_eq!(scrolled_zoom(1_000_000, line(-1_000_000)), ZOOM_MIN);
}

#[test]
fn scroll_stays_in_range_for_extreme_inputs() {
    let zooms = [0u32, 1, ZOOM_MIN, 1_000_000, ZOOM_MAX, u32::MAX];
    let amounts = [i64::MIN, i64::MIN + 1, -1, 0, 1, i64::MAX - 1, i64::MAX];
    for zoom in zooms {
        for y in amounts {
            for unit in [ScrollUnit::Line, ScrollUnit::Pixel] {
                let scrolled = scrolled_zoom(zoom, WheelEvent { unit, y });
                assert!(ZOOM_MIN <= scrolled && scrolled <= ZOOM_MAX);
            }
        }
    }
    assert_eq!(scrolled_zoom(1_000_000, WheelEvent { unit: ScrollUnit::Line, y: i64::MAX }), ZOOM_MAX);
    assert_eq!(scrolled_zoom(1_000_000, WheelEvent { unit: ScrollUnit::Pixel, y: i64::MIN }), ZOOM_MIN);
}

#[test]
fn zoom_survives_a_long_mixed_sequence_inside_its_range() {
    let mut params = fresh();
    let mut y: i64 = 7;
    for step in 0..500 {
        y = (y * 31 + 11) % 2001 - 1000;
        let event = if step % 3 == 0 { pixel(y) } else { line(y) };
        params.scroll(event);
        assert!(ZOOM_MIN <= params.zoom() && params.zoom() <= ZOOM_MAX);
    }
}

#[test]
fn set_zoom_clamps_on_write() {
    let mut params = fresh();
    params.set_zoom(0);
    assert_eq!(params.zoom(), ZOOM_MIN);
    params.set_zoom(u32::MAX);
    assert_eq!(params.zoom(), ZOOM_MAX);
    params.set_zoom(2_500_000);
    assert_eq!(params.zoom(), 2_500_000);
    params.set_zoom(ZOOM_MIN);
    assert_eq!(params.zoom(), ZOOM_MIN);
    params.set_zoom(ZOOM_MAX);
    assert_eq!(params.zoom(), ZOOM_MAX);
}

#[test]
fn pan_divides_the_drag_by_the_zoom() {
    // Eight pixels at zoom four are two cells.
    assert_eq!(panned_coordinate(5_000_000_000, 100_000_000, 108_000_000, 4_000_000), 4_998_000_000);
    assert_eq!(panned_coordinate(5_000_000_000, 108_000_000, 100_000_000, 4_000_000), 5_002_000_000);
    // One pixel at zoom one tenth is ten cells.
    assert_eq!(panned_coordinate(0, 0, 1_000_000, ZOOM_MIN), -10_000_000);
    // One pixel at zoom one hundred is a hundredth of a cell.
    assert_eq!(panned_coordinate(0, 0, 1_000_000, ZOOM_MAX), -10_000);
    assert_eq!(panned_coordinate(123, 77, 77, 1_000_000), 123);
}

#[test]
fn pan_rounds_toward_zero_in_both_directions() {
    assert_eq!(panned_coordinate(0, 0, 7, 4_000_000), -1);
    assert_eq!(panned_coordinate(0, 7, 0, 4_000_000), 1);
    assert_eq!(panned_coordinate(0, 0, 3, 4_000_000), 0);
    assert_eq!(panned_coordinate(0, 3, 0, 4_000_000), 0);
}

#[test]
fn pan_saturates_at_the_coordinate_range() {
    assert_eq!(panned_coordinate(i64::MIN, i64::MIN, i64::MAX, 1), i64::MIN);
    assert_eq!(panned_coordinate(i64::MAX, i64::MAX, i64::MIN, 1), i64::MAX);
    assert_eq!(panned_coordinate(i64::MIN + 5, 0, 10, 1_000_000), i64::MIN);
    assert_eq!(panned_coordinate(i64::MAX - 5, 10, 0, 1_000_000), i64::MAX);
}

#[test]
fn params_pan_moves_both_axes() {
    let mut params = fresh();
    params.pan(at(10, 20), at(18, 16));
    assert_eq!(params.zoom(), INITIAL_ZOOM);
    assert_eq!(params.center_x(), 5_000_000_000 - 2_000_000);
    assert_eq!(params.center_y(), 5_000_000_000 + 1_000_000);
}

#[test]
fn bare_click_does_not_move_the_view() {
    let mut params = fresh();
    let before = params;
    let mut mouse = MouseData::default();
    assert_eq!(mouse.pos, None);
    // Button goes down: first held frame, no prior position.
    handle_mouse_input(&mut params, &vec![], Some(at(300, 200)), true, true, &mut mouse);
    assert_eq!(params, before);
    assert_eq!(mouse.pos, Some(at(300, 200)));
    // Button released without movement.
    handle_mouse_input(&mut params, &vec![], Some(at(300, 200)), false, false, &mut mouse);
    assert_eq!(params, before);
    assert_eq!(mouse.pos, Some(at(300, 200)));
}

#[test]
fn held_frame_without_prior_position_does_not_move_the_view() {
    let mut params = fresh();
    let before = params;
    let mut mouse = MouseData { pos: None };
    handle_mouse_input(&mut params, &vec![], Some(at(5, 5)), false, true, &mut mouse);
    assert_eq!(params, before);
    assert_eq!(mouse.pos, Some(at(5, 5)));
}

#[test]
fn held_frame_without_movement_does_not_move_the_view() {
    let mut params = fresh();
    let before = params;
    let mut mouse = MouseData { pos: Some(at(40, 40)) };
    handle_mouse_input(&mut params, &vec![], Some(at(40, 40)), false, true, &mut mouse);
    assert_eq!(params, before);
}

#[test]
fn press_frame_ignores_a_stale_position() {
    let mut params = fresh();
    let before = params;
    let mut mouse = MouseData { pos: Some(at(0, 0)) };
    handle_mouse_input(&mut params, &vec![], Some(at(500, 500)), true, true, &mut mouse);
    assert_eq!(params, before);
    assert_eq!(mouse.pos, Some(at(500, 500)));
}

#[test]
fn drag_moves_the_centre_against_the_pointer() {
    let mut params = fresh();
    let mut mouse = MouseData::default();
    handle_mouse_input(&mut params, &vec![], Some(at(100, 100)), true, true, &mut mouse);
    handle_mouse_input(&mut params, &vec![], Some(at(108, 96)), false, true, &mut mouse);
    assert_eq!(params.center_x(), 5_000_000_000 - 2_000_000);
    assert_eq!(params.center_y(), 5_000_000_000 + 1_000_000);
    assert_eq!(mouse.pos, Some(at(108, 96)));
    handle_mouse_input(&mut params, &vec![], Some(at(108, 100)), false, true, &mut mouse);
    assert_eq!(params.center_x(), 5_000_000_000 - 2_000_000);
    assert_eq!(params.center_y(), 5_000_000_000);
}

#[test]
fn position_is_remembered_while_the_button_is_up() {
    let mut params = fresh();
    let before = params;
    let mut mouse = MouseData::default();
    handle_mouse_input(&mut params, &vec![], Some(at(1, 2)), false, false, &mut mouse);
    assert_eq!(mouse.pos, Some(at(1, 2)));
    handle_mouse_input(&mut params, &vec![], Some(at(3, 4)), false, false, &mut mouse);
    assert_eq!(mouse.pos, Some(at(3, 4)));
    assert_eq!(params, before);
}

#[test]
fn missing_pointer_leaves_memory_and_view_alone() {
    let mut params = fresh();
    let before = params;
    let mut mouse = MouseData { pos: Some(at(9, 9)) };
    handle_mouse_input(&mut params, &vec![], None, false, true, &mut mouse);
    assert_eq!(mouse.pos, Some(at(9, 9)));
    assert_eq!(params, before);
}

#[test]
fn scroll_applies_before_the_drag_in_one_frame() {
    let mut params = fresh();
    let mut mouse = MouseData { pos: Some(at(0, 0)) };
    // Zoom 4 -> 2 (five lines back), then eight pixels at zoom 2 are four cells.
    handle_mouse_input(&mut params, &vec![line(-5)], Some(at(8, 0)), false, true, &mut mouse);
    assert_eq!(params.zoom(), 2_000_000);
    assert_eq!(params.center_x(), 5_000_000_000 - 4_000_000);
    assert_eq!(params.center_y(), 5_000_000_000);
}

#[test]
fn scroll_events_apply_in_order() {
    let mut params = fresh();
    let mut mouse = MouseData::default();
    // 4 -> clamp(4 * 101) = 100 -> 100 * 0.5 = 50.
    handle_mouse_input(&mut params, &vec![line(1000), line(-5)], None, false, false, &mut mouse);
    assert_eq!(params.zoom(), 50_000_000);
    let mut other = fresh();
    // 4 * 0.5 = 2 -> clamp(2 * 101) = 100.
    handle_mouse_input(&mut other, &vec![line(-5), line(1000)], None, false, false, &mut mouse);
    assert_eq!(other.zoom(), ZOOM_MAX);
}
