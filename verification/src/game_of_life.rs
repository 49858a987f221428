//! The packed Game-of-Life profile: thirty-two cells per storage word, a
//! one-dimensional simulation dispatch and a throttled tick rate.

pub mod bind_group;
pub mod data_structs;
pub mod pipeline;
pub mod render_graph;

use data_structs::{
    initial_params, lemma_zoom_stays_clamped, panned, zoom_after_events, CursorPos, MouseData,
    Params, ParamsView, Telemetry, WheelEvent, DEFAULT_TICKS_LEN,
};
use vstd::prelude::*;

verus! {

/// Width of the simulated grid in cells.
pub const CELL_COUNT_X: u32 = 10000;

/// Height of the simulated grid in cells.
pub const CELL_COUNT_Y: u32 = 10000;

/// The state a simulation starts from.
pub struct Setup {
    pub params: Params,
    pub mouse_data: MouseData,
    pub telemetry: Telemetry,
}

/// Calls `rand::random::<u32>()`, which draws a value from the thread-local
/// generator. Nothing is claimed about the value. The generator is seeded
/// from the operating system when a thread first uses it, and the call
/// panics if that seeding fails.
#[verifier::external_body]
fn random_seed() -> (seed: u32) {
    rand::random::<u32>()
}

/// The starting state of a simulation that is shown on an image of
/// `resolution_x` by `resolution_y` pixels and seeded with `random_seed`.
pub fn setup_with_seed(resolution_x: u32, resolution_y: u32, random_seed: u32) -> (made: Setup)
    ensures
        made.params@ == initial_params(
            CELL_COUNT_X as int,
            CELL_COUNT_Y as int,
            resolution_x as int,
            resolution_y as int,
            random_seed as int,
        ),
        made.params.wf(),
        made.mouse_data.pos is None,
        made.telemetry.wf(),
        made.telemetry@ == Seq::<u64>::empty(),
        made.telemetry.limit() == DEFAULT_TICKS_LEN,
{
    match Params::new(CELL_COUNT_X, CELL_COUNT_Y, resolution_x, resolution_y, random_seed) {
        Ok(params) => Setup {
            params,
            mouse_data: MouseData::default(),
            telemetry: Telemetry::default(),
        },
        Err(_) => {
            proof {
                crate::sizing::lemma_ceil_div_is_least_cover(CELL_COUNT_X as int, 32);
            }
            unreached()
        },
    }
}

/// The starting state of a simulation with a freshly drawn random seed.
/// Whatever the seed, everything else is as [`setup_with_seed`] makes it.
pub fn setup(resolution_x: u32, resolution_y: u32) -> (made: Setup)
    ensures
        made.params@ == initial_params(
            CELL_COUNT_X as int,
            CELL_COUNT_Y as int,
            resolution_x as int,
            resolution_y as int,
            made.params@.random_seed,
        ),
        made.params.wf(),
        made.mouse_data.pos is None,
        made.telemetry.wf(),
        made.telemetry@ == Seq::<u64>::empty(),
        made.telemetry.limit() == DEFAULT_TICKS_LEN,
{
    setup_with_seed(resolution_x, resolution_y, random_seed())
}

/// Whether this frame drags the view: a pointer position is known, the
/// primary button is held, and it was not pressed in this very frame.
pub open spec fn drags(
    cursor_position: Option<CursorPos>,
    left_just_pressed: bool,
    left_being_pressed: bool,
) -> bool {
    cursor_position is Some && left_being_pressed && !left_just_pressed
}

/// Where a drag to `pos` starts: at the remembered position, or at `pos`
/// itself when none is remembered.
pub open spec fn drag_origin(previous: Option<CursorPos>, pos: CursorPos) -> CursorPos {
    match previous {
        Some(origin) => origin,
        None => pos,
    }
}

/// The pointer position remembered after a frame: the one observed in it,
/// else the one remembered before.
pub open spec fn remembered(
    previous: Option<CursorPos>,
    cursor_position: Option<CursorPos>,
) -> Option<CursorPos> {
    match cursor_position {
        Some(pos) => Some(pos),
        None => previous,
    }
}

/// The parameters after one frame of input: every scroll event is applied
/// to the zoom in order, then a drag moves the centre at the new zoom.
pub open spec fn handled(
    params: ParamsView,
    wheel_events: Seq<WheelEvent>,
    cursor_position: Option<CursorPos>,
    left_just_pressed: bool,
    left_being_pressed: bool,
    previous: Option<CursorPos>,
) -> ParamsView {
    let zoom = zoom_after_events(params.zoom, wheel_events);
    if drags(cursor_position, left_just_pressed, left_being_pressed) {
        let pos = cursor_position->0;
        let origin = drag_origin(previous, pos);
        ParamsView {
            zoom,
            center_x: panned(params.center_x, origin.x as int, pos.x as int, zoom),
            center_y: panned(params.center_y, origin.y as int, pos.y as int, zoom),
            ..params
        }
    } else {
        ParamsView { zoom, ..params }
    }
}

/// A click without movement does not move the view: the centre stays where
/// it was in the frame the button goes down, in a held frame with no
/// remembered position, and in a held frame whose position equals the
/// remembered one.
pub proof fn lemma_bare_click_keeps_center(
    params: ParamsView,
    wheel_events: Seq<WheelEvent>,
    cursor_position: Option<CursorPos>,
    left_just_pressed: bool,
    left_being_pressed: bool,
    previous: Option<CursorPos>,
)
    requires
        params.wf(),
        left_just_pressed || previous is None || previous == cursor_position,
    ensures
        handled(
            params,
            wheel_events,
            cursor_position,
            left_just_pressed,
            left_being_pressed,
            previous,
        ).center_x == params.center_x,
        handled(
            params,
            wheel_events,
            cursor_position,
            left_just_pressed,
            left_being_pressed,
            previous,
        ).center_y == params.center_y,
{
    lemma_zoom_stays_clamped(params.zoom, wheel_events);
}

/// Applies one frame of pointer input to the view: scroll events change the
/// zoom, a drag with the primary button moves the centre, and the observed
/// pointer position is remembered for the next frame.
pub fn handle_mouse_input(
    params: &mut Params,
    wheel_events: &Vec<WheelEvent>,
    cursor_position: Option<CursorPos>,
    left_just_pressed: bool,
    left_being_pressed: bool,
    prev_mouse_data: &mut MouseData,
)
    requires
        old(params).wf(),
    ensures
        final(params)@ == handled(
            old(params)@,
            wheel_events@,
            cursor_position,
            left_just_pressed,
            left_being_pressed,
            old(prev_mouse_data).pos,
        ),
        final(params).wf(),
        final(prev_mouse_data).pos == remembered(old(prev_mouse_data).pos, cursor_position),
{
    let mut index: usize = 0;
    while index < wheel_events.len()
        invariant
            index <= wheel_events@.len(),
            params.wf(),
            params@ == (ParamsView {
                zoom: zoom_after_events(old(params)@.zoom, wheel_events@.take(index as int)),
                ..old(params)@
            }),
        decreases wheel_events@.len() - index,
    {
        proof {
            let next = wheel_events@.take(index + 1);
            assert(next.drop_last() == wheel_events@.take(index as int));
        }
        params.scroll(wheel_events[index]);
        index = index + 1;
    }
    assert(wheel_events@.take(index as int) == wheel_events@);
    match cursor_position {
        Some(pos) => {
            if left_being_pressed && !left_just_pressed {
                let origin: CursorPos = match prev_mouse_data.pos {
                    Some(existing) => existing,
                    None => pos,
                };
                params.pan(origin, pos);
            }
            prev_mouse_data.pos = Some(pos);
        },
        None => {},
    }
}

} // verus!
