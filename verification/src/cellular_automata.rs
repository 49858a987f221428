//! The per-cell automaton profile: one storage word per cell, a
//! two-dimensional dispatch, and one step in every frame.

pub mod bind_group;
pub mod data_structs;
pub mod pipeline;
pub mod render_graph;

use crate::sizing::{ceil_div, dispatch_count, GridError};
use data_structs::{CellSize, CellValues, Params, Resolution};
use vstd::prelude::*;

verus! {

/// The state a simulation starts from.
pub struct Setup {
    pub params: Params,
    pub resolution: Resolution,
    pub cell_values: CellValues,
}

/// Why a window of `width` by `height` pixels cannot be covered with cells
/// of `cell_size` pixels, if it cannot.
pub open spec fn setup_error(width: int, height: int, cell_size: int) -> Option<GridError>
    recommends
        cell_size > 0,
{
    if width == 0 || height == 0 {
        Some(GridError::Empty)
    } else if ceil_div(width, cell_size) * ceil_div(height, cell_size) > u32::MAX {
        Some(GridError::TooLarge)
    } else {
        None
    }
}

/// `made` is the starting state for that window: enough cells to cover it,
/// all of them zero.
pub open spec fn starts(made: Setup, width: int, height: int, cell_size: int) -> bool
    recommends
        cell_size > 0,
{
    &&& made.params.cell_size == cell_size
    &&& made.params.count_x == ceil_div(width, cell_size)
    &&& made.params.count_y == ceil_div(height, cell_size)
    &&& made.resolution == Resolution(width as u32, height as u32)
    &&& made.cell_values.0@ == Seq::new(
        (ceil_div(width, cell_size) * ceil_div(height, cell_size)) as nat,
        |i: int| 0u32,
    )
}

/// The starting state of an automaton that fills a window of
/// `window_width` by `window_height` pixels with square cells.
pub fn setup(window_width: u32, window_height: u32, square_size: CellSize) -> (made: Result<
    Setup,
    GridError,
>)
    requires
        square_size.0 > 0,
    ensures
        match made {
            Ok(state) => setup_error(
                window_width as int,
                window_height as int,
                square_size.0 as int,
            ) is None && starts(
                state,
                window_width as int,
                window_height as int,
                square_size.0 as int,
            ),
            Err(error) => setup_error(
                window_width as int,
                window_height as int,
                square_size.0 as int,
            ) == Some(error),
        },
{
    if window_width == 0 || window_height == 0 {
        return Err(GridError::Empty);
    }
    let cell_size: u32 = square_size.0;
    let count_x: u32 = dispatch_count(window_width, cell_size);
    let count_y: u32 = dispatch_count(window_height, cell_size);
    assert(count_x * count_y <= u64::MAX) by (nonlinear_arith)
        requires
            count_x <= u32::MAX,
            count_y <= u32::MAX,
    ;
    let cells: u64 = count_x as u64 * count_y as u64;
    if cells > u32::MAX as u64 {
        return Err(GridError::TooLarge);
    }
    let values: Vec<u32> = vec![0u32; cells as usize];
    assert(values@ =~= Seq::new(cells as nat, |i: int| 0u32));
    Ok(
        Setup {
            params: Params { cell_size, count_x, count_y },
            resolution: Resolution(window_width, window_height),
            cell_values: CellValues(values),
        },
    )
}

} // verus!
