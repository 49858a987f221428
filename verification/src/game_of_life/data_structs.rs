//! Shared state of the packed profile: grid parameters, the tick state, the
//! pointer memory of the view controller and the step telemetry.
//!
//! Fractional quantities are fixed-point integers that count millionths:
//! a zoom of `1_000_000` is the scale factor one, and a pointer coordinate of
//! `2_500_000` lies two and a half pixels from the origin. Times are whole
//! nanoseconds.

use crate::sizing::{buffer_size_x, ceil_div, GridError, CELLS_PER_WORD};
use vstd::prelude::*;

verus! {

/// The fixed-point representation of the number one.
pub const FIXED_ONE: i64 = 1_000_000;

/// Smallest zoom the view accepts: one tenth.
pub const ZOOM_MIN: u32 = 100_000;

/// Largest zoom the view accepts: one hundred.
pub const ZOOM_MAX: u32 = 100_000_000;

/// Zoom of a freshly constructed view: four.
pub const INITIAL_ZOOM: u32 = 4_000_000;

/// Number of samples a default telemetry buffer retains.
pub const DEFAULT_TICKS_LEN: usize = 1000;

/// `zoom` forced into the accepted range.
pub open spec fn clamp_zoom(zoom: int) -> int {
    if zoom < ZOOM_MIN as int {
        ZOOM_MIN as int
    } else if zoom > ZOOM_MAX as int {
        ZOOM_MAX as int
    } else {
        zoom
    }
}

/// `value` forced into the range of a stored view coordinate.
pub open spec fn clamp_coordinate(value: int) -> int {
    if value < i64::MIN as int {
        i64::MIN as int
    } else if value > i64::MAX as int {
        i64::MAX as int
    } else {
        value
    }
}

/// Quotient of `n` by a positive `d`, rounded toward zero.
pub open spec fn trunc_div(n: int, d: int) -> int
    recommends
        d > 0,
{
    if n >= 0 {
        n / d
    } else {
        -((-n) / d)
    }
}

/// Unit in which a scroll amount is reported.
#[derive(Clone, Copy, PartialEq, Eq, Structural, Debug)]
pub enum ScrollUnit {
    /// Whole lines; one line changes the zoom by a tenth.
    Line,
    /// Pixels; one pixel changes the zoom by a thousandth.
    Pixel,
}

/// One scroll-wheel input.
#[derive(Clone, Copy, PartialEq, Eq, Structural, Debug)]
pub struct WheelEvent {
    pub unit: ScrollUnit,
    /// Vertical scroll amount in millionths of the unit.
    pub y: i64,
}

/// Reciprocal of the zoom sensitivity of `unit`.
pub open spec fn sensitivity_divisor(unit: ScrollUnit) -> int {
    match unit {
        ScrollUnit::Line => 10,
        ScrollUnit::Pixel => 1000,
    }
}

/// The zoom that follows `zoom` after `event`: `zoom * (1 + y * sensitivity)`,
/// rounded down to a millionth and clamped.
pub open spec fn zoom_after_scroll(zoom: int, event: WheelEvent) -> int {
    let denominator = FIXED_ONE as int * sensitivity_divisor(event.unit);
    clamp_zoom(zoom * (denominator + event.y as int) / denominator)
}

/// The zoom that follows `zoom` after all of `events`, in order.
pub open spec fn zoom_after_events(zoom: int, events: Seq<WheelEvent>) -> int
    decreases events.len(),
{
    if events.len() == 0 {
        zoom
    } else {
        zoom_after_scroll(zoom_after_events(zoom, events.drop_last()), events.last())
    }
}

/// After any scroll input the zoom lies inside its range, whatever the zoom
/// was before and however large the input: a sequence of inputs leaves a
/// zoom inside the range if it is not empty or started inside the range.
pub proof fn lemma_zoom_stays_clamped(zoom: int, events: Seq<WheelEvent>)
    ensures
        events.len() > 0 || ZOOM_MIN <= zoom <= ZOOM_MAX ==> ZOOM_MIN <= zoom_after_events(
            zoom,
            events,
        ) <= ZOOM_MAX,
    decreases events.len(),
{
    if events.len() > 0 {
        lemma_zoom_stays_clamped(zoom, events.drop_last());
    }
}

/// A pointer position in millionths of a pixel.
#[derive(Clone, Copy, PartialEq, Eq, Structural, Debug)]
pub struct CursorPos {
    pub x: i64,
    pub y: i64,
}

/// Grid-space distance covered by a pointer movement from `from` to `to`
/// along one axis at the given zoom, rounded toward zero.
pub open spec fn pan_delta(from: int, to: int, zoom: int) -> int
    recommends
        zoom > 0,
{
    trunc_div((to - from) * FIXED_ONE as int, zoom)
}

/// A view coordinate after the pointer dragged the grid from `from` to `to`.
pub open spec fn panned(center: int, from: int, to: int, zoom: int) -> int
    recommends
        zoom > 0,
{
    clamp_coordinate(center - pan_delta(from, to, zoom))
}

/// The mathematical content of [`Params`].
pub struct ParamsView {
    pub buffer_size_x: int,
    pub buffer_size_y: int,
    pub center_x: int,
    pub center_y: int,
    pub resolution_x: int,
    pub resolution_y: int,
    pub random_seed: int,
    pub zoom: int,
}

impl ParamsView {
    /// The packed buffer is not empty, its word count fits a 32-bit index,
    /// and the zoom is inside its range.
    pub open spec fn wf(self) -> bool {
        &&& 1 <= self.buffer_size_x <= u32::MAX
        &&& 1 <= self.buffer_size_y <= u32::MAX
        &&& self.buffer_size_x * self.buffer_size_y <= u32::MAX
        &&& 0 <= self.resolution_x <= u32::MAX
        &&& 0 <= self.resolution_y <= u32::MAX
        &&& 0 <= self.random_seed <= u32::MAX
        &&& i64::MIN <= self.center_x <= i64::MAX
        &&& i64::MIN <= self.center_y <= i64::MAX
        &&& ZOOM_MIN <= self.zoom <= ZOOM_MAX
    }

    /// Number of words in the packed storage buffer.
    pub open spec fn total_words(self) -> int {
        self.buffer_size_x * self.buffer_size_y
    }
}

/// Why a grid of `cell_count_x` by `cell_count_y` cells is refused, if it is.
pub open spec fn grid_error(cell_count_x: int, cell_count_y: int) -> Option<GridError> {
    if cell_count_x == 0 || cell_count_y == 0 {
        Some(GridError::Empty)
    } else if ceil_div(cell_count_x, CELLS_PER_WORD as int) * cell_count_y > u32::MAX {
        Some(GridError::TooLarge)
    } else {
        None
    }
}

/// The parameters of a fresh simulation: rows packed thirty-two cells to a
/// word, the view centred on the grid at the initial zoom.
pub open spec fn initial_params(
    cell_count_x: int,
    cell_count_y: int,
    resolution_x: int,
    resolution_y: int,
    random_seed: int,
) -> ParamsView {
    ParamsView {
        buffer_size_x: ceil_div(cell_count_x, CELLS_PER_WORD as int),
        buffer_size_y: cell_count_y,
        center_x: cell_count_x * FIXED_ONE as int / 2,
        center_y: cell_count_y * FIXED_ONE as int / 2,
        resolution_x,
        resolution_y,
        random_seed,
        zoom: INITIAL_ZOOM as int,
    }
}

/// The simulation's authoritative configuration.
#[derive(Clone, Copy, PartialEq, Eq, Structural, Debug)]
pub struct Params {
    buffer_size_x: u32,
    buffer_size_y: u32,
    center_x: i64,
    center_y: i64,
    resolution_x: u32,
    resolution_y: u32,
    random_seed: u32,
    zoom: u32,
}

impl View for Params {
    type V = ParamsView;

    closed spec fn view(&self) -> ParamsView {
        ParamsView {
            buffer_size_x: self.buffer_size_x as int,
            buffer_size_y: self.buffer_size_y as int,
            center_x: self.center_x as int,
            center_y: self.center_y as int,
            resolution_x: self.resolution_x as int,
            resolution_y: self.resolution_y as int,
            random_seed: self.random_seed as int,
            zoom: self.zoom as int,
        }
    }
}

/// Computes [`zoom_after_scroll`].
pub fn scrolled_zoom(zoom: u32, event: WheelEvent) -> (scrolled: u32)
    ensures
        scrolled == zoom_after_scroll(zoom as int, event),
        ZOOM_MIN <= scrolled <= ZOOM_MAX,
{
    let divisor: i128 = match event.unit {
        ScrollUnit::Line => 10,
        ScrollUnit::Pixel => 1000,
    };
    let denominator: i128 = FIXED_ONE as i128 * divisor;
    let numerator: i128 = denominator + event.y as i128;
    if numerator <= 0 {
        assert(zoom as int * numerator as int / denominator as int <= 0) by (nonlinear_arith)
            requires
                zoom >= 0,
                numerator <= 0,
                denominator > 0,
        ;
        return ZOOM_MIN;
    }
    assert(0 <= zoom as int * numerator as int <= 0x1_0000_0000 * 0x1_0000_0000_0000_0000)
        by (nonlinear_arith)
        requires
            0 <= zoom <= 0xFFFF_FFFF,
            0 < numerator <= 0x1_0000_0000_0000_0000,
    ;
    let scaled: i128 = zoom as i128 * numerator / denominator;
    if scaled < ZOOM_MIN as i128 {
        ZOOM_MIN
    } else if scaled > ZOOM_MAX as i128 {
        ZOOM_MAX
    } else {
        scaled as u32
    }
}

/// Computes [`panned`].
pub fn panned_coordinate(center: i64, from: i64, to: i64, zoom: u32) -> (moved: i64)
    requires
        zoom > 0,
    ensures
        moved == panned(center as int, from as int, to as int, zoom as int),
{
    let distance: i128 = (to as i128 - from as i128) * FIXED_ONE as i128;
    let delta: i128 = if distance >= 0 {
        distance / zoom as i128
    } else {
        -((-distance) / zoom as i128)
    };
    assert(-0x1_0000_0000_0000_0000 * 1_000_000 <= delta <= 0x1_0000_0000_0000_0000 * 1_000_000)
        by (nonlinear_arith)
        requires
            -0x1_0000_0000_0000_0000 * 1_000_000 <= distance <= 0x1_0000_0000_0000_0000
                * 1_000_000,
            zoom > 0,
            delta == if distance >= 0 {
                distance as int / zoom as int
            } else {
                -((-distance) as int / zoom as int)
            },
    ;
    let target: i128 = center as i128 - delta;
    if target < i64::MIN as i128 {
        i64::MIN
    } else if target > i64::MAX as i128 {
        i64::MAX
    } else {
        target as i64
    }
}

/// Half of `cell_count` cells as a view coordinate.
fn grid_middle(cell_count: u32) -> (middle: i64)
    ensures
        middle == cell_count as int * FIXED_ONE as int / 2,
{
    (cell_count as i64) * (FIXED_ONE / 2)
}

/// The slot count of a grid, or the reason it cannot be stored.
fn packed_extent(cell_count_x: u32, cell_count_y: u32) -> (extent: Result<u32, GridError>)
    ensures
        match extent {
            Ok(words_x) => grid_error(cell_count_x as int, cell_count_y as int) is None
                && words_x == ceil_div(cell_count_x as int, CELLS_PER_WORD as int),
            Err(error) => grid_error(cell_count_x as int, cell_count_y as int) == Some(error),
        },
{
    if cell_count_x == 0 || cell_count_y == 0 {
        return Err(GridError::Empty);
    }
    let words_x: u32 = buffer_size_x(cell_count_x);
    assert(words_x * cell_count_y <= u64::MAX) by (nonlinear_arith)
        requires
            words_x <= u32::MAX,
            cell_count_y <= u32::MAX,
    ;
    let total: u64 = words_x as u64 * cell_count_y as u64;
    if total > u32::MAX as u64 {
        Err(GridError::TooLarge)
    } else {
        Ok(words_x)
    }
}

impl Params {
    /// The invariant every constructor establishes and every method keeps.
    pub open spec fn wf(&self) -> bool {
        self@.wf()
    }

    /// Parameters for a grid of `cell_count_x` by `cell_count_y` cells shown
    /// on an image of `resolution_x` by `resolution_y` pixels.
    pub fn new(
        cell_count_x: u32,
        cell_count_y: u32,
        resolution_x: u32,
        resolution_y: u32,
        random_seed: u32,
    ) -> (made: Result<Params, GridError>)
        ensures
            match made {
                Ok(params) => {
                    &&& grid_error(cell_count_x as int, cell_count_y as int) is None
                    &&& params@ == initial_params(
                        cell_count_x as int,
                        cell_count_y as int,
                        resolution_x as int,
                        resolution_y as int,
                        random_seed as int,
                    )
                    &&& params.wf()
                },
                Err(error) => grid_error(cell_count_x as int, cell_count_y as int) == Some(error),
            },
    {
        match packed_extent(cell_count_x, cell_count_y) {
            Err(error) => Err(error),
            Ok(words_x) => Ok(
                Params {
                    buffer_size_x: words_x,
                    buffer_size_y: cell_count_y,
                    center_x: grid_middle(cell_count_x),
                    center_y: grid_middle(cell_count_y),
                    resolution_x,
                    resolution_y,
                    random_seed,
                    zoom: INITIAL_ZOOM,
                },
            ),
        }
    }

    /// Applies one scroll input to the zoom:
    /// `zoom * (1 + y * sensitivity)`, clamped on write.
    pub fn scroll(&mut self, event: WheelEvent)
        ensures
            final(self)@ == (ParamsView {
                zoom: zoom_after_scroll(old(self)@.zoom, event),
                ..old(self)@
            }),
            ZOOM_MIN <= final(self)@.zoom <= ZOOM_MAX,
            old(self).wf() ==> final(self).wf(),
    {
        self.zoom = scrolled_zoom(self.zoom, event);
    }

    /// Moves the view by a pointer drag from `from` to `to`: the centre
    /// shifts against the drag by its length divided by the zoom.
    pub fn pan(&mut self, from: CursorPos, to: CursorPos)
        requires
            old(self).wf(),
        ensures
            final(self)@ == (ParamsView {
                center_x: panned(
                    old(self)@.center_x,
                    from.x as int,
                    to.x as int,
                    old(self)@.zoom,
                ),
                center_y: panned(
                    old(self)@.center_y,
                    from.y as int,
                    to.y as int,
                    old(self)@.zoom,
                ),
                ..old(self)@
            }),
            final(self).wf(),
    {
        self.center_x = panned_coordinate(self.center_x, from.x, to.x, self.zoom);
        self.center_y = panned_coordinate(self.center_y, from.y, to.y, self.zoom);
    }

    /// Words per row of the packed storage buffer.
    pub fn buffer_size_x(&self) -> (words: u32)
        ensures
            words == self@.buffer_size_x,
    {
        self.buffer_size_x
    }

    /// Rows of the packed storage buffer.
    pub fn buffer_size_y(&self) -> (rows: u32)
        ensures
            rows == self@.buffer_size_y,
    {
        self.buffer_size_y
    }

    /// Number of words in the packed storage buffer.
    pub fn total_words(&self) -> (words: u32)
        requires
            self.wf(),
        ensures
            words == self@.total_words(),
    {
        self.buffer_size_x * self.buffer_size_y
    }

    /// Width of the output image in pixels.
    pub fn resolution_x(&self) -> (pixels: u32)
        ensures
            pixels == self@.resolution_x,
    {
        self.resolution_x
    }

    /// Height of the output image in pixels.
    pub fn resolution_y(&self) -> (pixels: u32)
        ensures
            pixels == self@.resolution_y,
    {
        self.resolution_y
    }

    /// Seed of the randomize kernel.
    pub fn random_seed(&self) -> (seed: u32)
        ensures
            seed == self@.random_seed,
    {
        self.random_seed
    }

    /// Horizontal view origin in grid space, in millionths of a cell.
    pub fn center_x(&self) -> (center: i64)
        ensures
            center == self@.center_x,
    {
        self.center_x
    }

    /// Vertical view origin in grid space, in millionths of a cell.
    pub fn center_y(&self) -> (center: i64)
        ensures
            center == self@.center_y,
    {
        self.center_y
    }

    /// View scale factor in millionths.
    pub fn zoom(&self) -> (zoom: u32)
        ensures
            zoom == self@.zoom,
    {
        self.zoom
    }

    /// Sets the zoom to `zoom`, clamped into its range.
    pub fn set_zoom(&mut self, zoom: u32)
        ensures
            final(self)@ == (ParamsView { zoom: clamp_zoom(zoom as int), ..old(self)@ }),
            old(self).wf() ==> final(self).wf(),
    {
        self.zoom = if zoom < ZOOM_MIN {
            ZOOM_MIN
        } else if zoom > ZOOM_MAX {
            ZOOM_MAX
        } else {
            zoom
        };
    }

    /// Moves the view origin to the given grid position.
    pub fn set_center(&mut self, center_x: i64, center_y: i64)
        ensures
            final(self)@ == (ParamsView {
                center_x: center_x as int,
                center_y: center_y as int,
                ..old(self)@
            }),
            old(self).wf() ==> final(self).wf(),
    {
        self.center_x = center_x;
        self.center_y = center_y;
    }

    /// Records a new size of the output image.
    pub fn set_resolution(&mut self, resolution_x: u32, resolution_y: u32)
        ensures
            final(self)@ == (ParamsView {
                resolution_x: resolution_x as int,
                resolution_y: resolution_y as int,
                ..old(self)@
            }),
            old(self).wf() ==> final(self).wf(),
    {
        self.resolution_x = resolution_x;
        self.resolution_y = resolution_y;
    }

    /// Resizes the grid to `cell_count_x` by `cell_count_y` cells and
    /// recomputes the packed buffer dimensions. A grid that cannot be stored
    /// is refused and leaves the parameters as they were.
    pub fn set_cell_counts(&mut self, cell_count_x: u32, cell_count_y: u32) -> (outcome: Result<
        (),
        GridError,
    >)
        ensures
            match outcome {
                Ok(()) => {
                    &&& grid_error(cell_count_x as int, cell_count_y as int) is None
                    &&& final(self)@ == (ParamsView {
                        buffer_size_x: ceil_div(cell_count_x as int, CELLS_PER_WORD as int),
                        buffer_size_y: cell_count_y as int,
                        ..old(self)@
                    })
                },
                Err(error) => {
                    &&& grid_error(cell_count_x as int, cell_count_y as int) == Some(error)
                    &&& final(self)@ == old(self)@
                },
            },
            old(self).wf() ==> final(self).wf(),
    {
        match packed_extent(cell_count_x, cell_count_y) {
            Err(error) => Err(error),
            Ok(words_x) => {
                self.buffer_size_x = words_x;
                self.buffer_size_y = cell_count_y;
                Ok(())
            },
        }
    }
}

/// Where the simulation stands between two frames: what the next frame has
/// to do.
#[derive(Clone, Copy, PartialEq, Eq, Structural, Debug)]
pub enum ComputeState {
    /// Nothing has run yet.
    Uninitialized,
    /// The next frame fills the grid with its initial content.
    Randomizing,
    /// The next frame advances the grid by one generation.
    Stepping,
    /// The next frame only redraws, until the next step is due.
    Waiting,
}

impl Default for ComputeState {
    fn default() -> (state: ComputeState)
        ensures
            state == ComputeState::Uninitialized,
    {
        ComputeState::Uninitialized
    }
}

/// What remains of `samples` after `sample` is recorded into a buffer that
/// retains at most `limit` entries: when the buffer is full its oldest entry
/// leaves first.
pub open spec fn recorded(samples: Seq<u64>, limit: nat, sample: u64) -> Seq<u64> {
    if samples.len() >= limit && samples.len() > 0 {
        samples.skip(1).push(sample)
    } else {
        samples.push(sample)
    }
}

/// What a buffer that held `samples` holds after all of `inputs` were
/// recorded, in order.
pub open spec fn recorded_all(samples: Seq<u64>, limit: nat, inputs: Seq<u64>) -> Seq<u64>
    decreases inputs.len(),
{
    if inputs.len() == 0 {
        samples
    } else {
        recorded(recorded_all(samples, limit, inputs.drop_last()), limit, inputs.last())
    }
}

/// Recording never lets a buffer grow past its limit, and the sample just
/// recorded is the newest entry.
pub proof fn lemma_record_respects_limit(samples: Seq<u64>, limit: nat, sample: u64)
    requires
        limit > 0,
        samples.len() <= limit,
    ensures
        recorded(samples, limit, sample).len() <= limit,
        recorded(samples, limit, sample).len() > 0,
        recorded(samples, limit, sample).last() == sample,
{
}

/// A buffer that started empty holds exactly the latest `limit` inputs, in
/// the order they were recorded: it never exceeds its limit, the newest input
/// is always present, and after `limit + 1` inputs the first one is gone.
pub proof fn lemma_records_keep_latest(limit: nat, inputs: Seq<u64>)
    requires
        limit > 0,
    ensures
        recorded_all(Seq::empty(), limit, inputs).len() <= limit,
        recorded_all(Seq::empty(), limit, inputs) == if inputs.len() > limit {
            inputs.skip(inputs.len() - limit)
        } else {
            inputs
        },
        inputs.len() == limit + 1 ==> recorded_all(Seq::empty(), limit, inputs) == inputs.skip(1),
    decreases inputs.len(),
{
    if inputs.len() > 0 {
        let earlier = inputs.drop_last();
        lemma_records_keep_latest(limit, earlier);
        let held = recorded_all(Seq::empty(), limit, earlier);
        if earlier.len() >= limit {
            assert(held.skip(1).push(inputs.last()) =~= inputs.skip(inputs.len() - limit));
        } else {
            assert(held.push(inputs.last()) =~= inputs);
        }
    }
}

/// Sum of `samples`.
pub open spec fn total(samples: Seq<u64>) -> int
    decreases samples.len(),
{
    if samples.len() == 0 {
        0
    } else {
        total(samples.drop_last()) + samples.last() as int
    }
}

/// Length of one second in nanoseconds, times one thousand: the number that
/// a period in nanoseconds divides to give a rate in millihertz.
pub const MILLIHERTZ_NANOS: u64 = 1_000_000_000_000;

/// Summary of the recorded step intervals.
#[derive(Clone, Copy, PartialEq, Eq, Structural, Debug)]
pub struct TickReport {
    /// Arithmetic mean of the intervals in nanoseconds, rounded down.
    pub mean_nanos: u64,
    /// Step rate that the mean corresponds to, in thousandths of a step per
    /// second and rounded down; none if the mean is zero.
    pub millihertz: Option<u64>,
}

/// The report on a non-empty sequence of intervals.
pub open spec fn report_of(samples: Seq<u64>) -> TickReport
    recommends
        samples.len() > 0,
{
    let mean = total(samples) / samples.len() as int;
    TickReport {
        mean_nanos: mean as u64,
        millihertz: if mean > 0 {
            Some((MILLIHERTZ_NANOS as int / mean) as u64)
        } else {
            None
        },
    }
}

/// A sum of samples is bounded by their count times the largest sample.
pub proof fn lemma_total_bounds(samples: Seq<u64>)
    ensures
        0 <= total(samples) <= samples.len() * u64::MAX,
    decreases samples.len(),
{
    if samples.len() > 0 {
        lemma_total_bounds(samples.drop_last());
        assert(samples.len() * u64::MAX == (samples.len() - 1) * u64::MAX + u64::MAX)
            by (nonlinear_arith);
    }
}

/// Bounded first-in-first-out buffer of the intervals between simulation
/// steps, in nanoseconds, oldest first.
pub struct Telemetry {
    ticks_len: usize,
    ticks: Vec<u64>,
}

impl View for Telemetry {
    type V = Seq<u64>;

    closed spec fn view(&self) -> Seq<u64> {
        self.ticks@
    }
}

impl Telemetry {
    /// The buffer has room for at least one sample and holds no more than
    /// its limit.
    pub closed spec fn wf(&self) -> bool {
        0 < self.ticks_len && self.ticks@.len() <= self.ticks_len
    }

    /// The largest number of samples the buffer retains.
    pub closed spec fn limit(&self) -> nat {
        self.ticks_len as nat
    }

    /// An empty buffer that retains up to `capacity` samples.
    pub fn with_capacity(capacity: usize) -> (telemetry: Telemetry)
        requires
            capacity > 0,
        ensures
            telemetry.wf(),
            telemetry@ == Seq::<u64>::empty(),
            telemetry.limit() == capacity,
    {
        Telemetry { ticks_len: capacity, ticks: Vec::new() }
    }

    /// Appends `duration`, evicting the oldest sample first if the buffer is
    /// full.
    pub fn record(&mut self, duration: u64)
        ensures
            final(self)@ == recorded(old(self)@, old(self).limit(), duration),
            final(self).limit() == old(self).limit(),
            old(self).wf() ==> final(self).wf(),
    {
        if self.ticks.len() >= self.ticks_len && self.ticks.len() > 0 {
            self.ticks.remove(0);
        }
        self.ticks.push(duration);
    }

    /// Number of samples currently held.
    pub fn len(&self) -> (count: usize)
        ensures
            count == self@.len(),
    {
        self.ticks.len()
    }

    /// The largest number of samples the buffer retains.
    pub fn ticks_len(&self) -> (capacity: usize)
        ensures
            capacity == self.limit(),
    {
        self.ticks_len
    }

    /// The sample at position `index`, counted from the oldest.
    pub fn get(&self, index: usize) -> (sample: Option<u64>)
        ensures
            sample == if index < self@.len() {
                Some(self@[index as int])
            } else {
                None
            },
    {
        if index < self.ticks.len() {
            Some(self.ticks[index])
        } else {
            None
        }
    }

    /// Mean step interval and the matching step rate. The mean of no samples
    /// is undefined, so the buffer must not be empty.
    pub fn report(&self) -> (report: TickReport)
        requires
            self@.len() > 0,
        ensures
            report == report_of(self@),
    {
        let count: usize = self.ticks.len();
        let mut sum: u128 = 0;
        let mut index: usize = 0;
        while index < count
            invariant
                count == self.ticks@.len(),
                index <= count,
                sum == total(self.ticks@.take(index as int)),
            decreases count - index,
        {
            proof {
                let next = self.ticks@.take(index + 1);
                assert(next.drop_last() == self.ticks@.take(index as int));
                lemma_total_bounds(next);
                assert((index + 1) * u64::MAX <= usize::MAX * u64::MAX) by (nonlinear_arith)
                    requires
                        index + 1 <= usize::MAX,
                ;
                assert(usize::MAX * u64::MAX <= u128::MAX) by (nonlinear_arith)
                    requires
                        usize::MAX <= u64::MAX,
                ;
            }
            sum = sum + self.ticks[index] as u128;
            index = index + 1;
        }
        proof {
            assert(self.ticks@.take(count as int) == self.ticks@);
            lemma_total_bounds(self.ticks@);
            assert(total(self.ticks@) / count as int <= u64::MAX) by (nonlinear_arith)
                requires
                    0 <= total(self.ticks@) <= count * u64::MAX,
                    count > 0,
            ;
        }
        let mean: u64 = (sum / count as u128) as u64;
        let millihertz: Option<u64> = if mean > 0 {
            Some(MILLIHERTZ_NANOS / mean)
        } else {
            None
        };
        TickReport { mean_nanos: mean, millihertz }
    }
}

impl Default for Telemetry {
    /// An empty buffer that retains the default number of samples.
    fn default() -> (telemetry: Telemetry)
        ensures
            telemetry.wf(),
            telemetry@ == Seq::<u64>::empty(),
            telemetry.limit() == DEFAULT_TICKS_LEN,
    {
        Telemetry::with_capacity(DEFAULT_TICKS_LEN)
    }
}

/// What the view controller remembers of the pointer between frames.
#[derive(Clone, Copy, PartialEq, Eq, Structural, Debug)]
pub struct MouseData {
    /// The latest observed pointer position, if any.
    pub pos: Option<CursorPos>,
}

impl Default for MouseData {
    fn default() -> (data: MouseData)
        ensures
            data.pos is None,
    {
        MouseData { pos: None }
    }
}

} // verus!
