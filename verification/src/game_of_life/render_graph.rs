//! The tick state machine and the per-frame dispatch plan of the packed
//! profile.
//!
//! A frame first dispatches for the phase it starts in and then advances the
//! state: [`GLNode::run`] plans the dispatches, [`GLNode::update`] advances,
//! and [`GLNode::evaluate`] does both in that order.

use crate::dispatch::{
    linear_cover, linear_workgroups, planar_cover, planar_workgroups, Dispatch, Kernel,
    ReadyKernels,
};
use crate::game_of_life::data_structs::{recorded, ComputeState, Params, ParamsView, Telemetry};
use vstd::prelude::*;

verus! {

/// Invocations per workgroup of the randomize and update kernels.
pub const COMPUTE_WG_SIZE: u32 = 1024;

/// Invocations per workgroup of the display kernel, along each axis.
pub const DISPLAY_WG_SIZE: u32 = 32;

/// Length of one second in the unit of elapsed time.
pub const NANOS_PER_SECOND: u64 = 1_000_000_000;

/// Tick rate of a default node, in steps per second.
pub const DEFAULT_TARGET_TPS: u32 = 10;

/// Time that passed between `last` and `now`; zero if the clock ran
/// backwards.
pub open spec fn interval(last: u64, now: u64) -> u64 {
    if now >= last {
        (now - last) as u64
    } else {
        0
    }
}

/// Whether a step is due `elapsed` nanoseconds after the previous one: always
/// when the rate is uncapped (zero), else once more than `1 / target_tps`
/// seconds have passed.
pub open spec fn step_due(elapsed: int, target_tps: int) -> bool {
    target_tps == 0 || elapsed * target_tps > NANOS_PER_SECOND as int
}

/// The phase a frame runs in when it starts in `state`: an uninitialized
/// simulation begins at once with its first phase.
pub open spec fn phase_of(state: ComputeState, randomize: bool) -> ComputeState {
    match state {
        ComputeState::Uninitialized => if randomize {
            ComputeState::Randomizing
        } else {
            ComputeState::Stepping
        },
        _ => state,
    }
}

/// The mathematical content of [`GLNode`].
pub struct GLNodeView {
    pub state: ComputeState,
    /// Elapsed time at which the latest step was dispatched.
    pub last_step_time: Option<u64>,
    /// Requested steps per second; zero lifts the cap.
    pub target_tps: u32,
    /// Whether the simulation starts with a randomize phase.
    pub randomize: bool,
}

impl GLNodeView {
    /// A waiting node knows when it last stepped.
    pub open spec fn wf(self) -> bool {
        self.state is Waiting ==> self.last_step_time is Some
    }

    /// The phase of the frame that starts in this state.
    pub open spec fn phase(self) -> ComputeState {
        phase_of(self.state, self.randomize)
    }

    /// The interval that a frame at time `now` reports: the time since the
    /// latest step, when the frame ends a wait.
    pub open spec fn sample(self, now: u64) -> Option<u64> {
        if self.state is Waiting && step_due(
            interval(self.last_step_time->0, now) as int,
            self.target_tps as int,
        ) {
            Some(interval(self.last_step_time->0, now))
        } else {
            None
        }
    }

    /// The node after the frame at time `now`.
    pub open spec fn advanced(self, now: u64) -> GLNodeView {
        match self.phase() {
            ComputeState::Randomizing => GLNodeView { state: ComputeState::Stepping, ..self },
            ComputeState::Stepping => GLNodeView {
                state: ComputeState::Waiting,
                last_step_time: Some(now),
                ..self
            },
            _ => if self.sample(now) is Some {
                GLNodeView { state: ComputeState::Stepping, ..self }
            } else {
                self
            },
        }
    }
}

/// A waiting node that stepped at `last` resumes stepping at `now` exactly
/// when a step is due: with a positive target rate, when strictly more than
/// `1 / target_tps` seconds have passed. At ten steps per second it keeps
/// waiting up to and including a tenth of a second after `last`, and steps
/// at any later time.
pub proof fn lemma_wait_ends_when_due(node: GLNodeView, last: u64, now: u64)
    requires
        node.state is Waiting,
        node.last_step_time == Some(last),
    ensures
        node.advanced(now).state is Stepping || node.advanced(now).state is Waiting,
        node.advanced(now).state is Stepping <==> step_due(
            interval(last, now) as int,
            node.target_tps as int,
        ),
        node.target_tps > 0 ==> (node.advanced(now).state is Stepping <==> (now - last)
            * node.target_tps > NANOS_PER_SECOND),
        node.target_tps == 10 && now < last + 100_000_000 ==> node.advanced(now).state is Waiting,
        node.target_tps == 10 && now > last + 100_000_000 ==> node.advanced(now).state is Stepping,
        node.advanced(now).wf(),
{
    if node.target_tps > 0 && now < last {
        assert((now - last) * node.target_tps <= 0) by (nonlinear_arith)
            requires
                now - last < 0,
                node.target_tps > 0,
        ;
    }
    if node.target_tps == 10 {
        assert(interval(last, now) * node.target_tps == interval(last, now) * 10);
    }
}

/// A node with a randomize phase that has not run yet is stepping after one
/// frame and waiting after two, with the second frame's time as the time of
/// its latest step.
pub proof fn lemma_startup_reaches_waiting(node: GLNodeView, first: u64, second: u64)
    requires
        node.state is Uninitialized,
        node.randomize,
    ensures
        node.phase() is Randomizing,
        node.advanced(first).state is Stepping,
        node.advanced(first).advanced(second).state is Waiting,
        node.advanced(first).advanced(second).last_step_time == Some(second),
{
}

/// Advancing keeps a node well formed.
pub proof fn lemma_advance_keeps_wf(node: GLNodeView, now: u64)
    requires
        node.wf(),
    ensures
        node.advanced(now).wf(),
{
}

/// The simulation dispatch of a frame in `phase` over `total_words` packed
/// words: the phase's kernel if it is ready, nothing while waiting.
pub open spec fn simulation_step(
    phase: ComputeState,
    total_words: int,
    ready: ReadyKernels,
) -> Seq<Dispatch> {
    let workgroups = linear_cover(total_words, COMPUTE_WG_SIZE as int);
    match phase {
        ComputeState::Randomizing if ready.randomize => seq![
            Dispatch { kernel: Kernel::Randomize, workgroups },
        ],
        ComputeState::Stepping if ready.update => seq![
            Dispatch { kernel: Kernel::Update, workgroups },
        ],
        _ => Seq::empty(),
    }
}

/// The display dispatch over an image of `resolution_x` by `resolution_y`
/// pixels, if the display kernel is ready.
pub open spec fn display_step(
    resolution_x: int,
    resolution_y: int,
    ready: ReadyKernels,
) -> Seq<Dispatch> {
    if ready.display {
        seq![
            Dispatch {
                kernel: Kernel::Display,
                workgroups: planar_cover(resolution_x, resolution_y, DISPLAY_WG_SIZE as int),
            },
        ]
    } else {
        Seq::empty()
    }
}

/// The dispatches of one frame, in issue order: the simulation kernel of the
/// phase, then the display kernel. Nothing is dispatched while the
/// parameters or the bind group are missing.
pub open spec fn frame_plan(
    phase: ComputeState,
    params: Option<ParamsView>,
    ready: ReadyKernels,
    bound: bool,
) -> Seq<Dispatch> {
    match params {
        Some(p) if bound => simulation_step(phase, p.total_words(), ready) + display_step(
            p.resolution_x,
            p.resolution_y,
            ready,
        ),
        _ => Seq::empty(),
    }
}

/// Whenever the display kernel can run it closes the frame, whatever the
/// phase: a frame issues at most one simulation dispatch, the display
/// dispatch comes after it, and a waiting frame issues the display dispatch
/// alone.
pub proof fn lemma_display_closes_the_frame(
    phase: ComputeState,
    params: ParamsView,
    ready: ReadyKernels,
)
    requires
        ready.display,
    ensures
        1 <= frame_plan(phase, Some(params), ready, true).len() <= 2,
        frame_plan(phase, Some(params), ready, true).last().kernel == Kernel::Display,
        frame_plan(phase, Some(params), ready, true).len() == 2 ==> frame_plan(
            phase,
            Some(params),
            ready,
            true,
        )[0].kernel != Kernel::Display,
        phase is Waiting ==> frame_plan(phase, Some(params), ready, true).len() == 1,
{
}

/// The view of optional parameters.
pub open spec fn view_of(params: Option<&Params>) -> Option<ParamsView> {
    match params {
        Some(p) => Some(p@),
        None => None,
    }
}

/// The tick scheduler: decides once per frame whether the simulation runs
/// a kernel before the grid is drawn.
#[derive(Clone, Copy, Debug)]
pub struct GLNode {
    state: ComputeState,
    last_step_time: Option<u64>,
    target_tps: u32,
    randomize: bool,
}

impl View for GLNode {
    type V = GLNodeView;

    closed spec fn view(&self) -> GLNodeView {
        GLNodeView {
            state: self.state,
            last_step_time: self.last_step_time,
            target_tps: self.target_tps,
            randomize: self.randomize,
        }
    }
}

impl Default for GLNode {
    /// A node that starts with a randomize phase and steps ten times per
    /// second.
    fn default() -> (node: GLNode)
        ensures
            node@ == (GLNodeView {
                state: ComputeState::Uninitialized,
                last_step_time: None,
                target_tps: DEFAULT_TARGET_TPS,
                randomize: true,
            }),
            node.wf(),
    {
        GLNode::new(DEFAULT_TARGET_TPS, true)
    }
}

impl GLNode {
    /// The invariant every constructor establishes and every method keeps.
    pub open spec fn wf(&self) -> bool {
        self@.wf()
    }

    /// A node that aims at `target_tps` steps per second. With a randomize
    /// phase it starts uninitialized, without one it starts stepping.
    pub fn new(target_tps: u32, randomize: bool) -> (node: GLNode)
        ensures
            node@ == (GLNodeView {
                state: if randomize {
                    ComputeState::Uninitialized
                } else {
                    ComputeState::Stepping
                },
                last_step_time: None,
                target_tps,
                randomize,
            }),
            node.wf(),
    {
        let state = if randomize {
            ComputeState::Uninitialized
        } else {
            ComputeState::Stepping
        };
        GLNode { state, last_step_time: None, target_tps, randomize }
    }

    /// The state the node is in between frames.
    pub fn state(&self) -> (state: ComputeState)
        ensures
            state == self@.state,
    {
        self.state
    }

    /// Elapsed time at which the latest step was dispatched, if any was.
    pub fn last_step_time(&self) -> (time: Option<u64>)
        ensures
            time == self@.last_step_time,
    {
        self.last_step_time
    }

    /// Requested steps per second; zero means uncapped.
    pub fn target_tps(&self) -> (rate: u32)
        ensures
            rate == self@.target_tps,
    {
        self.target_tps
    }

    /// Changes the requested step rate.
    pub fn set_target_tps(&mut self, target_tps: u32)
        ensures
            final(self)@ == (GLNodeView { target_tps, ..old(self)@ }),
            old(self).wf() ==> final(self).wf(),
    {
        self.target_tps = target_tps;
    }

    /// The phase of the frame that starts now.
    pub fn phase(&self) -> (phase: ComputeState)
        ensures
            phase == self@.phase(),
    {
        match self.state {
            ComputeState::Uninitialized => if self.randomize {
                ComputeState::Randomizing
            } else {
                ComputeState::Stepping
            },
            ComputeState::Randomizing => ComputeState::Randomizing,
            ComputeState::Stepping => ComputeState::Stepping,
            ComputeState::Waiting => ComputeState::Waiting,
        }
    }

    /// Plans the dispatches of the frame that starts now. A kernel that is
    /// not ready is left out of this frame's plan; nothing is planned
    /// without parameters or without a live bind group.
    pub fn run(&self, params: Option<&Params>, ready: ReadyKernels, bound: bool) -> (plan: Vec<
        Dispatch,
    >)
        requires
            params matches Some(p) ==> p.wf(),
        ensures
            plan@ == frame_plan(self@.phase(), view_of(params), ready, bound),
    {
        let mut plan: Vec<Dispatch> = Vec::new();
        let p: &Params = match params {
            Some(p) => p,
            None => {
                return plan;
            },
        };
        if !bound {
            return plan;
        }
        let compute = linear_workgroups(p.total_words(), COMPUTE_WG_SIZE);
        match self.phase() {
            ComputeState::Randomizing => {
                if ready.randomize {
                    plan.push(Dispatch { kernel: Kernel::Randomize, workgroups: compute });
                }
            },
            ComputeState::Stepping => {
                if ready.update {
                    plan.push(Dispatch { kernel: Kernel::Update, workgroups: compute });
                }
            },
            _ => {},
        }
        assert(plan@ == simulation_step(self@.phase(), p@.total_words(), ready));
        if ready.display {
            let display = planar_workgroups(p.resolution_x(), p.resolution_y(), DISPLAY_WG_SIZE);
            plan.push(Dispatch { kernel: Kernel::Display, workgroups: display });
        }
        plan
    }

    /// Advances the state machine past the frame at time `elapsed`
    /// (nanoseconds on a monotonic clock) and returns the interval that the
    /// frame reports, if it ended a wait. The interval is also recorded in
    /// `telemetry` when a buffer is given.
    pub fn update(&mut self, elapsed: u64, telemetry: Option<&mut Telemetry>) -> (sample: Option<
        u64,
    >)
        requires
            old(self).wf(),
        ensures
            final(self)@ == old(self)@.advanced(elapsed),
            final(self).wf(),
            sample == old(self)@.sample(elapsed),
            match telemetry {
                Some(buffer) => {
                    &&& final(buffer)@ == match sample {
                        Some(duration) => recorded(buffer@, buffer.limit(), duration),
                        None => buffer@,
                    }
                    &&& final(buffer).limit() == buffer.limit()
                    &&& buffer.wf() ==> final(buffer).wf()
                },
                None => true,
            },
    {
        let mut sample: Option<u64> = None;
        match self.phase() {
            ComputeState::Randomizing => {
                self.state = ComputeState::Stepping;
            },
            ComputeState::Stepping => {
                self.last_step_time = Some(elapsed);
                self.state = ComputeState::Waiting;
            },
            _ => {
                let last: u64 = match self.last_step_time {
                    Some(time) => time,
                    None => elapsed,
                };
                let delta: u64 = if elapsed >= last {
                    elapsed - last
                } else {
                    0
                };
                if step_is_due(delta, self.target_tps) {
                    self.state = ComputeState::Stepping;
                    sample = Some(delta);
                }
            },
        }
        match telemetry {
            Some(buffer) => {
                match sample {
                    Some(duration) => {
                        buffer.record(duration);
                    },
                    None => {},
                }
            },
            None => {},
        }
        sample
    }

    /// Evaluates one frame at time `elapsed`: plans the dispatches of the
    /// current phase, then advances the state machine.
    pub fn evaluate(
        &mut self,
        elapsed: u64,
        params: Option<&Params>,
        ready: ReadyKernels,
        bound: bool,
        telemetry: Option<&mut Telemetry>,
    ) -> (plan: Vec<Dispatch>)
        requires
            old(self).wf(),
            params matches Some(p) ==> p.wf(),
        ensures
            plan@ == frame_plan(old(self)@.phase(), view_of(params), ready, bound),
            final(self)@ == old(self)@.advanced(elapsed),
            final(self).wf(),
            match telemetry {
                Some(buffer) => {
                    &&& final(buffer)@ == match old(self)@.sample(elapsed) {
                        Some(duration) => recorded(buffer@, buffer.limit(), duration),
                        None => buffer@,
                    }
                    &&& final(buffer).limit() == buffer.limit()
                    &&& buffer.wf() ==> final(buffer).wf()
                },
                None => true,
            },
    {
        let plan = self.run(params, ready, bound);
        let _ = self.update(elapsed, telemetry);
        plan
    }
}

/// Computes [`step_due`].
pub fn step_is_due(elapsed: u64, target_tps: u32) -> (due: bool)
    ensures
        due == step_due(elapsed as int, target_tps as int),
{
    if target_tps == 0 {
        return true;
    }
    assert(elapsed * target_tps <= u128::MAX) by (nonlinear_arith)
        requires
            elapsed <= u64::MAX,
            target_tps <= u32::MAX,
    ;
    elapsed as u128 * target_tps as u128 > NANOS_PER_SECOND as u128
}

} // verus!
