//! The timeline: the window of time a trace spans, and where each step's bar
//! sits inside it.

use crate::timestamp::{Timestamp, MAX_SECS, MIN_SECS, NANOS_PER_SEC};
use crate::trace::{optional_wf, step_models, steps_wf, DurableTrace, StepModel, StepTrace};
use vstd::prelude::*;

verus! {

/// Seconds shown after the start of a trace in which nothing has completed yet.
pub const PROVISIONAL_SECS: i64 = 15;

/// The later of two optional instants. An absent instant is earlier than any
/// present one.
pub open spec fn later_of(a: Option<Timestamp>, b: Option<Timestamp>) -> Option<Timestamp> {
    match (a, b) {
        (None, _) => b,
        (_, None) => a,
        (Some(x), Some(y)) => if x.total_nanos() <= y.total_nanos() {
            b
        } else {
            a
        },
    }
}

/// The latest completion among `steps`; absent when no step has completed.
pub open spec fn latest_completion(steps: Seq<StepModel>) -> Option<Timestamp>
    decreases steps.len(),
{
    if steps.len() == 0 {
        None
    } else {
        later_of(latest_completion(steps.drop_last()), steps.last().completed_at)
    }
}

/// The right edge of the window: the latest completion of any step or of the
/// trace itself, or, where nothing has completed, the start of the trace plus
/// `PROVISIONAL_SECS` seconds.
pub open spec fn window_end(
    steps: Seq<StepModel>,
    scheduled_at: Timestamp,
    completed_at: Option<Timestamp>,
) -> Timestamp {
    match later_of(latest_completion(steps), completed_at) {
        Some(end) => end,
        None => scheduled_at.shifted(PROVISIONAL_SECS as int),
    }
}

/// The later of two optional instants, an absent one counting as earliest.
pub fn later(a: Option<Timestamp>, b: Option<Timestamp>) -> (r: Option<Timestamp>)
    requires
        optional_wf(a),
        optional_wf(b),
    ensures
        r == later_of(a, b),
        optional_wf(r),
{
    match (a, b) {
        (None, _) => b,
        (_, None) => a,
        (Some(x), Some(y)) => if x.not_after(y) {
            b
        } else {
            a
        },
    }
}

/// `latest_completion` is the completion of one of the steps, and no step
/// completed after it; it is absent exactly when no step has completed.
pub proof fn lemma_latest_completion(steps: Seq<StepModel>)
    requires
        steps_wf(steps),
    ensures
        optional_wf(latest_completion(steps)),
        latest_completion(steps) is None <==> forall|i: int|
            0 <= i < steps.len() ==> (#[trigger] steps[i]).completed_at is None,
        latest_completion(steps) matches Some(end) ==> {
            &&& exists|i: int| 0 <= i < steps.len() && (#[trigger] steps[i]).completed_at == Some(end)
            &&& forall|i: int|
                0 <= i < steps.len() ==> ((#[trigger] steps[i]).completed_at matches Some(done)
                    ==> done.total_nanos() <= end.total_nanos())
        },
    decreases steps.len(),
{
    if steps.len() > 0 {
        let front = steps.drop_last();
        let last = steps.len() - 1;
        assert(steps[last].wf());
        assert forall|i: int| 0 <= i < front.len() implies (#[trigger] front[i]).wf() by {
            assert(front[i] == steps[i]);
            assert(steps[i].wf());
        }
        lemma_latest_completion(front);
        assert forall|i: int| 0 <= i < front.len() implies #[trigger] front[i] == steps[i] by {}
        match latest_completion(steps) {
            Some(end) => {
                if latest_completion(front) == Some(end) {
                    let i = choose|i: int|
                        0 <= i < front.len() && (#[trigger] front[i]).completed_at == Some(end);
                    assert(steps[i].completed_at == Some(end));
                } else {
                    assert(steps[last].completed_at == Some(end));
                }
                assert forall|i: int| 0 <= i < steps.len() implies ((
                #[trigger] steps[i]).completed_at matches Some(done) ==> done.total_nanos()
                    <= end.total_nanos()) by {
                    if i < last {
                        assert(front[i] == steps[i]);
                    }
                }
            },
            None => {
                assert forall|i: int| 0 <= i < steps.len() implies (
                #[trigger] steps[i]).completed_at is None by {
                    if i < last {
                        assert(front[i] == steps[i]);
                    }
                }
            },
        }
        if latest_completion(steps) is Some {
            if latest_completion(front) is None {
                assert(steps[last].completed_at is Some);
            } else {
                let end = latest_completion(front)->Some_0;
                let i = choose|i: int|
                    0 <= i < front.len() && (#[trigger] front[i]).completed_at == Some(end);
                assert(steps[i].completed_at is Some);
            }
        }
    }
}

/// Finds the right edge of the window of a trace: the latest completion among
/// the steps and the trace, or the start plus `PROVISIONAL_SECS` seconds where
/// nothing has completed.
pub fn find_max_completion(
    steps: &Vec<StepTrace>,
    durable_scheduled_at: Timestamp,
    durable_completed_at: Option<Timestamp>,
) -> (end: Timestamp)
    requires
        steps_wf(step_models(steps@)),
        durable_scheduled_at.wf(),
        optional_wf(durable_completed_at),
    ensures
        end == window_end(
            step_models(steps@),
            durable_scheduled_at,
            durable_completed_at,
        ),
        end.nanos < NANOS_PER_SEC,
        MIN_SECS <= end.secs <= MAX_SECS + PROVISIONAL_SECS,
{
    let ghost models = step_models(steps@);
    let mut latest: Option<Timestamp> = None;
    let mut i: usize = 0;
    while i < steps.len()
        invariant
            i <= steps.len(),
            models == step_models(steps@),
            steps_wf(models),
            latest == latest_completion(models.take(i as int)),
            optional_wf(latest),
        decreases steps.len() - i,
    {
        proof {
            assert(models[i as int].wf());
            assert(models[i as int] == steps[i as int]@);
            assert(models.take(i + 1).drop_last() =~= models.take(i as int));
        }
        latest = later(latest, steps[i].completed_at);
        i = i + 1;
    }
    proof {
        assert(models.take(i as int) =~= models);
    }
    match later(latest, durable_completed_at) {
        Some(end) => end,
        None => Timestamp {
            secs: durable_scheduled_at.secs + PROVISIONAL_SECS,
            nanos: durable_scheduled_at.nanos,
        },
    }
}

/// The span of time a timeline shows: from the start of the trace to its right edge.
#[derive(Clone, Copy, Debug, PartialEq, Eq, Structural)]
pub struct Window {
    pub start: Timestamp,
    pub end: Timestamp,
}

/// A share of the track's width in percent, as the exact fraction `numer / denom`.
#[derive(Clone, Copy, Debug, PartialEq, Eq, Structural)]
pub struct Percent {
    pub numer: i64,
    pub denom: i64,
}

/// Where a step's bar sits on the track: how far from the left edge it starts,
/// and how wide it is.
#[derive(Clone, Copy, Debug, PartialEq, Eq, Structural)]
pub struct StepGeometry {
    pub position: Percent,
    pub width: Percent,
}

/// The width given to the bar of a step that has not completed.
pub open spec fn running_width() -> Percent {
    Percent { numer: 2, denom: 1 }
}

impl Percent {
    /// The fraction has a positive denominator.
    pub open spec fn wf(self) -> bool {
        self.denom > 0
    }

    /// The fraction equals the whole number `n`.
    pub open spec fn is_whole(self, n: int) -> bool {
        self.numer == n * self.denom
    }
}

impl Window {
    /// The start is well formed, and the end lies no more than
    /// `PROVISIONAL_SECS` seconds beyond the last well-formed instant.
    pub open spec fn wf(self) -> bool {
        &&& self.start.wf()
        &&& self.end.nanos < NANOS_PER_SEC
        &&& MIN_SECS <= self.end.secs <= MAX_SECS + PROVISIONAL_SECS
    }

    /// The length of the window in whole seconds, counted as one second where
    /// the end is less than a second after the start.
    pub open spec fn delta(self) -> int {
        let span = self.end.seconds_since(self.start);
        if span < 1 {
            1
        } else {
            span
        }
    }

    /// The geometry of a step in this window. The position is the whole
    /// seconds from the window's start to the step's start, times 100, over the
    /// window's length. The width is the whole seconds the step ran, times 100,
    /// over the window's length, or two percent where the step has not
    /// completed. Neither is clamped to the track.
    pub open spec fn geometry(self, step: StepModel) -> StepGeometry {
        StepGeometry {
            position: Percent {
                numer: (step.scheduled_at.seconds_since(self.start) * 100) as i64,
                denom: self.delta() as i64,
            },
            width: match step.completed_at {
                Some(done) => Percent {
                    numer: (done.seconds_since(step.scheduled_at) * 100) as i64,
                    denom: self.delta() as i64,
                },
                None => running_width(),
            },
        }
    }

    /// Tells whether the window is well formed.
    pub fn is_wf(&self) -> (r: bool)
        ensures
            r == self.wf(),
    {
        self.start.is_wf() && self.end.nanos < NANOS_PER_SEC && MIN_SECS <= self.end.secs
            && self.end.secs <= MAX_SECS + PROVISIONAL_SECS
    }

    /// The length of the window in whole seconds, at least one.
    pub fn delta_window(&self) -> (delta: i64)
        requires
            self.wf(),
        ensures
            delta == self.delta(),
            delta >= 1,
    {
        let span: i64 = self.end.whole_seconds_since(self.start);
        if span < 1 {
            1
        } else {
            span
        }
    }

    /// The share of the track that one second takes: 100 over the window's length.
    pub fn second_rate(&self) -> (rate: Percent)
        requires
            self.wf(),
        ensures
            rate == (Percent { numer: 100, denom: self.delta() as i64 }),
            rate.wf(),
    {
        Percent { numer: 100, denom: self.delta_window() }
    }

    /// Places one step in the window.
    pub fn step_geometry(&self, step: &StepTrace) -> (place: StepGeometry)
        requires
            self.wf(),
            step@.wf(),
        ensures
            place == self.geometry(step@),
            place.position.wf(),
            place.width.wf(),
    {
        let delta: i64 = self.delta_window();
        let offset: i64 = step.scheduled_at.whole_seconds_since(self.start);
        let position = Percent { numer: offset * 100, denom: delta };
        let width = match step.completed_at {
            Some(done) => {
                let elapsed: i64 = done.whole_seconds_since(step.scheduled_at);
                Percent { numer: elapsed * 100, denom: delta }
            },
            None => Percent { numer: 2, denom: 1 },
        };
        StepGeometry { position, width }
    }
}

/// The window of a trace: it starts when the trace was scheduled and ends at
/// `window_end`.
pub fn compute_window(trace: &DurableTrace) -> (window: Window)
    requires
        trace@.wf(),
    ensures
        window.start == trace.scheduled_at,
        window.end == window_end(trace@.steps, trace.scheduled_at, trace.completed_at),
        window.wf(),
{
    Window {
        start: trace.scheduled_at,
        end: find_max_completion(&trace.steps, trace.scheduled_at, trace.completed_at),
    }
}

/// Places every step of a trace in the trace's window, in the order of the steps.
pub fn layout_steps(trace: &DurableTrace) -> (places: Vec<StepGeometry>)
    requires
        trace@.wf(),
    ensures
        places@.len() == trace@.steps.len(),
        forall|i: int|
            0 <= i < places@.len() ==> #[trigger] places@[i] == (Window {
                start: trace.scheduled_at,
                end: window_end(trace@.steps, trace.scheduled_at, trace.completed_at),
            }).geometry(trace@.steps[i]),
{
    let window = compute_window(trace);
    let mut places: Vec<StepGeometry> = Vec::new();
    let mut i: usize = 0;
    while i < trace.steps.len()
        invariant
            i <= trace.steps.len(),
            trace@.wf(),
            window.wf(),
            places@.len() == i,
            forall|k: int| 0 <= k < i ==> #[trigger] places@[k] == window.geometry(trace@.steps[k]),
        decreases trace.steps.len() - i,
    {
        proof {
            assert(trace@.steps[i as int].wf());
            assert(trace@.steps[i as int] == trace.steps[i as int]@);
        }
        let place = window.step_geometry(&trace.steps[i]);
        places.push(place);
        i = i + 1;
    }
    places
}

/// Whenever some step has completed, the window's end is no earlier than the
/// completion of any step. It is no earlier than the start of the trace
/// either, provided some step, or the trace itself, completed at or after that
/// start.
pub proof fn lemma_window_covers_completions(
    steps: Seq<StepModel>,
    scheduled_at: Timestamp,
    completed_at: Option<Timestamp>,
)
    requires
        steps_wf(steps),
        scheduled_at.wf(),
        optional_wf(completed_at),
        exists|i: int| 0 <= i < steps.len() && (#[trigger] steps[i]).completed_at is Some,
    ensures
        forall|i: int|
            0 <= i < steps.len() ==> ((#[trigger] steps[i]).completed_at matches Some(done)
                ==> done.total_nanos() <= window_end(
                steps,
                scheduled_at,
                completed_at,
            ).total_nanos()),
        completed_at matches Some(done) ==> done.total_nanos() <= window_end(
            steps,
            scheduled_at,
            completed_at,
        ).total_nanos(),
        ((exists|i: int|
            0 <= i < steps.len() && ((#[trigger] steps[i]).completed_at matches Some(done)
                && scheduled_at.total_nanos() <= done.total_nanos())) || (
        completed_at matches Some(done) && scheduled_at.total_nanos() <= done.total_nanos()))
            ==> scheduled_at.total_nanos() <= window_end(
            steps,
            scheduled_at,
            completed_at,
        ).total_nanos(),
{
    lemma_latest_completion(steps);
}

/// A trace in which no step has completed, and which has not completed
/// itself, gets a window that ends exactly `PROVISIONAL_SECS` seconds after
/// its start.
pub proof fn lemma_window_of_running_trace(steps: Seq<StepModel>, scheduled_at: Timestamp)
    requires
        steps_wf(steps),
        scheduled_at.wf(),
        forall|i: int| 0 <= i < steps.len() ==> (#[trigger] steps[i]).completed_at is None,
    ensures
        window_end(steps, scheduled_at, None) == scheduled_at.shifted(PROVISIONAL_SECS as int),
        window_end(steps, scheduled_at, None).secs == scheduled_at.secs + 15,
        window_end(steps, scheduled_at, None).nanos == scheduled_at.nanos,
{
    lemma_latest_completion(steps);
}

/// A step scheduled at the very start of the window sits at position zero,
/// whatever the window's end.
pub proof fn lemma_position_at_start(window: Window, step: StepModel)
    requires
        window.wf(),
        step.wf(),
        step.scheduled_at == window.start,
    ensures
        window.geometry(step).position.numer == 0,
        window.geometry(step).position.is_whole(0),
{
}

/// A step that has not completed is two percent wide, whatever the window.
pub proof fn lemma_width_of_running_step(window: Window, step: StepModel)
    requires
        step.completed_at is None,
    ensures
        window.geometry(step).width == running_width(),
        window.geometry(step).width.is_whole(2),
{
}

} // verus!
