//! What holds of the state machine, over one evaluation and over many.
//!
//! A run of evaluations is described by one flag for each of them, which
//! tells whether the timer consulted in that evaluation fired. For an
//! evaluation of a builder `b` after `delta` that flag is `b.fires(delta)`.

use crate::animation::{next_frame, next_state};
use crate::clock::{
    duration_nanos, rewound, ticked, timer_duration, timer_elapsed, timer_fires, timer_finished,
    timer_paused, timer_repeating,
};
use crate::components::{AnimationIndices, BuildState, BuilderAnimator, BuilderType};
use bevy::time::Timer;
use std::time::Duration;
use vstd::prelude::*;

verus! {

/// Phase and frame after a run of evaluations that begins in `state` with
/// `frame` on display.
pub open spec fn after_run(
    state: BuildState,
    build_type: BuilderType,
    progress: AnimationIndices,
    frame: int,
    fires: Seq<bool>,
) -> (BuildState, int)
    decreases fires.len(),
{
    if fires.len() == 0 {
        (state, frame)
    } else {
        after_run(
            next_state(state, build_type, progress, frame, fires.first()),
            build_type,
            progress,
            next_frame(state, progress, frame, fires.first()),
            fires.drop_first(),
        )
    }
}

/// How many evaluations of a run saw their timer fire.
pub open spec fn firings(fires: Seq<bool>) -> nat
    decreases fires.len(),
{
    if fires.len() == 0 {
        0
    } else if fires.first() {
        1 + firings(fires.drop_first())
    } else {
        firings(fires.drop_first())
    }
}

/// Where the phases stand in a cycle.
pub open spec fn phase_rank(state: BuildState) -> nat {
    match state {
        BuildState::Undefined => 0,
        BuildState::NotStarted => 1,
        BuildState::Start => 2,
        BuildState::InProgress => 3,
        BuildState::Finish => 4,
    }
}

/// The frame on display lies within the range of frames, which holds at
/// least two, and a build in progress has not reached the last one.
pub open spec fn in_cycle(state: BuildState, progress: AnimationIndices, frame: int) -> bool {
    &&& progress.first < progress.last
    &&& progress.first <= frame <= progress.last
    &&& state == BuildState::InProgress ==> frame < progress.last
}

/// While a build is in progress and short of its last frame, the frame on
/// display goes up by one with each firing of the frame timer, and by
/// nothing else.
pub proof fn lemma_frames_count_firings(
    build_type: BuilderType,
    progress: AnimationIndices,
    frame: int,
    fires: Seq<bool>,
)
    requires
        frame + firings(fires) < progress.last,
    ensures
        after_run(BuildState::InProgress, build_type, progress, frame, fires) == (
            BuildState::InProgress,
            frame + firings(fires),
        ),
    decreases fires.len(),
{
    if fires.len() > 0 {
        let shown = next_frame(BuildState::InProgress, progress, frame, fires.first());
        lemma_frames_count_firings(build_type, progress, shown, fires.drop_first());
    }
}

/// A build that starts shows its first frame, and after `n` firings of the
/// frame timer, `n` below the distance from the first frame to the last, it
/// shows the frame `first + n` and is still in progress.
pub proof fn lemma_started_build_counts_firings(
    build_type: BuilderType,
    progress: AnimationIndices,
    frame: int,
    fires: Seq<bool>,
)
    requires
        fires.len() > 0,
        firings(fires.drop_first()) < progress.last - progress.first,
    ensures
        after_run(BuildState::Start, build_type, progress, frame, fires) == (
            BuildState::InProgress,
            progress.first + firings(fires.drop_first()),
        ),
{
    lemma_frames_count_firings(build_type, progress, progress.first as int, fires.drop_first());
}

/// The firing that shows the last frame finishes the build, and no other
/// evaluation of a build in progress does.
pub proof fn lemma_last_frame_finishes(
    build_type: BuilderType,
    progress: AnimationIndices,
    frame: int,
    fired: bool,
)
    ensures
        next_state(BuildState::InProgress, build_type, progress, frame, fired)
            == BuildState::Finish <==> fired && next_frame(
            BuildState::InProgress,
            progress,
            frame,
            fired,
        ) == progress.last,
        next_state(BuildState::InProgress, build_type, progress, frame, fired)
            != BuildState::Finish ==> next_state(
            BuildState::InProgress,
            build_type,
            progress,
            frame,
            fired,
        ) == BuildState::InProgress,
{
}

/// A finished build that does not repeat by itself stays finished, on its
/// last frame, whatever its timers do.
pub proof fn lemma_finished_build_stays(
    build_type: BuilderType,
    progress: AnimationIndices,
    frame: int,
    fires: Seq<bool>,
)
    requires
        build_type != BuilderType::AutoRepeat,
    ensures
        after_run(BuildState::Finish, build_type, progress, frame, fires).0 == BuildState::Finish,
        fires.len() > 0 ==> after_run(BuildState::Finish, build_type, progress, frame, fires).1
            == progress.last,
    decreases fires.len(),
{
    if fires.len() > 0 {
        lemma_finished_build_stays(build_type, progress, progress.last as int, fires.drop_first());
    }
}

/// A finished build that repeats by itself goes back to its start when the
/// showcase timer fires, and not before; the evaluation after that shows the
/// first frame again, with the build in progress.
pub proof fn lemma_auto_repeat_starts_over(
    progress: AnimationIndices,
    frame: int,
    fired: bool,
    fired_next: bool,
)
    ensures
        next_state(BuildState::Finish, BuilderType::AutoRepeat, progress, frame, fired) == if fired {
            BuildState::Start
        } else {
            BuildState::Finish
        },
        after_run(
            BuildState::Finish,
            BuilderType::AutoRepeat,
            progress,
            frame,
            seq![true, fired_next],
        ) == (BuildState::InProgress, progress.first as int),
{
    let fires = seq![true, fired_next];
    assert(fires.drop_first() =~= seq![fired_next]);
    assert(fires.drop_first().drop_first() =~= Seq::<bool>::empty());
    reveal_with_fuel(after_run, 3);
}

/// The same of two evaluations of a builder with its timers: once the
/// showcase timer of a finished build that repeats by itself fires, the
/// build is at its start, and the evaluation that follows shows the first
/// frame with the frame timer rewound.
pub proof fn lemma_showcase_over_restarts(
    builder: BuilderAnimator,
    frame: usize,
    delta: Duration,
    restarted: BuilderAnimator,
    held: usize,
    delta_next: Duration,
    started: BuilderAnimator,
    shown: usize,
)
    requires
        builder.state == BuildState::Finish,
        builder.build_type == BuilderType::AutoRepeat,
        timer_fires(builder.showcase_time, delta),
        builder.animated(frame, delta, restarted, held),
        restarted.animated(held, delta_next, started, shown),
    ensures
        restarted.state == BuildState::Start,
        held == builder.progress.last,
        started.state == BuildState::InProgress,
        shown == builder.progress.first,
        timer_elapsed(started.progress_frame_time) == 0,
        rewound(builder.progress_frame_time, started.progress_frame_time),
{
}

/// An evaluation of a build in progress shows the next frame when the frame
/// timer fires on that tick, and keeps the frame when it does not.
pub proof fn lemma_frame_follows_timer(
    builder: BuilderAnimator,
    frame: usize,
    delta: Duration,
    after: BuilderAnimator,
    shown: usize,
)
    requires
        builder.state == BuildState::InProgress,
        builder.animated(frame, delta, after, shown),
    ensures
        timer_fires(builder.progress_frame_time, delta) ==> shown == frame + 1 && rewound(
            builder.progress_frame_time,
            after.progress_frame_time,
        ),
        !timer_fires(builder.progress_frame_time, delta) ==> shown == frame && after.state
            == BuildState::InProgress && ticked(
            builder.progress_frame_time,
            delta,
            after.progress_frame_time,
        ),
{
}

/// When the frame on display reaches the last one, the build is finished
/// and the showcase timer starts from zero.
pub proof fn lemma_last_frame_rewinds_showcase(
    builder: BuilderAnimator,
    frame: usize,
    delta: Duration,
    after: BuilderAnimator,
    shown: usize,
)
    requires
        builder.state == BuildState::InProgress,
        timer_fires(builder.progress_frame_time, delta),
        builder.animated(frame, delta, after, shown),
        shown == builder.progress.last,
    ensures
        after.state == BuildState::Finish,
        timer_elapsed(after.showcase_time) == 0,
        !timer_finished(after.showcase_time),
        rewound(builder.showcase_time, after.showcase_time),
{
}

/// One evaluation leaves a finished builder that does not repeat by itself
/// finished and on its last frame, whatever time has passed.
pub proof fn lemma_finished_builder_holds(
    builder: BuilderAnimator,
    frame: usize,
    delta: Duration,
    after: BuilderAnimator,
    shown: usize,
)
    requires
        builder.state == BuildState::Finish,
        builder.build_type != BuilderType::AutoRepeat,
        builder.animated(frame, delta, after, shown),
    ensures
        after.state == BuildState::Finish,
        after.build_type == builder.build_type,
        shown == builder.progress.last,
{
}

/// A timer that runs once gathers the time of the ticks on which it stays
/// silent: after such a tick it fires on the next one exactly when the time
/// of both, added to what it had counted, reaches its duration.
pub proof fn lemma_silent_tick_adds_its_time(
    timer: Timer,
    delta: Duration,
    later: Timer,
    delta_next: Duration,
)
    requires
        !timer_paused(timer),
        !timer_repeating(timer),
        !timer_finished(timer),
        !timer_fires(timer, delta),
        ticked(timer, delta, later),
    ensures
        timer_elapsed(later) == timer_elapsed(timer) + duration_nanos(delta),
        timer_fires(later, delta_next) <==> timer_elapsed(timer) + duration_nanos(delta)
            + duration_nanos(delta_next) >= timer_duration(timer),
{
}

/// An evaluation keeps the frame on display within the range of frames.
pub proof fn lemma_step_stays_in_cycle(
    state: BuildState,
    build_type: BuilderType,
    progress: AnimationIndices,
    frame: int,
    fired: bool,
)
    requires
        in_cycle(state, progress, frame),
    ensures
        in_cycle(
            next_state(state, build_type, progress, frame, fired),
            progress,
            next_frame(state, progress, frame, fired),
        ),
{
}

/// The first evaluation of an undefined or a starting builder brings the
/// frame on display into the range of frames, wherever it was.
pub proof fn lemma_first_step_enters_cycle(
    state: BuildState,
    build_type: BuilderType,
    progress: AnimationIndices,
    frame: int,
    fired: bool,
)
    requires
        state == BuildState::Undefined || state == BuildState::Start,
        progress.first < progress.last,
    ensures
        in_cycle(
            next_state(state, build_type, progress, frame, fired),
            progress,
            next_frame(state, progress, frame, fired),
        ),
        next_frame(state, progress, frame, fired) == progress.first,
{
}

/// The frame on display stays within the range of frames over any run of
/// evaluations.
pub proof fn lemma_run_stays_in_cycle(
    state: BuildState,
    build_type: BuilderType,
    progress: AnimationIndices,
    frame: int,
    fires: Seq<bool>,
)
    requires
        in_cycle(state, progress, frame),
    ensures
        in_cycle(
            after_run(state, build_type, progress, frame, fires).0,
            progress,
            after_run(state, build_type, progress, frame, fires).1,
        ),
    decreases fires.len(),
{
    if fires.len() > 0 {
        lemma_step_stays_in_cycle(state, build_type, progress, frame, fires.first());
        lemma_run_stays_in_cycle(
            next_state(state, build_type, progress, frame, fires.first()),
            build_type,
            progress,
            next_frame(state, progress, frame, fires.first()),
            fires.drop_first(),
        );
    }
}

/// Within a cycle the phases only go forward, one at a time: an evaluation
/// keeps the phase or moves to the one after it. The one way back is the
/// restart of a finished build that repeats by itself. A builder that has
/// not been started is never started by an evaluation.
pub proof fn lemma_phases_go_forward(
    state: BuildState,
    build_type: BuilderType,
    progress: AnimationIndices,
    frame: int,
    fired: bool,
)
    ensures
        ({
            let next = next_state(state, build_type, progress, frame, fired);
            ||| next == state
            ||| phase_rank(next) == phase_rank(state) + 1
            ||| state == BuildState::Finish && build_type == BuilderType::AutoRepeat && fired
                && next == BuildState::Start
        }),
        state == BuildState::NotStarted ==> next_state(state, build_type, progress, frame, fired)
            == BuildState::NotStarted,
{
}

} // verus!
