//! The state machine that moves a builder through its frames.
//!
//! One evaluation consults at most one timer: the frame timer while the build
//! is in progress, the showcase timer once it is finished. What follows from
//! the timer's answer is decided by [`next_step`], which knows nothing of
//! timers; [`animate_builder`] ticks and resets the timers around it.

use crate::clock::{
    can_tick, rewound, ticked, timer_elapsed, timer_fires, timer_repeats, MAX_DURATION_NANOS,
};
use crate::components::{AnimationIndices, BuildState, BuilderAnimator, BuilderType};
use bevy::time::Timer;
use std::time::Duration;
use vstd::prelude::*;

verus! {

/// What one evaluation did to a builder.
#[derive(PartialEq, Eq, Structural, Debug, Clone, Copy)]
pub enum Transition {
    /// The phase is the same as before and no new frame was due.
    Idle,
    /// An undefined builder was put on its first frame and now waits to be
    /// started.
    Initialized,
    /// The build began: the first frame is shown.
    Started,
    /// The frame timer fired and the next frame is shown.
    Advanced,
    /// The frame timer fired, the last frame is shown and the build is
    /// finished.
    Finished,
    /// The showcase timer fired and the build goes back to its start.
    Restarted,
}

/// A builder's phase and frame after an evaluation, with what was done.
pub struct Step {
    pub state: BuildState,
    pub frame: usize,
    pub transition: Transition,
}

/// The phase that follows `state`, where `frame` is shown and `fired` tells
/// whether the timer consulted in `state` has just finished.
pub open spec fn next_state(
    state: BuildState,
    build_type: BuilderType,
    progress: AnimationIndices,
    frame: int,
    fired: bool,
) -> BuildState {
    match state {
        BuildState::Undefined => BuildState::NotStarted,
        BuildState::NotStarted => BuildState::NotStarted,
        BuildState::Start => BuildState::InProgress,
        BuildState::InProgress => if fired && frame + 1 == progress.last {
            BuildState::Finish
        } else {
            BuildState::InProgress
        },
        BuildState::Finish => if fired && build_type == BuilderType::AutoRepeat {
            BuildState::Start
        } else {
            BuildState::Finish
        },
    }
}

/// The frame shown after an evaluation in `state`.
pub open spec fn next_frame(
    state: BuildState,
    progress: AnimationIndices,
    frame: int,
    fired: bool,
) -> int {
    match state {
        BuildState::Undefined => progress.first as int,
        BuildState::NotStarted => frame,
        BuildState::Start => progress.first as int,
        BuildState::InProgress => if fired {
            frame + 1
        } else {
            frame
        },
        BuildState::Finish => progress.last as int,
    }
}

/// What an evaluation in `state` does.
pub open spec fn transition_made(
    state: BuildState,
    build_type: BuilderType,
    progress: AnimationIndices,
    frame: int,
    fired: bool,
) -> Transition {
    match state {
        BuildState::Undefined => Transition::Initialized,
        BuildState::NotStarted => Transition::Idle,
        BuildState::Start => Transition::Started,
        BuildState::InProgress => if !fired {
            Transition::Idle
        } else if frame + 1 == progress.last {
            Transition::Finished
        } else {
            Transition::Advanced
        },
        BuildState::Finish => if fired && build_type == BuilderType::AutoRepeat {
            Transition::Restarted
        } else {
            Transition::Idle
        },
    }
}

/// Decides one evaluation: the phase and the frame that follow, given
/// whether the timer consulted in `state` has just finished.
///
/// A frame that cannot be counted up is left out: a build in progress whose
/// timer fired must show a frame below `usize::MAX`.
pub fn next_step(
    state: BuildState,
    build_type: BuilderType,
    progress: AnimationIndices,
    frame: usize,
    fired: bool,
) -> (step: Step)
    requires
        state == BuildState::InProgress && fired ==> frame < usize::MAX,
    ensures
        step.state == next_state(state, build_type, progress, frame as int, fired),
        step.frame == next_frame(state, progress, frame as int, fired),
        step.transition == transition_made(state, build_type, progress, frame as int, fired),
{
    match state {
        BuildState::Undefined => Step {
            state: BuildState::NotStarted,
            frame: progress.first,
            transition: Transition::Initialized,
        },
        BuildState::NotStarted => Step { state, frame, transition: Transition::Idle },
        BuildState::Start => Step {
            state: BuildState::InProgress,
            frame: progress.first,
            transition: Transition::Started,
        },
        BuildState::InProgress => {
            if !fired {
                Step { state, frame, transition: Transition::Idle }
            } else if frame + 1 == progress.last {
                Step {
                    state: BuildState::Finish,
                    frame: frame + 1,
                    transition: Transition::Finished,
                }
            } else {
                Step { state, frame: frame + 1, transition: Transition::Advanced }
            }
        },
        BuildState::Finish => {
            if fired && build_type == BuilderType::AutoRepeat {
                Step {
                    state: BuildState::Start,
                    frame: progress.last,
                    transition: Transition::Restarted,
                }
            } else {
                Step { state, frame: progress.last, transition: Transition::Idle }
            }
        },
    }
}

impl BuilderAnimator {
    /// Whether the timer that the builder consults in its phase fires on a
    /// tick of `delta`. A builder that is not in progress nor finished
    /// consults none.
    pub open spec fn fires(self, delta: Duration) -> bool {
        match self.state {
            BuildState::InProgress => timer_fires(self.progress_frame_time, delta),
            BuildState::Finish => timer_fires(self.showcase_time, delta),
            _ => false,
        }
    }

    /// Whether the builder, showing `frame`, can be evaluated after `delta`:
    /// the timer it consults can take the tick, and a frame timer that fires
    /// finds a frame that can be counted up.
    pub open spec fn can_animate(self, frame: usize, delta: Duration) -> bool {
        match self.state {
            BuildState::InProgress => {
                &&& can_tick(self.progress_frame_time, delta)
                &&& timer_fires(self.progress_frame_time, delta) ==> frame < usize::MAX
            },
            BuildState::Finish => can_tick(self.showcase_time, delta),
            _ => true,
        }
    }

    /// `after`, showing `shown`, is what one evaluation after `delta` makes
    /// of the builder `self` that shows `frame`.
    ///
    /// Phase and frame follow [`next_state`] and [`next_frame`]; the kind of
    /// build and the range of frames stay. A build in progress ticks its
    /// frame timer and rewinds it when it fired; it rewinds the showcase
    /// timer on reaching the last frame. A starting build rewinds its frame
    /// timer. A finished build ticks its showcase timer. Every other timer is
    /// left as it is.
    pub open spec fn animated(
        self,
        frame: usize,
        delta: Duration,
        after: BuilderAnimator,
        shown: usize,
    ) -> bool {
        let fired = self.fires(delta);
        let made = transition_made(self.state, self.build_type, self.progress, frame as int, fired);
        &&& after.state == next_state(
            self.state,
            self.build_type,
            self.progress,
            frame as int,
            fired,
        )
        &&& shown == next_frame(self.state, self.progress, frame as int, fired)
        &&& after.build_type == self.build_type
        &&& after.progress == self.progress
        &&& match self.state {
            BuildState::Start => rewound(self.progress_frame_time, after.progress_frame_time),
            BuildState::InProgress => if fired {
                rewound(self.progress_frame_time, after.progress_frame_time)
            } else {
                ticked(self.progress_frame_time, delta, after.progress_frame_time)
            },
            _ => after.progress_frame_time == self.progress_frame_time,
        }
        &&& if self.state == BuildState::Finish {
            ticked(self.showcase_time, delta, after.showcase_time)
        } else if made == Transition::Finished {
            rewound(self.showcase_time, after.showcase_time)
        } else {
            after.showcase_time == self.showcase_time
        }
    }
}

/// Tells what a tick of `delta` would do to `timer`, without taking it:
/// `None` where the timer cannot take the tick, else whether it would fire.
pub fn foresee_tick(timer: &Timer, delta: Duration) -> (fired: Option<bool>)
    ensures
        fired.is_some() == can_tick(*timer, delta),
        fired.is_some() ==> fired.unwrap() == timer_fires(*timer, delta),
{
    if timer.paused() {
        return Some(false);
    }
    let repeats = timer_repeats(timer);
    if !repeats && timer.finished() {
        return Some(false);
    }
    let elapsed: u128 = timer.elapsed().as_nanos();
    let added: u128 = delta.as_nanos();
    let due: u128 = timer.duration().as_nanos();
    match elapsed.checked_add(added) {
        None => None,
        Some(total) => {
            if total > MAX_DURATION_NANOS {
                None
            } else if total < due {
                Some(false)
            } else if !repeats || due == 0 {
                Some(true)
            } else {
                Some((total / due) % 0x1_0000_0000 != 0)
            }
        },
    }
}

/// Evaluates the builder once, `delta` after the evaluation before: ticks
/// the timer that its phase consults, moves phase and frame as
/// [`next_step`] decides, and rewinds the timers that start anew.
///
/// `frame` is the frame on display; it is replaced by the frame to display
/// from now on.
pub fn animate_builder(builder: &mut BuilderAnimator, frame: &mut usize, delta: Duration) -> (made:
    Transition)
    requires
        old(builder).can_animate(*old(frame), delta),
    ensures
        old(builder).animated(*old(frame), delta, *final(builder), *final(frame)),
        made == transition_made(
            old(builder).state,
            old(builder).build_type,
            old(builder).progress,
            *old(frame) as int,
            old(builder).fires(delta),
        ),
        old(builder).state == BuildState::InProgress && *final(frame) == old(builder).progress.last
            && old(builder).fires(delta) ==> final(builder).state == BuildState::Finish
            && timer_elapsed(final(builder).showcase_time) == 0,
{
    let fired = match builder.state {
        BuildState::InProgress => {
            builder.progress_frame_time.tick(delta);
            builder.progress_frame_time.just_finished()
        },
        BuildState::Finish => {
            builder.showcase_time.tick(delta);
            builder.showcase_time.just_finished()
        },
        _ => false,
    };
    let step = next_step(builder.state, builder.build_type, builder.progress, *frame, fired);
    match step.transition {
        Transition::Started | Transition::Advanced => {
            builder.progress_frame_time.reset();
        },
        Transition::Finished => {
            builder.progress_frame_time.reset();
            builder.showcase_time.reset();
        },
        _ => {},
    }
    builder.state = step.state;
    *frame = step.frame;
    step.transition
}

/// Evaluates the builder as [`animate_builder`] does, wherever that can be
/// done, and leaves builder and frame untouched where it cannot.
pub fn try_animate_builder(
    builder: &mut BuilderAnimator,
    frame: &mut usize,
    delta: Duration,
) -> (made: Option<Transition>)
    ensures
        made.is_some() == old(builder).can_animate(*old(frame), delta),
        made.is_some() ==> old(builder).animated(
            *old(frame),
            delta,
            *final(builder),
            *final(frame),
        ),
        made.is_some() ==> made.unwrap() == transition_made(
            old(builder).state,
            old(builder).build_type,
            old(builder).progress,
            *old(frame) as int,
            old(builder).fires(delta),
        ),
        made.is_none() ==> *final(builder) == *old(builder) && *final(frame) == *old(frame),
{
    let able = match builder.state {
        BuildState::InProgress => match foresee_tick(&builder.progress_frame_time, delta) {
            Some(fired) => !fired || *frame < usize::MAX,
            None => false,
        },
        BuildState::Finish => foresee_tick(&builder.showcase_time, delta).is_some(),
        _ => true,
    };
    if able {
        Some(animate_builder(builder, frame, delta))
    } else {
        None
    }
}

} // verus!
