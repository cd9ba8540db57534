//! The data attached to an animated entity.

use bevy::time::Timer;
use vstd::prelude::*;

verus! {

/// A person's name, in two parts.
pub struct Name {
    pub first: String,
    pub last: String,
}

/// The first and the last frame of an animation, both included.
#[derive(Copy, Clone)]
pub struct AnimationIndices {
    pub first: usize,
    pub last: usize,
}

/// A timer that paces an animation.
pub struct AnimationTimer(pub Timer);

/// The phase of a build.
#[derive(PartialEq, Eq, Structural, Debug, Clone, Copy)]
pub enum BuildState {
    Undefined,
    NotStarted,
    Start,
    InProgress,
    Finish,
}

/// Who starts a build, and whether it starts over once it is finished.
#[derive(PartialEq, Eq, Structural, Debug, Clone, Copy)]
pub enum BuilderType {
    ManualOnce,
    ManualRepeat,
    AutoOnce,
    AutoRepeat,
}

/// The animation of one builder: its phase, its frames and its two timers.
pub struct BuilderAnimator {
    pub state: BuildState,
    pub build_type: BuilderType,
    pub progress: AnimationIndices,
    /// Runs while a frame is shown; when it fires, the next frame is due.
    pub progress_frame_time: Timer,
    /// Runs while the last frame is held.
    pub showcase_time: Timer,
}

} // verus!
