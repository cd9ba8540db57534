//! A timer-driven animation of a sprite that is built up frame by frame.
//!
//! The crate holds the components that describe one animated builder and the
//! state machine that moves it through its frames. The timers are the game
//! engine's own; what this crate relies on of them is stated in [`clock`].

pub mod animation;
pub mod clock;
pub mod components;
pub mod laws;
