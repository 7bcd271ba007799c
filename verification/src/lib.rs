//! Core of an animated-wallpaper renderer.
//!
//! The crate models the two stateful components behind a continuously
//! animating, screen-filling shader window: the *surface session*
//! ([`session::State`]), which tracks the configured surface size and the
//! per-frame uniform parameters handed to the shading program, and the
//! *frame controller*, the event-driven state machine that decides when
//! redraws are requested, recovers from transient surface errors, and
//! reports throughput.

pub mod controller;
pub mod session;

pub use controller::{Controller, Directives, Phase, RenderError};
pub use session::{FrameParams, State};
