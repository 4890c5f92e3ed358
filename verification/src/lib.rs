//! Timing and scoring state machine of a reflex-timing arcade game.
//!
//! A session is driven by a host that calls `tick` once per display refresh
//! with a monotonically increasing millisecond timestamp. Each call advances
//! the obstacle and jump timers and reports what happened as a list of
//! [`clock::GameEvent`] values, which the host forwards to its presentation
//! layer. Time is kept in whole milliseconds and the speed multiplier in
//! tenths, so every window and percentage computation is exact integer
//! arithmetic.

pub mod clock;
pub mod laws;

pub use clock::GameEvent;
pub use clock::SessionClock;
