//! Animation engine for a single RGB light with a brightness channel.
//!
//! An [`animation::Animation`] is a time-parameterized rule; the evaluator
//! turns it into a frame for any elapsed time, the mailbox carries the latest
//! selection from a producer to the renderer, and the renderer keeps the time
//! base and produces one frame per tick.
pub mod color;
pub mod animation;
pub mod laws;
pub mod mailbox;
pub mod output;
pub mod renderer;
