//! A productivity timer's core: a pausable stopwatch, a work/break session
//! cycle with a long-break threshold, the queue that hands hook-script runs to
//! a single worker in submission order, the user's settings, and the state that
//! turns each lifecycle event into the next state and the hook run to queue.

pub mod config;
pub mod dispatch;
pub mod service;
pub mod session;
pub mod stopwatch;
pub mod text;
