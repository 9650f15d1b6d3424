//! Frame observation for streamed calls.
//!
//! A call over a frame-oriented transport can fail before the peer has seen any of it, or
//! after part of a body was already streamed. The two look alike in the status of the
//! call, and only the first is safe to repeat. This crate records the difference in one
//! bit: a latch that goes up when a frame of the body is produced.
//!
//! - `signal`: the latch, a shared atomic flag behind a cloneable handle.
//! - `body`: the tap on one poll of a body, which raises the latch on a frame and hands
//!   the poll on untouched.
//! - `service`: the monitor around a call dispatcher whose latch the caller owns, and
//!   the discipline by which every call gets a dispatcher handle of its own.
//! - `annotate`: the monitor that gives every call a latch of its own and marks the
//!   error of a call that failed while its latch was down.
//! - `history`: what a latch holds after a sequence of acts on it, and the laws of the
//!   latch.
//!
//! Polling bodies and dispatching calls is left to the caller: the functions here take
//! what a poll or a call gave and say what to hand on.

pub mod annotate;
pub mod body;
pub mod history;
pub mod service;
pub mod signal;

pub use annotate::{Annotated, AnnotatingFrameMonitor};
pub use body::{observe, Polled};
pub use service::RequestFrameMonitor;
pub use signal::FrameSignal;
