//! A bitmap viewer's session logic, kept apart from the graphics library that
//! draws it.
//!
//! The library never touches a window, a file or an event queue. A driver does
//! that work and reports back in plain values:
//!
//! * start-up is a state machine ([`Startup`]) that names the next call to
//!   make ([`Request`]) and takes what the call gave ([`Answer`]);
//! * the running session ([`Engine`]) takes one polled [`Event`] at a time and
//!   says whether to poll again or which [`DrawCall`]s make the next frame.
//!
//! Both machines can also be run over a recorded list of answers or events,
//! which is how their behaviour over whole runs is stated and proved.
#![allow(non_snake_case)]

pub mod engine;
pub mod error;
pub mod event;
pub mod startup;

pub use engine::{Engine, EngineView, Run, Step, Trace};
pub use error::EngineError;
pub use event::{DrawCall, Event};
pub use startup::{Answer, Engine, Progress, ProgressView, Request, Startup, VideoMode};
