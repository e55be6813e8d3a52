//! Coordination core for a status line that is rendered by an external,
//! user-configured command.
//!
//! The crate holds the decisions; the owner of the event loop performs the
//! effects. [`gate`] admits or drops render triggers, [`request`] assembles the
//! snapshot handed to the renderer, [`runner`] drives one render attempt as a
//! state machine over the effects its owner reports back, and [`text`] reduces
//! the renderer's output to the line that is shown.

pub mod clock;
pub mod gate;
pub mod history;
pub mod outcome;
pub mod request;
pub mod runner;
pub mod text;
