//! How a render attempt ends, and what the host is told about it.

use vstd::prelude::*;

verus! {

/// Why an attempt failed. The host never sees this; it is meant for the
/// diagnostics of whoever runs the attempt.
#[derive(Debug, PartialEq, Eq)]
pub enum Failure {
    /// The input could not be serialized.
    Serialization { detail: String },
    /// There is no program to run.
    EmptyCommand,
    /// The renderer could not be spawned.
    Spawn { detail: String },
    /// The input could not be written to the renderer.
    InputWrite { detail: String },
    /// Waiting for the renderer failed.
    Wait { detail: String },
    /// The renderer did not exit within the deadline.
    Timeout { timeout_ms: u64 },
    /// The renderer exited with a status other than zero. `stderr` is what it
    /// wrote to its error stream, trimmed.
    NonZeroExit { code: Option<i32>, stderr: String },
    /// An event arrived that does not answer the action that was outstanding.
    UnexpectedEvent,
}

/// Mathematical content of a [`Failure`].
pub enum FailureView {
    Serialization { detail: Seq<char> },
    EmptyCommand,
    Spawn { detail: Seq<char> },
    InputWrite { detail: Seq<char> },
    Wait { detail: Seq<char> },
    Timeout { timeout_ms: u64 },
    NonZeroExit { code: Option<i32>, stderr: Seq<char> },
    UnexpectedEvent,
}

impl View for Failure {
    type V = FailureView;

    open spec fn view(&self) -> FailureView {
        match *self {
            Failure::Serialization { detail } => FailureView::Serialization { detail: detail@ },
            Failure::EmptyCommand => FailureView::EmptyCommand,
            Failure::Spawn { detail } => FailureView::Spawn { detail: detail@ },
            Failure::InputWrite { detail } => FailureView::InputWrite { detail: detail@ },
            Failure::Wait { detail } => FailureView::Wait { detail: detail@ },
            Failure::Timeout { timeout_ms } => FailureView::Timeout { timeout_ms },
            Failure::NonZeroExit { code, stderr } => FailureView::NonZeroExit {
                code,
                stderr: stderr@,
            },
            Failure::UnexpectedEvent => FailureView::UnexpectedEvent,
        }
    }
}

/// How an attempt ended: with the line to show, if any, or with the reason it
/// failed.
pub type Outcome = Result<Option<String>, Failure>;

/// Mathematical content of an [`Outcome`].
pub type OutcomeView = Result<Option<Seq<char>>, FailureView>;

/// The content of `outcome`.
pub open spec fn outcome_view(outcome: Outcome) -> OutcomeView {
    match outcome {
        Ok(line) => Ok(line.deep_view()),
        Err(failure) => Err(failure@),
    }
}

/// What the host loop receives for an attempt.
#[derive(Debug, PartialEq, Eq)]
pub enum StatusLineUpdate {
    /// The renderer ran; the line to show, or none if it produced nothing to
    /// show.
    Updated(Option<String>),
    /// The attempt failed. The reason is not passed on.
    Failed,
}

/// Mathematical content of a [`StatusLineUpdate`].
pub enum UpdateView {
    Updated(Option<Seq<char>>),
    Failed,
}

impl View for StatusLineUpdate {
    type V = UpdateView;

    open spec fn view(&self) -> UpdateView {
        match *self {
            StatusLineUpdate::Updated(line) => UpdateView::Updated(line.deep_view()),
            StatusLineUpdate::Failed => UpdateView::Failed,
        }
    }
}

/// The update that an outcome is reduced to: every failure becomes the one
/// `Failed`, every line, present or not, an `Updated`.
pub open spec fn reduced(outcome: OutcomeView) -> UpdateView {
    match outcome {
        Ok(line) => UpdateView::Updated(line),
        Err(_) => UpdateView::Failed,
    }
}

impl StatusLineUpdate {
    /// Reduces the outcome of an attempt to what the host is told.
    pub fn from_outcome(outcome: Outcome) -> (update: Self)
        ensures
            update@ == reduced(outcome_view(outcome)),
    {
        match outcome {
            Ok(line) => StatusLineUpdate::Updated(line),
            Err(_) => StatusLineUpdate::Failed,
        }
    }
}

} // verus!
