//! The per-attempt snapshot of the session and the context that is handed to
//! the renderer.

use vstd::prelude::*;

verus! {

/// Snapshot of the session taken when a render is triggered.
///
/// `U` is the token-usage detail of the session. It is carried through to the
/// renderer's input and never inspected.
#[derive(Clone, Debug, PartialEq, Eq)]
pub struct StatusLineRequest<U> {
    pub model: String,
    pub model_provider: String,
    pub cwd: String,
    pub task_running: bool,
    pub review_mode: bool,
    pub context_window_percent: Option<i64>,
    pub context_window_used_tokens: Option<i64>,
    pub token_usage: Option<U>,
}

/// Mathematical content of a [`StatusLineRequest`].
pub struct RequestView<U> {
    pub model: Seq<char>,
    pub model_provider: Seq<char>,
    pub cwd: Seq<char>,
    pub task_running: bool,
    pub review_mode: bool,
    pub context_window_percent: Option<i64>,
    pub context_window_used_tokens: Option<i64>,
    pub token_usage: Option<U>,
}

impl<U> View for StatusLineRequest<U> {
    type V = RequestView<U>;

    open spec fn view(&self) -> RequestView<U> {
        RequestView {
            model: self.model@,
            model_provider: self.model_provider@,
            cwd: self.cwd@,
            task_running: self.task_running,
            review_mode: self.review_mode,
            context_window_percent: self.context_window_percent,
            context_window_used_tokens: self.context_window_used_tokens,
            token_usage: self.token_usage,
        }
    }
}

/// What the renderer receives on its input: the request merged with the branch
/// of the repository that holds the working directory. An absent optional
/// field stays absent; it is never replaced by a default.
#[derive(Debug, PartialEq, Eq)]
pub struct StatusLineInput<U> {
    pub model: String,
    pub model_provider: String,
    pub cwd: String,
    pub git_branch: Option<String>,
    pub task_running: bool,
    pub review_mode: bool,
    pub context_window_percent: Option<i64>,
    pub context_window_used_tokens: Option<i64>,
    pub token_usage: Option<U>,
}

/// Mathematical content of a [`StatusLineInput`].
pub struct InputView<U> {
    pub model: Seq<char>,
    pub model_provider: Seq<char>,
    pub cwd: Seq<char>,
    pub git_branch: Option<Seq<char>>,
    pub task_running: bool,
    pub review_mode: bool,
    pub context_window_percent: Option<i64>,
    pub context_window_used_tokens: Option<i64>,
    pub token_usage: Option<U>,
}

impl<U> View for StatusLineInput<U> {
    type V = InputView<U>;

    open spec fn view(&self) -> InputView<U> {
        InputView {
            model: self.model@,
            model_provider: self.model_provider@,
            cwd: self.cwd@,
            git_branch: self.git_branch.deep_view(),
            task_running: self.task_running,
            review_mode: self.review_mode,
            context_window_percent: self.context_window_percent,
            context_window_used_tokens: self.context_window_used_tokens,
            token_usage: self.token_usage,
        }
    }
}

/// The input that a request and a resolved branch name merge into.
pub open spec fn merged_input<U>(
    request: RequestView<U>,
    git_branch: Option<Seq<char>>,
) -> InputView<U> {
    InputView {
        model: request.model,
        model_provider: request.model_provider,
        cwd: request.cwd,
        git_branch,
        task_running: request.task_running,
        review_mode: request.review_mode,
        context_window_percent: request.context_window_percent,
        context_window_used_tokens: request.context_window_used_tokens,
        token_usage: request.token_usage,
    }
}

impl<U> StatusLineInput<U> {
    /// Merges `request` with the branch name resolved for its working
    /// directory. Every field of the request is carried over unchanged.
    pub fn new(request: StatusLineRequest<U>, git_branch: Option<String>) -> (input: Self)
        ensures
            input@ == merged_input(request@, git_branch.deep_view()),
    {
        StatusLineInput {
            model: request.model,
            model_provider: request.model_provider,
            cwd: request.cwd,
            git_branch,
            task_running: request.task_running,
            review_mode: request.review_mode,
            context_window_percent: request.context_window_percent,
            context_window_used_tokens: request.context_window_used_tokens,
            token_usage: request.token_usage,
        }
    }
}

} // verus!
