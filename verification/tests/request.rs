use status_line::request::{StatusLineInput, StatusLineRequest};

#[test]
fn input_carries_every_field_of_the_request() {
    let request = StatusLineRequest {
        model: "m".to_string(),
        model_provider: "p".to_string(),
        cwd: "/tmp/x".to_string(),
        task_running: false,
        review_mode: true,
        context_window_percent: Some(0),
        context_window_used_tokens: Some(-5),
        token_usage: Some(vec![1u32, 2, 3]),
    };
    let input = StatusLineInput::new(request.clone(), Some("main".to_string()));
    assert_eq!(input.model, request.model);
    assert_eq!(input.model_provider, request.model_provider);
    assert_eq!(input.cwd, "/tmp/x");
    assert_eq!(input.git_branch, Some("main".to_string()));
    assert_eq!(input.task_running, false);
    assert_eq!(input.review_mode, true);
    assert_eq!(input.context_window_percent, Some(0));
    assert_eq!(input.context_window_used_tokens, Some(-5));
    assert_eq!(input.token_usage, Some(vec![1u32, 2, 3]));
}

#[test]
fn absent_fields_stay_absent() {
    let request: StatusLineRequest<String> = StatusLineRequest {
        model: String::new(),
        model_provider: String::new(),
        cwd: String::new(),
        task_running: true,
        review_mode: false,
        context_window_percent: None,
        context_window_used_tokens: None,
        token_usage: None,
    };
    let input = StatusLineInput::new(request, None);
    assert_eq!(input.git_branch, None);
    assert_eq!(input.context_window_percent, None);
    assert_eq!(input.context_window_used_tokens, None);
    assert_eq!(input.token_usage, None);
    assert_eq!(input.cwd, "");
    assert_eq!(input.task_running, true);
}
