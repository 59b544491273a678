use action_log::{Action, ActionStatus, AppState, LogError};

fn text(s: &str) -> String {
    String::from(s)
}

fn strings(lines: &[&str]) -> Vec<String> {
    lines.iter().map(|l| String::from(*l)).collect()
}

#[test]
fn submit_then_output_then_completion() {
    let mut state = AppState::new();
    state.set_input(text("ls -la"));
    let id = state.submit_input().unwrap();
    assert_eq!(id, 0);
    assert_eq!(state.input().as_str(), "");

    let snap = state.snapshot();
    assert_eq!(snap.len(), 1);
    let entry = snap.get(id).unwrap();
    assert_eq!(entry.command().as_str(), "ls -la");
    assert_eq!(entry.status(), ActionStatus::Running);
    assert_eq!(entry.output(), Vec::<String>::new());

    assert_eq!(state.report_output(id, text("file1")), Ok(()));
    assert_eq!(state.report_output(id, text("file2")), Ok(()));
    let snap = state.snapshot();
    assert_eq!(snap.get(id).unwrap().output(), strings(&["file1", "file2"]));
    assert_eq!(snap.get(id).unwrap().status(), ActionStatus::Running);

    assert_eq!(state.report_completion(id, ActionStatus::Success), Ok(()));
    assert_eq!(state.snapshot().get(id).unwrap().status(), ActionStatus::Success);

    assert_eq!(
        state.report_completion(id, ActionStatus::Failed),
        Err(LogError::InvalidTransition)
    );
    let snap = state.snapshot();
    let entry = snap.get(id).unwrap();
    assert_eq!(entry.status(), ActionStatus::Success);
    assert_eq!(entry.command().as_str(), "ls -la");
    assert_eq!(entry.output(), strings(&["file1", "file2"]));
    assert_eq!(snap.len(), 1);
}

#[test]
fn submit_with_empty_buffer_is_rejected() {
    let mut state = AppState::new();
    assert_eq!(state.submit_input(), Err(LogError::EmptyInput));
    assert_eq!(state.snapshot().len(), 0);

    state.set_input(text("make"));
    assert_eq!(state.submit_input(), Ok(0));
    assert_eq!(state.submit_input(), Err(LogError::EmptyInput));
    assert_eq!(state.snapshot().len(), 1);
}

#[test]
fn single_character_is_submitted() {
    let mut state = AppState::new();
    state.set_input(text("w"));
    assert_eq!(state.submit_input(), Ok(0));
    let snap = state.snapshot();
    assert_eq!(snap.get(0).unwrap().command().as_str(), "w");
}

#[test]
fn new_action_is_running_without_output() {
    let a = Action::new(text("cargo build"));
    assert_eq!(a.command().as_str(), "cargo build");
    assert_eq!(a.status(), ActionStatus::Running);
    assert_eq!(a.output_len(), 0);
    assert!(a.output_line(0).is_none());
}
