use action_log::{ActionStatus, AppState, Event, LogError, Reply};

fn text(s: &str) -> String {
    String::from(s)
}

fn strings(lines: &[&str]) -> Vec<String> {
    lines.iter().map(|l| String::from(*l)).collect()
}

fn statuses(state: &AppState) -> Vec<ActionStatus> {
    state.snapshot().to_vec().iter().map(|a| a.status()).collect()
}

#[test]
fn initial_state_is_empty() {
    let state = AppState::new();
    assert_eq!(state.input().as_str(), "");
    assert_eq!(state.snapshot().len(), 0);
}

#[test]
fn set_input_replaces_the_buffer_only() {
    let mut state = AppState::new();
    state.set_input(text("ab"));
    state.set_input(text("abc"));
    assert_eq!(state.input().as_str(), "abc");
    assert_eq!(state.snapshot().len(), 0);
}

#[test]
fn handle_submit() {
    let mut state = AppState::new();
    assert_eq!(state.handle(Event::Submit), Reply::Rejected { error: LogError::EmptyInput });
    state.set_input(text("date"));
    assert_eq!(state.handle(Event::Submit), Reply::Submitted { id: 0 });
    assert_eq!(state.input().as_str(), "");
    state.set_input(text("cal"));
    assert_eq!(state.handle(Event::Submit), Reply::Submitted { id: 1 });
    let snap = state.snapshot();
    assert_eq!(snap.get(0).unwrap().command().as_str(), "date");
    assert_eq!(snap.get(1).unwrap().command().as_str(), "cal");
}

#[test]
fn handle_output_and_completion() {
    let mut state = AppState::new();
    state.set_input(text("ls"));
    state.handle(Event::Submit);
    assert_eq!(state.handle(Event::Output { id: 0, line: text("a.txt") }), Reply::Recorded);
    assert_eq!(
        state.handle(Event::Output { id: 1, line: text("b.txt") }),
        Reply::Rejected { error: LogError::NotFound }
    );
    assert_eq!(
        state.handle(Event::Completion { id: 0, status: ActionStatus::Running }),
        Reply::Rejected { error: LogError::InvalidTransition }
    );
    assert_eq!(
        state.handle(Event::Completion { id: 3, status: ActionStatus::Failed }),
        Reply::Rejected { error: LogError::NotFound }
    );
    assert_eq!(
        state.handle(Event::Completion { id: 0, status: ActionStatus::Failed }),
        Reply::Recorded
    );
    assert_eq!(
        state.handle(Event::Completion { id: 0, status: ActionStatus::Failed }),
        Reply::Rejected { error: LogError::InvalidTransition }
    );
    let snap = state.snapshot();
    assert_eq!(snap.get(0).unwrap().output(), strings(&["a.txt"]));
    assert_eq!(snap.get(0).unwrap().status(), ActionStatus::Failed);
}

#[test]
fn handle_other_changes_nothing() {
    let mut state = AppState::new();
    state.set_input(text("pending"));
    assert_eq!(state.handle(Event::Other), Reply::PassedOn);
    assert_eq!(state.input().as_str(), "pending");
    assert_eq!(state.snapshot().len(), 0);
}

#[test]
fn reports_leave_the_input_alone() {
    let mut state = AppState::new();
    state.set_input(text("one"));
    state.submit_input().unwrap();
    state.set_input(text("two"));
    state.report_output(0, text("out")).unwrap();
    state.report_completion(0, ActionStatus::Success).unwrap();
    assert_eq!(state.report_output(5, text("x")), Err(LogError::NotFound));
    assert_eq!(state.input().as_str(), "two");
}

#[test]
fn status_history_has_at_most_one_change() {
    let mut state = AppState::new();
    state.set_input(text("job"));
    let id = state.submit_input().unwrap();
    let mut seen = vec![statuses(&state)[id]];
    let events = vec![
        Event::Output { id, line: text("1") },
        Event::Completion { id, status: ActionStatus::Running },
        Event::Other,
        Event::Completion { id, status: ActionStatus::Success },
        Event::Output { id, line: text("2") },
        Event::Completion { id, status: ActionStatus::Failed },
        Event::Completion { id, status: ActionStatus::Success },
        Event::Submit,
    ];
    for e in events {
        state.handle(e);
        let now = statuses(&state)[id];
        if *seen.last().unwrap() != now {
            seen.push(now);
        }
    }
    assert_eq!(seen, vec![ActionStatus::Running, ActionStatus::Success]);
}

#[test]
fn submission_and_completion_in_either_order() {
    let build = || {
        let mut s = AppState::new();
        s.set_input(text("first"));
        s.submit_input().unwrap();
        s.set_input(text("second"));
        s
    };
    let completion = || Event::Completion { id: 0, status: ActionStatus::Failed };

    let mut a = build();
    let a1 = a.handle(Event::Submit);
    let a2 = a.handle(completion());

    let mut b = build();
    let b2 = b.handle(completion());
    let b1 = b.handle(Event::Submit);

    assert_eq!(a1, Reply::Submitted { id: 1 });
    assert_eq!(a1, b1);
    assert_eq!(a2, Reply::Recorded);
    assert_eq!(a2, b2);
    assert_eq!(a.snapshot().len(), 2);
    assert_eq!(b.snapshot().len(), 2);
    assert_eq!(statuses(&a), vec![ActionStatus::Failed, ActionStatus::Running]);
    assert_eq!(statuses(&a), statuses(&b));
    assert_eq!(a.input().as_str(), b.input().as_str());
}

#[test]
fn interleaved_submissions_and_completions_stay_consistent() {
    let mut state = AppState::new();
    for i in 0..50 {
        state.set_input(format!("seed {}", i));
        state.submit_input().unwrap();
    }
    let mut accepted = 0;
    for i in 0..50 {
        state.set_input(format!("typed {}", i));
        assert_eq!(state.handle(Event::Submit), Reply::Submitted { id: 50 + i });
        let done = Event::Completion { id: i, status: ActionStatus::Success };
        if state.handle(done) == Reply::Recorded {
            accepted += 1;
        }
    }
    let all = statuses(&state);
    assert_eq!(accepted, 50);
    assert_eq!(all.len(), 100);
    assert!(all[..50].iter().all(|st| *st == ActionStatus::Success));
    assert!(all[50..].iter().all(|st| *st == ActionStatus::Running));
}

fn needs_send_and_sync<T: Send + Sync>() {}

#[test]
fn state_can_be_shared_between_threads() {
    needs_send_and_sync::<AppState>();
    needs_send_and_sync::<action_log::Snapshot>();
    needs_send_and_sync::<action_log::Action>();
}
