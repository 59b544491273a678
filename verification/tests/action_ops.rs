use action_log::{Action, ActionStatus, LogError};

fn text(s: &str) -> String {
    String::from(s)
}

fn strings(lines: &[&str]) -> Vec<String> {
    lines.iter().map(|l| String::from(*l)).collect()
}

#[test]
fn status_terminality() {
    assert!(!ActionStatus::Running.is_terminal());
    assert!(ActionStatus::Failed.is_terminal());
    assert!(ActionStatus::Success.is_terminal());
}

#[test]
fn new_action_with_empty_command() {
    let a = Action::new(String::new());
    assert_eq!(a.command().as_str(), "");
    assert_eq!(a.status(), ActionStatus::Running);
    assert_eq!(a.output(), Vec::<String>::new());
}

#[test]
fn push_output_grows_output_only() {
    let mut a = Action::new(text("cat f"));
    a.push_output(text("one"));
    assert_eq!(a.output_len(), 1);
    a.push_output(text("two"));
    a.push_output(text(""));
    assert_eq!(a.output_len(), 3);
    assert_eq!(a.output(), strings(&["one", "two", ""]));
    assert_eq!(a.output_line(0).unwrap().as_str(), "one");
    assert_eq!(a.output_line(1).unwrap().as_str(), "two");
    assert_eq!(a.output_line(2).unwrap().as_str(), "");
    assert!(a.output_line(3).is_none());
    assert_eq!(a.command().as_str(), "cat f");
    assert_eq!(a.status(), ActionStatus::Running);
}

#[test]
fn settle_once_then_never_again() {
    let mut a = Action::new(text("x"));
    assert_eq!(a.settle(ActionStatus::Running), Err(LogError::InvalidTransition));
    assert_eq!(a.status(), ActionStatus::Running);
    assert_eq!(a.settle(ActionStatus::Failed), Ok(()));
    assert_eq!(a.status(), ActionStatus::Failed);
    assert_eq!(a.settle(ActionStatus::Success), Err(LogError::InvalidTransition));
    assert_eq!(a.settle(ActionStatus::Failed), Err(LogError::InvalidTransition));
    assert_eq!(a.settle(ActionStatus::Running), Err(LogError::InvalidTransition));
    assert_eq!(a.status(), ActionStatus::Failed);
}

#[test]
fn settle_keeps_command_and_output() {
    let mut a = Action::new(text("x"));
    a.push_output(text("l"));
    a.settle(ActionStatus::Success).unwrap();
    assert_eq!(a.command().as_str(), "x");
    assert_eq!(a.output(), strings(&["l"]));
}

#[test]
fn recorded_action_holds_what_it_was_given() {
    let lines = strings(&["a", "b", "a", "c"]);
    let a = Action::recorded(text("history"), &lines, ActionStatus::Success);
    assert_eq!(a.command().as_str(), "history");
    assert_eq!(a.output(), lines);
    assert_eq!(a.status(), ActionStatus::Success);

    let b = Action::recorded(text("idle"), &Vec::new(), ActionStatus::Running);
    assert_eq!(b.output_len(), 0);
    assert_eq!(b.status(), ActionStatus::Running);
}

#[test]
fn clone_is_equal_and_independent() {
    let mut a = Action::new(text("x"));
    a.push_output(text("1"));
    let b = a.clone();
    a.push_output(text("2"));
    a.settle(ActionStatus::Failed).unwrap();

    assert_eq!(b.command().as_str(), "x");
    assert_eq!(b.output(), strings(&["1"]));
    assert_eq!(b.status(), ActionStatus::Running);
    assert_eq!(a.output(), strings(&["1", "2"]));
    assert_eq!(a.status(), ActionStatus::Failed);
}

#[test]
fn long_output_keeps_order() {
    let mut a = Action::new(text("seq 300"));
    let mut expected = Vec::new();
    for i in 0..300 {
        a.push_output(format!("{}", i));
        expected.push(format!("{}", i));
    }
    assert_eq!(a.output_len(), 300);
    assert_eq!(a.output(), expected);
    assert_eq!(a.output_line(299).unwrap().as_str(), "299");
}
