use desktop_shell::show_window::{focus_failure_message, show_failure_message, Action, Stage};

/// Drives a run of the command against scripted outcomes, as the host does,
/// and returns the reply with the calls that were asked for.
fn drive(shown: Result<(), String>, focused: Result<(), String>) -> (Result<(), String>, Vec<&'static str>) {
    let mut calls = Vec::new();
    let mut shown = Some(shown);
    let mut focused = Some(focused);
    let (mut stage, mut action) = Stage::begin();
    loop {
        let outcome = match action {
            Action::Show => {
                calls.push("show");
                shown.take().expect("show asked for twice")
            }
            Action::SetFocus => {
                calls.push("set_focus");
                focused.take().expect("focus asked for twice")
            }
            Action::Reply(reply) => return (reply, calls),
        };
        let next = stage.step(outcome);
        stage = next.0;
        action = next.1;
    }
}

#[test]
fn begin_asks_to_show() {
    let (stage, action) = Stage::begin();
    assert_eq!(stage, Stage::Showing);
    assert_eq!(action, Action::Show);
}

#[test]
fn show_then_focus_succeeds() {
    let (reply, calls) = drive(Ok(()), Ok(()));
    assert_eq!(reply, Ok(()));
    assert_eq!(calls, vec!["show", "set_focus"]);
}

#[test]
fn show_failure_skips_focus() {
    let (reply, calls) = drive(Err("window was destroyed".to_string()), Ok(()));
    assert_eq!(reply, Err("Failed to show window: window was destroyed".to_string()));
    assert_eq!(calls, vec!["show"]);
    let text = reply.unwrap_err();
    assert!(text.contains("Failed to show window"));
    assert!(text.contains("window was destroyed"));
}

#[test]
fn focus_failure_after_show() {
    let (reply, calls) = drive(Ok(()), Err("no focus allowed".to_string()));
    assert_eq!(reply, Err("Failed to set focus: no focus allowed".to_string()));
    assert_eq!(calls, vec!["show", "set_focus"]);
    let text = reply.unwrap_err();
    assert!(text.contains("Failed to set focus"));
    assert!(text.contains("no focus allowed"));
}

#[test]
fn step_from_showing() {
    assert_eq!(Stage::Showing.step(Ok(())), (Stage::Focusing, Action::SetFocus));
    assert_eq!(
        Stage::Showing.step(Err("e".to_string())),
        (Stage::Finished, Action::Reply(Err("Failed to show window: e".to_string())))
    );
}

#[test]
fn step_from_focusing() {
    assert_eq!(Stage::Focusing.step(Ok(())), (Stage::Finished, Action::Reply(Ok(()))));
    assert_eq!(
        Stage::Focusing.step(Err("e".to_string())),
        (Stage::Finished, Action::Reply(Err("Failed to set focus: e".to_string())))
    );
}

#[test]
fn messages_embed_cause() {
    assert_eq!(show_failure_message("gone"), "Failed to show window: gone");
    assert_eq!(focus_failure_message("gone"), "Failed to set focus: gone");
}

#[test]
fn messages_with_empty_cause() {
    assert_eq!(show_failure_message(""), "Failed to show window: ");
    assert_eq!(focus_failure_message(""), "Failed to set focus: ");
}

#[test]
fn messages_keep_non_ascii_cause() {
    assert_eq!(show_failure_message("fenêtre: «fermée»"), "Failed to show window: fenêtre: «fermée»");
}
