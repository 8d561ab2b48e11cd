use tray_widget::Visibility::{Hidden, Visible};
use tray_widget::{
    decode_menu_id, fallback_data_dir, is_first_run, is_toggle_click, keep_running, main_window_label,
    mark_delay_secs, marker_contents, marker_file_name, on_menu_event, on_toggle_click, startup,
    visibility_from, ButtonState, Command, CommandOutcome, MenuCommand, MouseButton, Notification, Op,
    Step, TrayEvent, Visibility,
};

/// Runs a command, feeding it the given results for its operations in turn.
fn run(cmd: Command, results: Vec<Result<(), String>>) -> (Vec<Op>, CommandOutcome) {
    let mut done: Vec<Result<(), String>> = Vec::new();
    let mut performed = Vec::new();
    let mut feed = results.into_iter();
    loop {
        match cmd.next_step(&done) {
            Step::Perform(op) => {
                performed.push(op);
                done.push(feed.next().expect("no result left for an operation"));
            }
            Step::Finish(o) => return (performed, o),
        }
    }
}

fn apply(v: Visibility, ops: &[Op]) -> Visibility {
    let mut v = v;
    for op in ops {
        match op {
            Op::Show => v = Visibility::Visible,
            Op::Hide => v = Visibility::Hidden,
            _ => {}
        }
    }
    v
}

fn left_up() -> TrayEvent {
    TrayEvent::Click { button: MouseButton::Left, state: ButtonState::Up }
}

#[test]
fn left_clicks_toggle_alternately_from_hidden() {
    let mut v = Visibility::Hidden;
    let mut seen = Vec::new();
    for _ in 0..5 {
        assert!(is_toggle_click(left_up()));
        let r = on_toggle_click(v);
        v = apply(v, &r.ops);
        seen.push(v);
    }
    assert_eq!(seen, vec![Visible, Hidden, Visible, Hidden, Visible]);
}

#[test]
fn left_clicks_toggle_alternately_from_visible() {
    let mut v = Visibility::Visible;
    let mut seen = Vec::new();
    for _ in 0..4 {
        let r = on_toggle_click(v);
        v = apply(v, &r.ops);
        seen.push(v);
    }
    assert_eq!(seen, vec![Hidden, Visible, Hidden, Visible]);
}

#[test]
fn toggle_click_reactions() {
    let hide = on_toggle_click(Visibility::Visible);
    assert_eq!(hide.ops, vec![Op::Hide]);
    assert_eq!(hide.notify, Some(Notification::WindowHidden));
    assert_eq!(hide.exit_code, None);
    let show = on_toggle_click(Visibility::Hidden);
    assert_eq!(show.ops, vec![Op::MoveTopRight, Op::Show, Op::Focus]);
    assert_eq!(show.notify, Some(Notification::WindowShown));
    assert_eq!(show.exit_code, None);
}

#[test]
fn only_left_release_toggles() {
    assert!(is_toggle_click(left_up()));
    assert!(!is_toggle_click(TrayEvent::Click { button: MouseButton::Left, state: ButtonState::Down }));
    assert!(!is_toggle_click(TrayEvent::Click { button: MouseButton::Right, state: ButtonState::Up }));
    assert!(!is_toggle_click(TrayEvent::Click { button: MouseButton::Middle, state: ButtonState::Up }));
    assert!(!is_toggle_click(TrayEvent::DoubleClick { button: MouseButton::Left }));
    assert!(!is_toggle_click(TrayEvent::Enter));
    assert!(!is_toggle_click(TrayEvent::Move));
    assert!(!is_toggle_click(TrayEvent::Leave));
}

#[test]
fn failed_visibility_read_counts_as_hidden() {
    assert_eq!(visibility_from(Some(true)), Visibility::Visible);
    assert_eq!(visibility_from(Some(false)), Visibility::Hidden);
    assert_eq!(visibility_from(None), Visibility::Hidden);
}

#[test]
fn first_run_until_marker_written() {
    assert!(is_first_run(false));
    let (ops, o) = run(Command::MarkInstalled, vec![Ok(()), Ok(())]);
    assert_eq!(ops, vec![Op::CreateDataDir, Op::WriteMarker]);
    assert_eq!(o.result, Ok(()));
    assert_eq!(o.notify, None);
    assert!(!is_first_run(true));
    let (_, again) = run(Command::MarkInstalled, vec![Ok(()), Ok(())]);
    assert_eq!(again.result, Ok(()));
    assert!(!is_first_run(true));
}

#[test]
fn mark_installed_reports_io_errors_unchanged() {
    let (ops, o) = run(Command::MarkInstalled, vec![Err("Permission denied (os error 13)".to_string())]);
    assert_eq!(ops, vec![Op::CreateDataDir]);
    assert_eq!(o.result, Err("Permission denied (os error 13)".to_string()));
    let (ops, o) = run(Command::MarkInstalled, vec![Ok(()), Err("disk full".to_string())]);
    assert_eq!(ops, vec![Op::CreateDataDir, Op::WriteMarker]);
    assert_eq!(o.result, Err("disk full".to_string()));
    assert_eq!(o.notify, None);
}

#[test]
fn hide_window_when_hidden_still_succeeds_and_notifies() {
    // The hide call on an already hidden window succeeds; the command does
    // not look at the current state.
    let (ops, o) = run(Command::HideWindow, vec![Ok(())]);
    assert_eq!(ops, vec![Op::Hide]);
    assert_eq!(o.result, Ok(()));
    assert_eq!(o.notify, Some(Notification::WindowHidden));
    assert_eq!(o.notify.unwrap().event_name(), "window-hidden");
}

#[test]
fn hide_window_failure() {
    let (_, o) = run(Command::HideWindow, vec![Err("no display".to_string())]);
    assert_eq!(o.result, Err("Failed to hide window: no display".to_string()));
    assert_eq!(o.notify, None);
}

#[test]
fn show_window_without_main_window() {
    let (ops, o) = run(Command::ShowWindow, vec![Err(String::new())]);
    assert_eq!(ops, vec![Op::LookupMain]);
    assert!(o.result.clone().unwrap_err().contains("Window not found"));
    assert_eq!(o.result, Err("Window not found".to_string()));
    assert_eq!(o.notify, None);
}

#[test]
fn show_window_success() {
    let (ops, o) = run(Command::ShowWindow, vec![Ok(()), Ok(()), Ok(())]);
    assert_eq!(ops, vec![Op::LookupMain, Op::Show, Op::Focus]);
    assert_eq!(o.result, Ok(()));
    assert_eq!(o.notify, Some(Notification::WindowShown));
    assert_eq!(o.notify.unwrap().event_name(), "window-shown");
}

#[test]
fn show_window_failures() {
    let (ops, o) = run(Command::ShowWindow, vec![Ok(()), Err("gone".to_string())]);
    assert_eq!(ops, vec![Op::LookupMain, Op::Show]);
    assert_eq!(o.result, Err("Failed to show window: gone".to_string()));
    assert_eq!(o.notify, None);
    let (ops, o) = run(Command::ShowWindow, vec![Ok(()), Ok(()), Err("denied".to_string())]);
    assert_eq!(ops, vec![Op::LookupMain, Op::Show, Op::Focus]);
    assert_eq!(o.result, Err("Failed to focus window: denied".to_string()));
    assert_eq!(o.notify, None);
}

#[test]
fn start_drag_outcomes() {
    let (ops, o) = run(Command::StartDrag, vec![Ok(())]);
    assert_eq!(ops, vec![Op::StartDrag]);
    assert_eq!(o.result, Ok(()));
    assert_eq!(o.notify, None);
    let (_, o) = run(Command::StartDrag, vec![Err("no pointer".to_string())]);
    assert_eq!(o.result, Err("Failed to start drag: no pointer".to_string()));
}

#[test]
fn command_ops_listed() {
    assert_eq!(Command::HideWindow.ops(), vec![Op::Hide]);
    assert_eq!(Command::ShowWindow.ops(), vec![Op::LookupMain, Op::Show, Op::Focus]);
    assert_eq!(Command::StartDrag.ops(), vec![Op::StartDrag]);
    assert_eq!(Command::MarkInstalled.ops(), vec![Op::CreateDataDir, Op::WriteMarker]);
}

#[test]
fn quit_exits_with_zero_whatever_the_window() {
    for found in [true, false] {
        let r = on_menu_event("quit", found);
        assert_eq!(r.exit_code, Some(0));
        assert!(r.ops.is_empty());
        assert_eq!(r.notify, None);
    }
}

#[test]
fn menu_show_and_hide() {
    let r = on_menu_event("show", true);
    assert_eq!(r.ops, vec![Op::Show, Op::Focus]);
    assert_eq!(r.notify, Some(Notification::WindowShown));
    assert_eq!(r.exit_code, None);
    let r = on_menu_event("hide", true);
    assert_eq!(r.ops, vec![Op::Hide]);
    assert_eq!(r.notify, Some(Notification::WindowHidden));
    let r = on_menu_event("show", false);
    assert!(r.ops.is_empty());
    assert_eq!(r.notify, None);
}

#[test]
fn unknown_menu_id_is_ignored() {
    let r = on_menu_event("settings", true);
    assert!(r.ops.is_empty());
    assert_eq!(r.notify, None);
    assert_eq!(r.exit_code, None);
    assert_eq!(decode_menu_id(""), None);
    assert_eq!(decode_menu_id("Show"), None);
    assert_eq!(decode_menu_id("shows"), None);
}

#[test]
fn menu_ids_decode_back() {
    for c in [MenuCommand::Show, MenuCommand::Hide, MenuCommand::Quit] {
        assert_eq!(decode_menu_id(c.id()), Some(c));
    }
    assert_eq!(MenuCommand::Quit.id(), "quit");
}

#[test]
fn exit_request_without_code_keeps_running() {
    assert!(keep_running(None));
    assert!(!keep_running(Some(0)));
    assert!(!keep_running(Some(1)));
}

#[test]
fn startup_shows_window_and_schedules_mark_on_first_run() {
    let p = startup(true, true);
    assert_eq!(p.ops, vec![Op::Show, Op::Focus]);
    assert!(p.schedule_mark);
    let p = startup(true, false);
    assert_eq!(p.ops, vec![Op::Show, Op::Focus]);
    assert!(!p.schedule_mark);
    let p = startup(false, true);
    assert!(p.ops.is_empty());
    assert!(!p.schedule_mark);
    assert_eq!(mark_delay_secs(), 5);
}

#[test]
fn fixed_names() {
    assert_eq!(marker_file_name(), "first_run_complete");
    assert_eq!(marker_contents(), "completed");
    assert_eq!(fallback_data_dir(), ".");
    assert_eq!(main_window_label(), "main");
}
