//! Decision logic of a tray-resident desktop widget: what the shell does on a
//! tray click, a tray menu selection, a command from the window's content, at
//! startup and on an exit request. Each call into the host windowing toolkit
//! or the file system is described here as an operation that the caller
//! carries out; its outcome comes back as a plain value.
mod window;
mod tray;
mod commands;
mod first_run;
mod lifecycle;

pub use window::{Visibility, Notification, Op, flip, after_op, after_ops, notification_name, main_window_label};
pub use tray::{
    MouseButton, ButtonState, TrayEvent, MenuCommand, Reaction, menu_id, menu_command_of, menu_ops,
    menu_notify, toggle_ops, toggle_notify, is_toggle, after_tray_event, after_tray_events,
    decode_menu_id, on_menu_event, is_toggle_click, visibility_from, on_toggle_click,
    lemma_toggle_flips, lemma_clicks_alternate,
};
pub use commands::{Command, CommandOutcome, Step, command_ops, command_notify, failure_text, first_failure};
pub use first_run::{
    marker_file_name, marker_contents, fallback_data_dir, is_first_run, mark_succeeded, marker_written,
    marker_exists_after, lemma_first_run_until_marked, lemma_success_writes,
};
pub use lifecycle::{StartupPlan, startup_ops, startup, mark_delay_secs, keep_running};
