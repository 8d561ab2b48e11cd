use vstd::prelude::*;
use crate::window::Op;

verus! {

/// What the shell does once it has started.
#[derive(Debug)]
pub struct StartupPlan {
    /// Operations on the main window; their failures are ignored.
    pub ops: Vec<Op>,
    /// Whether to mark the first run complete after the grace delay.
    pub schedule_mark: bool,
}

pub open spec fn startup_ops(window_found: bool) -> Seq<Op> {
    if window_found {
        seq![Op::Show, Op::Focus]
    } else {
        seq![]
    }
}

/// At startup the main window, when it exists, is shown and focused
/// whatever the first-run state; on a first run with the window present,
/// marking the first run complete is scheduled.
pub fn startup(window_found: bool, first_run: bool) -> (r: StartupPlan)
    ensures
        r.ops@ == startup_ops(window_found),
        r.schedule_mark == (window_found && first_run),
{
    let ops = if window_found {
        vec![Op::Show, Op::Focus]
    } else {
        Vec::new()
    };
    assert(ops@ =~= startup_ops(window_found));
    StartupPlan { ops, schedule_mark: window_found && first_run }
}

/// Seconds to wait after startup before marking the first run complete.
pub fn mark_delay_secs() -> (r: u64)
    ensures
        r == 5,
{
    5
}

/// Whether an exit request is turned down so that the process keeps
/// running in the background. A request without an explicit code (the
/// last window was closed) is turned down; an explicit exit goes ahead.
pub fn keep_running(code: Option<i32>) -> (r: bool)
    ensures
        r == (code is None),
{
    code.is_none()
}

} // verus!
