use vstd::prelude::*;
use crate::window::Op;
use crate::commands::{Command, command_ops, first_failure};

verus! {

/// The name of the marker file inside the application data directory.
pub fn marker_file_name() -> (r: &'static str)
    ensures
        r@ == "first_run_complete"@,
{
    "first_run_complete"
}

/// What the marker file holds.
pub fn marker_contents() -> (r: &'static str)
    ensures
        r@ == "completed"@,
{
    "completed"
}

/// The directory used when the application data directory cannot be
/// resolved: the current directory.
pub fn fallback_data_dir() -> (r: &'static str)
    ensures
        r@ == "."@,
{
    "."
}

/// The application runs for the first time exactly when the marker file is
/// absent.
pub fn is_first_run(marker_exists: bool) -> (r: bool)
    ensures
        r == !marker_exists,
{
    !marker_exists
}

/// Marking the first run complete succeeded: every operation of
/// `Command::MarkInstalled` was carried out without failure, which is when
/// `next_step` finishes it with `Ok`.
pub open spec fn mark_succeeded(done: Seq<Result<(), String>>) -> bool {
    let n = command_ops(Command::MarkInstalled).len();
    first_failure(done, n) is None && done.len() >= n
}

/// An attempt at marking wrote the marker file: its write operation was
/// carried out and succeeded.
pub open spec fn marker_written(done: Seq<Result<(), String>>) -> bool {
    exists|i: int|
        0 <= i < done.len() && i < command_ops(Command::MarkInstalled).len()
            && command_ops(Command::MarkInstalled)[i] == Op::WriteMarker && #[trigger] done[i] is Ok
}

/// Whether the marker file exists after a series of marking attempts (the
/// results of each attempt's operations), starting from `initial`. The
/// marker is never deleted.
pub open spec fn marker_exists_after(initial: bool, attempts: Seq<Seq<Result<(), String>>>) -> bool
    decreases attempts.len(),
{
    if attempts.len() == 0 {
        initial
    } else {
        marker_exists_after(initial, attempts.drop_last()) || marker_written(attempts.last())
    }
}

proof fn lemma_marker_kept(initial: bool, attempts: Seq<Seq<Result<(), String>>>, j: int)
    requires
        0 <= j < attempts.len(),
        marker_written(attempts[j]),
    ensures
        marker_exists_after(initial, attempts),
    decreases attempts.len(),
{
    if j < attempts.len() - 1 {
        let prev = attempts.drop_last();
        assert(prev[j] == attempts[j]);
        lemma_marker_kept(initial, prev, j);
    }
}

proof fn lemma_marker_absent(attempts: Seq<Seq<Result<(), String>>>)
    requires
        forall|i: int| 0 <= i < attempts.len() ==> !marker_written(#[trigger] attempts[i]),
    ensures
        !marker_exists_after(false, attempts),
    decreases attempts.len(),
{
    if attempts.len() > 0 {
        let prev = attempts.drop_last();
        assert forall|i: int| 0 <= i < prev.len() implies !marker_written(#[trigger] prev[i]) by {
            assert(prev[i] == attempts[i]);
        }
        lemma_marker_absent(prev);
        assert(!marker_written(attempts[attempts.len() - 1]));
    }
}

/// Before any marker file exists the application is on its first run; once
/// marking has succeeded, every later check finds it is not, however many
/// more times marking is attempted, and whatever those attempts return.
pub proof fn lemma_first_run_until_marked(attempts: Seq<Seq<Result<(), String>>>)
    ensures
        (forall|i: int| 0 <= i < attempts.len() ==> !marker_written(#[trigger] attempts[i]))
            ==> !marker_exists_after(false, attempts),
        forall|j: int, k: int|
            0 <= j < k <= attempts.len() && mark_succeeded(#[trigger] attempts[j]) ==>
                marker_exists_after(false, #[trigger] attempts.take(k)),
{
    if forall|i: int| 0 <= i < attempts.len() ==> !marker_written(#[trigger] attempts[i]) {
        lemma_marker_absent(attempts);
    }
    assert forall|j: int, k: int|
        0 <= j < k <= attempts.len() && mark_succeeded(#[trigger] attempts[j]) implies
            marker_exists_after(false, #[trigger] attempts.take(k)) by {
        let t = attempts.take(k);
        assert(t[j] == attempts[j]);
        lemma_success_writes(attempts[j]);
        lemma_marker_kept(false, t, j);
    }
}

/// A successful marking wrote the marker file.
pub proof fn lemma_success_writes(done: Seq<Result<(), String>>)
    requires
        mark_succeeded(done),
    ensures
        marker_written(done),
{
    let ops = command_ops(Command::MarkInstalled);
    assert(ops[1] == Op::WriteMarker);
    reveal_with_fuel(first_failure, 3);
    assert(done[1] is Ok);
}

} // verus!
