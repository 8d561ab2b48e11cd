use vstd::prelude::*;
use crate::window::{Notification, Op};

verus! {

/// A command that the window's content layer can invoke.
#[derive(PartialEq, Eq, Structural, Clone, Copy, Debug)]
pub enum Command {
    /// Hide the window it was invoked from.
    HideWindow,
    /// Show and focus the main window.
    ShowWindow,
    /// Begin dragging the window it was invoked from.
    StartDrag,
    /// Record that the first run is complete.
    MarkInstalled,
}

/// What a command hands back to its caller, and the notification it emits.
#[derive(Debug)]
pub struct CommandOutcome {
    pub result: Result<(), String>,
    pub notify: Option<Notification>,
}

/// The next thing to do while running a command.
#[derive(Debug)]
pub enum Step {
    /// Carry out this operation and report its result.
    Perform(Op),
    /// The command is over.
    Finish(CommandOutcome),
}

/// The operations of a command, in order. The first failure ends it.
pub open spec fn command_ops(c: Command) -> Seq<Op> {
    match c {
        Command::HideWindow => seq![Op::Hide],
        Command::ShowWindow => seq![Op::LookupMain, Op::Show, Op::Focus],
        Command::StartDrag => seq![Op::StartDrag],
        Command::MarkInstalled => seq![Op::CreateDataDir, Op::WriteMarker],
    }
}

/// The notification a command emits once all its operations succeeded.
pub open spec fn command_notify(c: Command) -> Option<Notification> {
    match c {
        Command::HideWindow => Some(Notification::WindowHidden),
        Command::ShowWindow => Some(Notification::WindowShown),
        _ => None,
    }
}

/// The error a command returns when `op` fails with message `e`.
pub open spec fn failure_text(op: Op, e: Seq<char>) -> Seq<char> {
    match op {
        Op::LookupMain => "Window not found"@,
        Op::MoveTopRight => "Failed to move window: "@ + e,
        Op::Show => "Failed to show window: "@ + e,
        Op::Focus => "Failed to focus window: "@ + e,
        Op::Hide => "Failed to hide window: "@ + e,
        Op::StartDrag => "Failed to start drag: "@ + e,
        Op::CreateDataDir => e,
        Op::WriteMarker => e,
    }
}

/// The least index below `n` at which `done` holds a failure.
pub open spec fn first_failure(done: Seq<Result<(), String>>, n: nat) -> Option<nat>
    decreases n,
{
    if n == 0 {
        None
    } else {
        match first_failure(done, (n - 1) as nat) {
            Some(i) => Some(i),
            None => if n - 1 < done.len() && done[n - 1] is Err {
                Some((n - 1) as nat)
            } else {
                None
            },
        }
    }
}

proof fn lemma_first_failure_bound(done: Seq<Result<(), String>>, n: nat)
    ensures
        first_failure(done, n) matches Some(i) ==> i < n && i < done.len() && done[i as int] is Err,
        first_failure(done, n) is None ==> forall|j: int| 0 <= j < n && j < done.len() ==> done[j] is Ok,
    decreases n,
{
    if n > 0 {
        lemma_first_failure_bound(done, (n - 1) as nat);
    }
}

impl Command {
    /// The operations of this command, in order.
    pub fn ops(&self) -> (r: Vec<Op>)
        ensures
            r@ == command_ops(*self),
    {
        let r = match self {
            Command::HideWindow => vec![Op::Hide],
            Command::ShowWindow => vec![Op::LookupMain, Op::Show, Op::Focus],
            Command::StartDrag => vec![Op::StartDrag],
            Command::MarkInstalled => vec![Op::CreateDataDir, Op::WriteMarker],
        };
        assert(r@ =~= command_ops(*self));
        r
    }

    /// Decides what happens next, given the results of the operations
    /// carried out so far (`done[i]` is the result of the `i`-th operation).
    /// The first failure ends the command with its error and no
    /// notification; once every operation succeeded the command returns
    /// `Ok` and emits its notification. Nothing here depends on the window's
    /// current visibility: hiding a hidden window succeeds and notifies.
    pub fn next_step(&self, done: &Vec<Result<(), String>>) -> (r: Step)
        ensures
            ({
                let ops = command_ops(*self);
                match first_failure(done@, ops.len()) {
                    Some(i) => r matches Step::Finish(o) && o.notify is None && o.result is Err
                        && o.result->Err_0@ == failure_text(ops[i as int], done@[i as int]->Err_0@),
                    None => if done@.len() < ops.len() {
                        r == Step::Perform(ops[done@.len() as int])
                    } else {
                        r matches Step::Finish(o) && o.result is Ok && o.notify == command_notify(*self)
                    },
                }
            }),
    {
        let ops = self.ops();
        let mut i: usize = 0;
        while i < ops.len() && i < done.len()
            invariant
                ops@ == command_ops(*self),
                i <= ops@.len(),
                i <= done@.len(),
                first_failure(done@, i as nat) is None,
            decreases ops.len() - i,
        {
            match &done[i] {
                Err(e) => {
                    let op = ops[i];
                    assert(first_failure(done@, (i + 1) as nat) == Some(i as nat));
                    proof {
                        lemma_first_failure_none_beyond(done@, (i + 1) as nat, ops@.len());
                    }
                    return Step::Finish(CommandOutcome { result: Err(failure_message(op, e)), notify: None });
                },
                Ok(()) => {},
            }
            i = i + 1;
        }
        proof {
            lemma_first_failure_none_beyond(done@, i as nat, ops@.len());
        }
        if i < ops.len() {
            Step::Perform(ops[i])
        } else {
            let notify = match self {
                Command::HideWindow => Some(Notification::WindowHidden),
                Command::ShowWindow => Some(Notification::WindowShown),
                _ => None,
            };
            Step::Finish(CommandOutcome { result: Ok(()), notify })
        }
    }
}

proof fn lemma_first_failure_none_beyond(done: Seq<Result<(), String>>, n: nat, m: nat)
    requires
        n <= m,
        first_failure(done, n) is Some || done.len() <= n || n == m,
    ensures
        first_failure(done, m) == first_failure(done, n),
    decreases m - n,
{
    if m > n {
        lemma_first_failure_none_beyond(done, n, (m - 1) as nat);
    }
}

/// The error text of a failed operation.
fn failure_message(op: Op, e: &String) -> (r: String)
    ensures
        r@ == failure_text(op, e@),
{
    let prefix = match op {
        Op::LookupMain => {
            return String::from_str("Window not found");
        },
        Op::MoveTopRight => "Failed to move window: ",
        Op::Show => "Failed to show window: ",
        Op::Focus => "Failed to focus window: ",
        Op::Hide => "Failed to hide window: ",
        Op::StartDrag => "Failed to start drag: ",
        Op::CreateDataDir => "",
        Op::WriteMarker => "",
    };
    let mut r = String::from_str(prefix);
    r.append(e.as_str());
    proof {
        if op == Op::CreateDataDir || op == Op::WriteMarker {
            reveal_strlit("");
            assert(r@ =~= e@);
        }
    }
    r
}

} // verus!
