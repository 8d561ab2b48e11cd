use vstd::prelude::*;

verus! {

/// Whether the main window is currently shown.
#[derive(PartialEq, Eq, Structural, Clone, Copy, Debug)]
pub enum Visibility {
    Hidden,
    Visible,
}

/// A one-way message sent to the window's content layer.
#[derive(PartialEq, Eq, Structural, Clone, Copy, Debug)]
pub enum Notification {
    WindowHidden,
    WindowShown,
}

/// One call that the shell makes on the host toolkit or on the file system.
/// Each may fail; the caller reports back how it went.
#[derive(PartialEq, Eq, Structural, Clone, Copy, Debug)]
pub enum Op {
    /// Find the window labelled `main`.
    LookupMain,
    /// Move the window to the top-right corner of the screen.
    MoveTopRight,
    Show,
    Focus,
    Hide,
    /// Begin an interactive drag of the window from the pointer's position.
    StartDrag,
    /// Create the application data directory and its parents.
    CreateDataDir,
    /// Write the first-run marker file.
    WriteMarker,
}

pub open spec fn flip(v: Visibility) -> Visibility {
    match v {
        Visibility::Hidden => Visibility::Visible,
        Visibility::Visible => Visibility::Hidden,
    }
}

/// The window's visibility once `op` has been carried out successfully.
pub open spec fn after_op(v: Visibility, op: Op) -> Visibility {
    match op {
        Op::Show => Visibility::Visible,
        Op::Hide => Visibility::Hidden,
        _ => v,
    }
}

/// The window's visibility once all of `ops` have been carried out, in order.
pub open spec fn after_ops(v: Visibility, ops: Seq<Op>) -> Visibility
    decreases ops.len(),
{
    if ops.len() == 0 {
        v
    } else {
        after_op(after_ops(v, ops.drop_last()), ops.last())
    }
}

pub open spec fn notification_name(n: Notification) -> Seq<char> {
    match n {
        Notification::WindowHidden => "window-hidden"@,
        Notification::WindowShown => "window-shown"@,
    }
}

impl Notification {
    /// The event name under which the content layer receives this notification.
    pub fn event_name(&self) -> (r: &'static str)
        ensures
            r@ == notification_name(*self),
    {
        match self {
            Notification::WindowHidden => "window-hidden",
            Notification::WindowShown => "window-shown",
        }
    }
}

/// The label of the one window that the shell manages.
pub fn main_window_label() -> (r: &'static str)
    ensures
        r@ == "main"@,
{
    "main"
}

} // verus!
