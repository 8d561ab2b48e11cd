use vstd::prelude::*;
use crate::window::{Visibility, Notification, Op, flip, after_op, after_ops};

verus! {

#[derive(PartialEq, Eq, Structural, Clone, Copy, Debug)]
pub enum MouseButton {
    Left,
    Right,
    Middle,
}

#[derive(PartialEq, Eq, Structural, Clone, Copy, Debug)]
pub enum ButtonState {
    Up,
    Down,
}

/// An event on the tray icon.
#[derive(PartialEq, Eq, Structural, Clone, Copy, Debug)]
pub enum TrayEvent {
    Click { button: MouseButton, state: ButtonState },
    DoubleClick { button: MouseButton },
    Enter,
    Move,
    Leave,
}

/// An entry of the tray menu.
#[derive(PartialEq, Eq, Structural, Clone, Copy, Debug)]
pub enum MenuCommand {
    Show,
    Hide,
    Quit,
}

/// What the shell does in answer to a tray event or a menu selection: the
/// operations to carry out in order (their failures are ignored), the
/// notification to emit afterwards, and the exit code if the process ends.
#[derive(Debug)]
pub struct Reaction {
    pub ops: Vec<Op>,
    pub notify: Option<Notification>,
    pub exit_code: Option<i32>,
}

impl Reaction {
    pub open spec fn has(&self, ops: Seq<Op>, notify: Option<Notification>, exit_code: Option<i32>) -> bool {
        &&& self.ops@ == ops
        &&& self.notify == notify
        &&& self.exit_code == exit_code
    }

    /// A reaction that does nothing.
    pub fn none() -> (r: Reaction)
        ensures
            r.has(seq![], None, None),
    {
        let r = Reaction { ops: Vec::new(), notify: None, exit_code: None };
        assert(r.ops@ =~= seq![]);
        r
    }
}

/// The identifier of each menu entry.
pub open spec fn menu_id(c: MenuCommand) -> Seq<char> {
    match c {
        MenuCommand::Show => "show"@,
        MenuCommand::Hide => "hide"@,
        MenuCommand::Quit => "quit"@,
    }
}

/// The menu entry that an identifier names, if any.
pub open spec fn menu_command_of(id: Seq<char>) -> Option<MenuCommand> {
    if id == "show"@ {
        Some(MenuCommand::Show)
    } else if id == "hide"@ {
        Some(MenuCommand::Hide)
    } else if id == "quit"@ {
        Some(MenuCommand::Quit)
    } else {
        None
    }
}

pub open spec fn menu_ops(c: MenuCommand, window_found: bool) -> Seq<Op> {
    if !window_found {
        seq![]
    } else {
        match c {
            MenuCommand::Show => seq![Op::Show, Op::Focus],
            MenuCommand::Hide => seq![Op::Hide],
            MenuCommand::Quit => seq![],
        }
    }
}

pub open spec fn menu_notify(c: MenuCommand, window_found: bool) -> Option<Notification> {
    if !window_found {
        None
    } else {
        match c {
            MenuCommand::Show => Some(Notification::WindowShown),
            MenuCommand::Hide => Some(Notification::WindowHidden),
            MenuCommand::Quit => None,
        }
    }
}

/// The operations of a toggle click on a window in state `v`.
pub open spec fn toggle_ops(v: Visibility) -> Seq<Op> {
    match v {
        Visibility::Visible => seq![Op::Hide],
        Visibility::Hidden => seq![Op::MoveTopRight, Op::Show, Op::Focus],
    }
}

pub open spec fn toggle_notify(v: Visibility) -> Notification {
    match v {
        Visibility::Visible => Notification::WindowHidden,
        Visibility::Hidden => Notification::WindowShown,
    }
}

/// Only a left-button release on the tray icon toggles the window.
pub open spec fn is_toggle(ev: TrayEvent) -> bool {
    ev == TrayEvent::Click { button: MouseButton::Left, state: ButtonState::Up }
}

/// The window's visibility after a tray event, when the main window exists
/// and its operations succeed.
pub open spec fn after_tray_event(v: Visibility, ev: TrayEvent) -> Visibility {
    if is_toggle(ev) {
        after_ops(v, toggle_ops(v))
    } else {
        v
    }
}

/// The window's visibility after a sequence of tray events.
pub open spec fn after_tray_events(v: Visibility, evs: Seq<TrayEvent>) -> Visibility
    decreases evs.len(),
{
    if evs.len() == 0 {
        v
    } else {
        after_tray_event(after_tray_events(v, evs.drop_last()), evs.last())
    }
}

/// Whether two strings hold the same characters.
fn same_text(a: &str, b: &str) -> (r: bool)
    ensures
        r == (a@ == b@),
{
    let n = a.unicode_len();
    if n != b.unicode_len() {
        return false;
    }
    let mut i: usize = 0;
    while i < n
        invariant
            n == a@.len(),
            n == b@.len(),
            i <= n,
            forall|j: int| 0 <= j < i ==> a@[j] == b@[j],
        decreases n - i,
    {
        if a.get_char(i) != b.get_char(i) {
            return false;
        }
        i = i + 1;
    }
    assert(a@ =~= b@);
    true
}

/// Decodes a menu entry's identifier; an unknown identifier gives `None`.
pub fn decode_menu_id(id: &str) -> (r: Option<MenuCommand>)
    ensures
        r == menu_command_of(id@),
{
    if same_text(id, "show") {
        Some(MenuCommand::Show)
    } else if same_text(id, "hide") {
        Some(MenuCommand::Hide)
    } else if same_text(id, "quit") {
        Some(MenuCommand::Quit)
    } else {
        None
    }
}

impl MenuCommand {
    /// The identifier of this menu entry.
    pub fn id(&self) -> (r: &'static str)
        ensures
            r@ == menu_id(*self),
            menu_command_of(r@) == Some(*self),
    {
        proof {
            reveal_strlit("show");
            reveal_strlit("hide");
            reveal_strlit("quit");
            assert("hide"@[0] != "show"@[0]);
            assert("quit"@[0] != "show"@[0]);
            assert("quit"@[0] != "hide"@[0]);
        }
        match self {
            MenuCommand::Show => "show",
            MenuCommand::Hide => "hide",
            MenuCommand::Quit => "quit",
        }
    }

    /// The reaction to selecting this entry. Quit ends the process with
    /// code 0 whatever the window's state; Show and Hide act on the main
    /// window when it exists and do nothing otherwise.
    pub fn reaction(&self, window_found: bool) -> (r: Reaction)
        ensures
            r.has(menu_ops(*self, window_found), menu_notify(*self, window_found),
                if *self == MenuCommand::Quit { Some(0i32) } else { None }),
    {
        if let MenuCommand::Quit = self {
            let mut r = Reaction::none();
            r.exit_code = Some(0);
            return r;
        }
        if !window_found {
            return Reaction::none();
        }
        let r = match self {
            MenuCommand::Show => Reaction {
                ops: vec![Op::Show, Op::Focus],
                notify: Some(Notification::WindowShown),
                exit_code: None,
            },
            _ => Reaction { ops: vec![Op::Hide], notify: Some(Notification::WindowHidden), exit_code: None },
        };
        assert(r.ops@ =~= menu_ops(*self, window_found));
        r
    }
}

/// The reaction to the menu entry with identifier `id`; an unknown
/// identifier is ignored.
pub fn on_menu_event(id: &str, window_found: bool) -> (r: Reaction)
    ensures
        match menu_command_of(id@) {
            Some(c) => r.has(menu_ops(c, window_found), menu_notify(c, window_found),
                if c == MenuCommand::Quit { Some(0i32) } else { None }),
            None => r.has(seq![], None, None),
        },
{
    match decode_menu_id(id) {
        Some(c) => c.reaction(window_found),
        None => Reaction::none(),
    }
}

/// Whether a tray event toggles the window.
pub fn is_toggle_click(ev: TrayEvent) -> (r: bool)
    ensures
        r == is_toggle(ev),
{
    match ev {
        TrayEvent::Click { button: MouseButton::Left, state: ButtonState::Up } => true,
        _ => false,
    }
}

/// The window's visibility as read from the toolkit; a failed read counts
/// as hidden.
pub fn visibility_from(read: Option<bool>) -> (r: Visibility)
    ensures
        r == (if read == Some(true) { Visibility::Visible } else { Visibility::Hidden }),
{
    match read {
        Some(true) => Visibility::Visible,
        _ => Visibility::Hidden,
    }
}

/// The reaction to a toggle click when the main window is in state `v`: a
/// visible window is hidden; a hidden one is moved to the top-right corner,
/// shown and focused.
pub fn on_toggle_click(v: Visibility) -> (r: Reaction)
    ensures
        r.has(toggle_ops(v), Some(toggle_notify(v)), None),
        after_ops(v, r.ops@) == flip(v),
{
    let r = match v {
        Visibility::Visible => Reaction {
            ops: vec![Op::Hide],
            notify: Some(Notification::WindowHidden),
            exit_code: None,
        },
        Visibility::Hidden => Reaction {
            ops: vec![Op::MoveTopRight, Op::Show, Op::Focus],
            notify: Some(Notification::WindowShown),
            exit_code: None,
        },
    };
    assert(r.ops@ =~= toggle_ops(v));
    proof {
        lemma_toggle_flips(v);
    }
    r
}

/// A toggle click, carried out, turns the window's visibility over.
pub proof fn lemma_toggle_flips(v: Visibility)
    ensures
        after_ops(v, toggle_ops(v)) == flip(v),
{
    let ops = toggle_ops(v);
    if v == Visibility::Hidden {
        let a = seq![Op::MoveTopRight, Op::Show];
        assert(ops.drop_last() =~= a);
        assert(a.drop_last() =~= seq![Op::MoveTopRight]);
        assert(seq![Op::MoveTopRight].drop_last() =~= Seq::<Op>::empty());
        reveal_with_fuel(after_ops, 4);
    } else {
        assert(ops.drop_last() =~= Seq::<Op>::empty());
        reveal_with_fuel(after_ops, 2);
    }
}

/// The visibility after a run of toggle clicks depends on the parity of
/// their number.
proof fn lemma_clicks_parity(v: Visibility, evs: Seq<TrayEvent>)
    requires
        forall|i: int| 0 <= i < evs.len() ==> is_toggle(#[trigger] evs[i]),
    ensures
        after_tray_events(v, evs) == (if evs.len() % 2 == 0 { v } else { flip(v) }),
    decreases evs.len(),
{
    if evs.len() > 0 {
        let prev = evs.drop_last();
        assert forall|i: int| 0 <= i < prev.len() implies is_toggle(#[trigger] prev[i]) by {
            assert(prev[i] == evs[i]);
        }
        lemma_clicks_parity(v, prev);
        assert(is_toggle(evs[evs.len() - 1]));
        lemma_toggle_flips(after_tray_events(v, prev));
    }
}

/// Over any sequence of left-button releases on the tray icon, the window's
/// visibility alternates strictly, starting from the state it had before
/// the first click: after an even number of clicks it is as it was, after
/// an odd number it is the other way, and no two consecutive clicks leave
/// it in the same state.
pub proof fn lemma_clicks_alternate(v: Visibility, evs: Seq<TrayEvent>)
    requires
        forall|i: int| 0 <= i < evs.len() ==> is_toggle(#[trigger] evs[i]),
    ensures
        forall|k: int| 0 <= k <= evs.len() ==>
            #[trigger] after_tray_events(v, evs.take(k)) == (if k % 2 == 0 { v } else { flip(v) }),
        forall|k: int| 0 <= k < evs.len() ==>
            #[trigger] after_tray_events(v, evs.take(k + 1)) != #[trigger] after_tray_events(v, evs.take(k)),
{
    assert forall|k: int| 0 <= k <= evs.len() implies
        #[trigger] after_tray_events(v, evs.take(k)) == (if k % 2 == 0 { v } else { flip(v) }) by {
        let t = evs.take(k);
        assert forall|i: int| 0 <= i < t.len() implies is_toggle(#[trigger] t[i]) by {
            assert(t[i] == evs[i]);
        }
        lemma_clicks_parity(v, t);
    }
    assert forall|k: int| 0 <= k < evs.len() implies
        #[trigger] after_tray_events(v, evs.take(k + 1)) != #[trigger] after_tray_events(v, evs.take(k)) by {
        assert(after_tray_events(v, evs.take(k + 1)) == (if (k + 1) % 2 == 0 { v } else { flip(v) }));
        assert(after_tray_events(v, evs.take(k)) == (if k % 2 == 0 { v } else { flip(v) }));
    }
}

} // verus!
