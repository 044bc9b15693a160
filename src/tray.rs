use vstd::prelude::*;
use vstd::string::StringExecFns;
use crate::text::same_text;

verus! {

/// A mouse button, as the tray icon reports it.
#[derive(Clone, Copy, Debug, PartialEq, Eq, Structural)]
pub enum MouseButton {
    Left,
    Right,
    Middle,
}

/// Whether a mouse button went down or came up.
#[derive(Clone, Copy, Debug, PartialEq, Eq, Structural)]
pub enum MouseButtonState {
    Up,
    Down,
}

/// An event on the tray icon, holding what the decisions read of it.
#[derive(Clone, Copy, Debug, PartialEq, Eq, Structural)]
pub enum TrayEvent {
    Click { button: MouseButton, button_state: MouseButtonState },
    DoubleClick { button: MouseButton },
    Enter,
    Move,
    Leave,
}

/// An operation on the main window.
#[derive(Clone, Copy, Debug, PartialEq, Eq, Structural)]
pub enum WindowOp {
    Show,
    SetFocus,
    Hide,
}

/// What the shell does in answer to an event: the operations on the main
/// window, in order, and the exit code if the process is to end.
pub struct Reaction {
    pub window_ops: Vec<WindowOp>,
    pub exit_code: Option<i32>,
}

/// The mathematical form of a [`Reaction`].
pub struct ReactionView {
    pub window_ops: Seq<WindowOp>,
    pub exit_code: Option<i32>,
}

impl View for Reaction {
    type V = ReactionView;

    open spec fn view(&self) -> ReactionView {
        ReactionView { window_ops: self.window_ops@, exit_code: self.exit_code }
    }
}

/// One entry of the tray menu.
pub struct MenuEntry {
    pub id: String,
    pub label: String,
    pub enabled: bool,
}

/// The identifier of the entry that shows and focuses the main window.
pub open spec fn show_id() -> Seq<char> {
    "show"@
}

/// The identifier of the entry that hides the main window.
pub open spec fn hide_id() -> Seq<char> {
    "hide"@
}

/// The identifier of the entry that ends the process.
pub open spec fn quit_id() -> Seq<char> {
    "quit"@
}

/// The three identifiers differ from one another.
pub proof fn lemma_ids_distinct()
    ensures
        show_id() != hide_id(),
        show_id() != quit_id(),
        hide_id() != quit_id(),
{
    reveal_strlit("show");
    reveal_strlit("hide");
    reveal_strlit("quit");
    assert(show_id()[0] != hide_id()[0]);
    assert(show_id()[0] != quit_id()[0]);
    assert(hide_id()[0] != quit_id()[0]);
}

/// The tray menu as (identifier, label, enabled) triples, in order.
pub open spec fn tray_menu_spec() -> Seq<(Seq<char>, Seq<char>, bool)> {
    seq![
        (show_id(), "Anzeigen"@, true),
        (hide_id(), "Verstecken"@, true),
        (quit_id(), "Beenden"@, true),
    ]
}

/// The reaction that leaves everything as it is.
pub open spec fn idle() -> ReactionView {
    ReactionView { window_ops: seq![], exit_code: None }
}

/// Show the main window and give it the focus, where it exists.
pub open spec fn show_reaction(main_present: bool) -> ReactionView {
    ReactionView {
        window_ops: if main_present { seq![WindowOp::Show, WindowOp::SetFocus] } else { seq![] },
        exit_code: None,
    }
}

/// Hide the main window, where it exists.
pub open spec fn hide_reaction(main_present: bool) -> ReactionView {
    ReactionView {
        window_ops: if main_present { seq![WindowOp::Hide] } else { seq![] },
        exit_code: None,
    }
}

/// End the process with exit code 0.
pub open spec fn quit_reaction() -> ReactionView {
    ReactionView { window_ops: seq![], exit_code: Some(0) }
}

/// The reaction to the selection of the menu entry `id`, given whether the
/// main window exists.
pub open spec fn menu_reaction_of(id: Seq<char>, main_present: bool) -> ReactionView {
    if id == show_id() {
        show_reaction(main_present)
    } else if id == hide_id() {
        hide_reaction(main_present)
    } else if id == quit_id() {
        quit_reaction()
    } else {
        idle()
    }
}

/// A left-button click, reported when the button comes up.
pub open spec fn is_left_release(event: TrayEvent) -> bool {
    event == TrayEvent::Click { button: MouseButton::Left, button_state: MouseButtonState::Up }
}

/// The reaction to an event on the tray icon, given whether the main window
/// exists.
pub open spec fn tray_reaction_of(event: TrayEvent, main_present: bool) -> ReactionView {
    if is_left_release(event) {
        show_reaction(main_present)
    } else {
        idle()
    }
}

fn idle_exec() -> (r: Reaction)
    ensures
        r@ == idle(),
{
    Reaction { window_ops: Vec::new(), exit_code: None }
}

fn show_exec(main_present: bool) -> (r: Reaction)
    ensures
        r@ == show_reaction(main_present),
{
    let mut ops: Vec<WindowOp> = Vec::new();
    if main_present {
        ops.push(WindowOp::Show);
        ops.push(WindowOp::SetFocus);
    }
    assert(ops@ =~= show_reaction(main_present).window_ops);
    Reaction { window_ops: ops, exit_code: None }
}

/// The entries of the tray menu, in order.
pub fn tray_menu() -> (r: Vec<MenuEntry>)
    ensures
        r@.len() == tray_menu_spec().len(),
        forall|i: int|
            0 <= i < r@.len() ==> (#[trigger] r@[i]).id@ == tray_menu_spec()[i].0
                && r@[i].label@ == tray_menu_spec()[i].1 && r@[i].enabled == tray_menu_spec()[i].2,
{
    let mut r: Vec<MenuEntry> = Vec::new();
    r.push(MenuEntry { id: String::from_str("show"), label: String::from_str("Anzeigen"), enabled: true });
    r.push(MenuEntry { id: String::from_str("hide"), label: String::from_str("Verstecken"), enabled: true });
    r.push(MenuEntry { id: String::from_str("quit"), label: String::from_str("Beenden"), enabled: true });
    r
}

/// Decides what selecting the menu entry `id` does, given whether the main
/// window exists.
pub fn menu_reaction(id: &str, main_present: bool) -> (r: Reaction)
    ensures
        r@ == menu_reaction_of(id@, main_present),
{
    if same_text(id, "show") {
        show_exec(main_present)
    } else if same_text(id, "hide") {
        let mut ops: Vec<WindowOp> = Vec::new();
        if main_present {
            ops.push(WindowOp::Hide);
        }
        assert(ops@ =~= hide_reaction(main_present).window_ops);
        Reaction { window_ops: ops, exit_code: None }
    } else if same_text(id, "quit") {
        Reaction { window_ops: Vec::new(), exit_code: Some(0) }
    } else {
        idle_exec()
    }
}

/// Decides what an event on the tray icon does, given whether the main
/// window exists.
pub fn tray_reaction(event: TrayEvent, main_present: bool) -> (r: Reaction)
    ensures
        r@ == tray_reaction_of(event, main_present),
{
    match event {
        TrayEvent::Click { button: MouseButton::Left, button_state: MouseButtonState::Up } => {
            show_exec(main_present)
        },
        _ => idle_exec(),
    }
}

} // verus!
