use vstd::prelude::*;
use crate::tray::{
    hide_id, idle, lemma_ids_distinct, is_left_release, menu_reaction_of, quit_id, show_id, tray_menu_spec,
    tray_reaction_of, ReactionView, TrayEvent, WindowOp,
};

verus! {

/// What can be seen of the main window.
pub struct WindowState {
    pub visible: bool,
    pub focused: bool,
}

/// What can be seen of the shell: the main window, if it exists, and the
/// exit code, if the process has ended.
pub struct Outcome {
    pub main: Option<WindowState>,
    pub exit_code: Option<i32>,
}

/// The main window after one operation. A hidden window does not hold the
/// focus.
pub open spec fn apply_op(w: WindowState, op: WindowOp) -> WindowState {
    match op {
        WindowOp::Show => WindowState { visible: true, ..w },
        WindowOp::SetFocus => WindowState { focused: true, ..w },
        WindowOp::Hide => WindowState { visible: false, focused: false },
    }
}

/// The main window after the operations, applied from first to last.
pub open spec fn apply_ops(w: WindowState, ops: Seq<WindowOp>) -> WindowState
    decreases ops.len(),
{
    if ops.len() == 0 {
        w
    } else {
        apply_ops(apply_op(w, ops[0]), ops.drop_first())
    }
}

/// What a reaction, decided while `main` was the main window, leaves behind.
/// Operations on a window that does not exist have no effect.
pub open spec fn outcome(main: Option<WindowState>, r: ReactionView) -> Outcome {
    Outcome {
        main: match main {
            Some(w) => Some(apply_ops(w, r.window_ops)),
            None => None,
        },
        exit_code: r.exit_code,
    }
}

/// The outcome of selecting the menu entry `id` while `main` is the main window.
pub open spec fn after_menu(main: Option<WindowState>, id: Seq<char>) -> Outcome {
    outcome(main, menu_reaction_of(id, main is Some))
}

/// The outcome of the tray event `event` while `main` is the main window.
pub open spec fn after_tray(main: Option<WindowState>, event: TrayEvent) -> Outcome {
    outcome(main, tray_reaction_of(event, main is Some))
}

/// Selecting "show" leaves an existing main window visible and focused, and
/// the process running; where no main window exists, nothing is attempted and
/// nothing changes.
pub proof fn show_entry_shows_and_focuses(main: Option<WindowState>)
    ensures
        main is Some ==> after_menu(main, show_id()) == (Outcome {
            main: Some(WindowState { visible: true, focused: true }),
            exit_code: None,
        }),
        main is None ==> menu_reaction_of(show_id(), false) == idle()
            && after_menu(main, show_id()) == (Outcome { main: None, exit_code: None }),
{
    let ops = menu_reaction_of(show_id(), main is Some).window_ops;
    if let Some(w) = main {
        let w1 = apply_op(w, WindowOp::Show);
        let w2 = apply_op(w1, WindowOp::SetFocus);
        assert(ops.drop_first().drop_first() =~= Seq::<WindowOp>::empty());
        assert(apply_ops(w2, ops.drop_first().drop_first()) == w2);
        assert(apply_ops(w1, ops.drop_first()) == w2);
    } else {
        assert(ops =~= Seq::<WindowOp>::empty());
    }
}

/// Selecting "hide" leaves an existing main window hidden, and the process
/// running; where no main window exists, nothing is attempted and nothing
/// changes.
pub proof fn hide_entry_hides(main: Option<WindowState>)
    ensures
        main is Some ==> after_menu(main, hide_id()) == (Outcome {
            main: Some(WindowState { visible: false, focused: false }),
            exit_code: None,
        }),
        main is None ==> menu_reaction_of(hide_id(), false) == idle()
            && after_menu(main, hide_id()) == (Outcome { main: None, exit_code: None }),
{
    lemma_ids_distinct();
    let ops = menu_reaction_of(hide_id(), main is Some).window_ops;
    if let Some(w) = main {
        let w1 = apply_op(w, WindowOp::Hide);
        assert(ops.drop_first() =~= Seq::<WindowOp>::empty());
        assert(apply_ops(w1, ops.drop_first()) == w1);
    } else {
        assert(ops =~= Seq::<WindowOp>::empty());
    }
}

/// Selecting "quit" ends the process with exit code 0 and touches no window.
pub proof fn quit_entry_exits_with_zero(main: Option<WindowState>)
    ensures
        menu_reaction_of(quit_id(), main is Some).window_ops.len() == 0,
        after_menu(main, quit_id()) == (Outcome { main, exit_code: Some(0i32) }),
{
    lemma_ids_distinct();
}

/// A left-button release on the tray icon reacts exactly as selecting "show".
pub proof fn left_release_acts_as_show(event: TrayEvent, main_present: bool)
    requires
        is_left_release(event),
    ensures
        tray_reaction_of(event, main_present) == menu_reaction_of(show_id(), main_present),
{
}

/// Any other tray event does nothing, whatever the main window is.
pub proof fn other_tray_events_do_nothing(event: TrayEvent, main: Option<WindowState>)
    requires
        !is_left_release(event),
    ensures
        tray_reaction_of(event, main is Some) == idle(),
        after_tray(main, event) == (Outcome { main, exit_code: None }),
{
}

/// Selecting an entry whose identifier is none of "show", "hide" and "quit"
/// does nothing, whatever the main window is.
pub proof fn unknown_entries_do_nothing(id: Seq<char>, main: Option<WindowState>)
    requires
        id != show_id(),
        id != hide_id(),
        id != quit_id(),
    ensures
        menu_reaction_of(id, main is Some) == idle(),
        after_menu(main, id) == (Outcome { main, exit_code: None }),
{
}

/// Selecting any entry of the tray menu has an effect while the main window
/// exists.
pub proof fn menu_entries_are_handled(i: int)
    requires
        0 <= i < tray_menu_spec().len(),
    ensures
        menu_reaction_of(tray_menu_spec()[i].0, true) != idle(),
{
    lemma_ids_distinct();
    let r = menu_reaction_of(tray_menu_spec()[i].0, true);
    if i < 2 {
        assert(r.window_ops.len() > 0);
    } else {
        assert(r.exit_code is Some);
    }
}

} // verus!
