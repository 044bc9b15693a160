use desktop::text::same_text;
use desktop::tray::{
    menu_reaction, tray_menu, tray_reaction, MouseButton, MouseButtonState, TrayEvent, WindowOp,
};

#[test]
fn show_with_main_window_shows_then_focuses() {
    let r = menu_reaction("show", true);
    assert_eq!(r.window_ops, vec![WindowOp::Show, WindowOp::SetFocus]);
    assert_eq!(r.exit_code, None);
}

#[test]
fn show_without_main_window_does_nothing() {
    let r = menu_reaction("show", false);
    assert!(r.window_ops.is_empty());
    assert_eq!(r.exit_code, None);
}

#[test]
fn hide_with_main_window_hides() {
    let r = menu_reaction("hide", true);
    assert_eq!(r.window_ops, vec![WindowOp::Hide]);
    assert_eq!(r.exit_code, None);
}

#[test]
fn hide_without_main_window_does_nothing() {
    let r = menu_reaction("hide", false);
    assert!(r.window_ops.is_empty());
    assert_eq!(r.exit_code, None);
}

#[test]
fn quit_exits_with_zero() {
    for present in [true, false] {
        let r = menu_reaction("quit", present);
        assert!(r.window_ops.is_empty());
        assert_eq!(r.exit_code, Some(0));
    }
}

#[test]
fn unknown_menu_ids_do_nothing() {
    for id in ["", "Show", "shows", "sho", "exit", "Anzeigen", "quit "] {
        for present in [true, false] {
            let r = menu_reaction(id, present);
            assert!(r.window_ops.is_empty(), "{id}");
            assert_eq!(r.exit_code, None, "{id}");
        }
    }
}

#[test]
fn left_release_acts_as_show() {
    let click = TrayEvent::Click { button: MouseButton::Left, button_state: MouseButtonState::Up };
    for present in [true, false] {
        let t = tray_reaction(click, present);
        let m = menu_reaction("show", present);
        assert_eq!(t.window_ops, m.window_ops);
        assert_eq!(t.exit_code, m.exit_code);
    }
    assert_eq!(tray_reaction(click, true).window_ops, vec![WindowOp::Show, WindowOp::SetFocus]);
}

#[test]
fn other_tray_events_do_nothing() {
    let events = [
        TrayEvent::Click { button: MouseButton::Left, button_state: MouseButtonState::Down },
        TrayEvent::Click { button: MouseButton::Right, button_state: MouseButtonState::Up },
        TrayEvent::Click { button: MouseButton::Right, button_state: MouseButtonState::Down },
        TrayEvent::Click { button: MouseButton::Middle, button_state: MouseButtonState::Up },
        TrayEvent::DoubleClick { button: MouseButton::Left },
        TrayEvent::Enter,
        TrayEvent::Move,
        TrayEvent::Leave,
    ];
    for e in events {
        for present in [true, false] {
            let r = tray_reaction(e, present);
            assert!(r.window_ops.is_empty(), "{e:?}");
            assert_eq!(r.exit_code, None, "{e:?}");
        }
    }
}

#[test]
fn tray_menu_has_three_entries_in_order() {
    let m = tray_menu();
    assert_eq!(m.len(), 3);
    let expected = [("show", "Anzeigen"), ("hide", "Verstecken"), ("quit", "Beenden")];
    for (e, (id, label)) in m.iter().zip(expected) {
        assert_eq!(e.id, id);
        assert_eq!(e.label, label);
        assert!(e.enabled);
    }
}

#[test]
fn every_menu_entry_has_an_effect() {
    for e in tray_menu() {
        let r = menu_reaction(&e.id, true);
        assert!(!r.window_ops.is_empty() || r.exit_code.is_some(), "{}", e.id);
    }
}

#[test]
fn same_text_compares_characters() {
    assert!(same_text("", ""));
    assert!(same_text("hide", "hide"));
    assert!(!same_text("hide", "hid"));
    assert!(!same_text("hide", "Hide"));
    assert!(same_text("Groß", "Groß"));
    assert!(!same_text("Groß", "Gros"));
}
