use gitui_core::changes::{ChangesComponent, CommandBlocking, IndexChange, StatusItem, StatusItemType};
use gitui_core::keys::{no_mod, InputEvent, KeyCode};
use gitui_core::queue::{InternalEvent, NeedsUpdate, Queue};

fn items(paths: &[&str]) -> Vec<StatusItem> {
    paths.iter().map(|p| StatusItem { path: p.to_string(), status: StatusItemType::Modified }).collect()
}

fn key(code: KeyCode) -> InputEvent {
    InputEvent::Key(no_mod(code))
}

#[test]
fn identical_update_keeps_selection() {
    let mut q = Queue::new();
    let mut c = ChangesComponent::new("t", true, true);
    c.update(&items(&["a", "b", "c"]));
    assert!(c.event(key(KeyCode::Down), &mut q).0);
    assert!(c.event(key(KeyCode::Down), &mut q).0);
    for _ in 0..3 {
        c.update(&items(&["a", "b", "c"]));
        assert_eq!(c.selection().unwrap().path, "c");
    }
}

#[test]
fn shorter_list_clamps_and_empty_clears() {
    let mut q = Queue::new();
    let mut c = ChangesComponent::new("t", true, true);
    c.update(&items(&["a", "b", "c", "d"]));
    c.event(key(KeyCode::Down), &mut q);
    c.event(key(KeyCode::Down), &mut q);
    c.event(key(KeyCode::Down), &mut q);
    assert_eq!(c.selection().unwrap().path, "d");
    c.update(&items(&["x", "y"]));
    assert_eq!(c.selection().unwrap().path, "y");
    c.update(&[]);
    assert!(c.selection().is_none());
    assert!(c.is_empty());
}

#[test]
fn move_on_empty_fails_and_clamps_at_bounds() {
    let mut q = Queue::new();
    let mut c = ChangesComponent::new("t", true, true);
    assert!(!c.event(key(KeyCode::Down), &mut q).0);
    assert_eq!(q.len(), 0);
    c.update(&items(&["a", "b"]));
    assert!(c.event(key(KeyCode::Up), &mut q).0);
    assert_eq!(c.selection().unwrap().path, "a");
    assert!(c.event(key(KeyCode::Down), &mut q).0);
    assert!(c.event(key(KeyCode::Down), &mut q).0);
    assert_eq!(c.selection().unwrap().path, "b");
    assert_eq!(q.len(), 3);
    assert_eq!(q.pop_front(), Some(InternalEvent::Update(NeedsUpdate::diff())));
}

#[test]
fn enter_stages_or_unstages_selected() {
    let mut q = Queue::new();
    let mut w = ChangesComponent::new("w", true, true);
    w.update(&items(&["f"]));
    match w.event(key(KeyCode::Enter), &mut q) {
        (true, Some(IndexChange::Stage(p))) => assert_eq!(p, "f"),
        _ => panic!("expected a stage request"),
    }
    let mut s = ChangesComponent::new("s", true, false);
    s.update(&items(&["g"]));
    match s.index_add_remove() {
        Some(IndexChange::Unstage(p)) => assert_eq!(p, "g"),
        _ => panic!("expected an unstage request"),
    }
}

#[test]
fn reset_asks_for_confirmation() {
    let mut q = Queue::new();
    let mut w = ChangesComponent::new("w", true, true);
    w.update(&items(&["f"]));
    assert!(w.event(key(KeyCode::Char('D')), &mut q).0);
    assert_eq!(q.pop_front(), Some(InternalEvent::ConfirmResetFile(String::from("f"))));
}

#[test]
fn unfocused_panel_ignores_keys() {
    let mut q = Queue::new();
    let mut c = ChangesComponent::new("t", false, true);
    c.update(&items(&["a"]));
    assert_eq!(c.event(key(KeyCode::Down), &mut q).0, false);
    c.focus_select(true);
    assert!(c.focused());
    let mut out = Vec::new();
    assert_eq!(c.commands(&mut out, false), CommandBlocking::PassingOn);
    assert_eq!(out.len(), 3);
}

#[test]
fn draw_lines_mark_shown_selection() {
    let mut c = ChangesComponent::new("t", true, true);
    c.update(&items(&["a", "b"]));
    let lines = c.draw_lines();
    assert_eq!(lines[0].text, "> a");
    assert!(lines[0].selected);
    assert_eq!(lines[1].text, "  b");
    c.focus_select(false);
    assert_eq!(c.shown_selection(), None);
    assert_eq!(c.draw_lines()[0].text, "  a");
    assert_eq!(c.title(), "t");
}

#[test]
fn refresh_follows_only_a_made_index_change() {
    let mut q = Queue::new();
    gitui_core::changes::after_index_change(false, &mut q);
    assert_eq!(q.len(), 0);
    gitui_core::changes::after_index_change(true, &mut q);
    assert_eq!(q.pop_front(), Some(InternalEvent::Update(NeedsUpdate::all())));
}

#[test]
fn enter_without_selection_asks_nothing() {
    let mut q = Queue::new();
    let mut c = ChangesComponent::new("t", true, true);
    assert_eq!(c.event(key(KeyCode::Enter), &mut q).0, true);
    assert!(c.index_add_remove().is_none());
    assert_eq!(q.len(), 0);
    let mut s = ChangesComponent::new("s", true, false);
    s.update(&items(&["f"]));
    assert!(!s.event(key(KeyCode::Char('D')), &mut q).0);
    assert_eq!(q.len(), 0);
}
