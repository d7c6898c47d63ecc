use gitui_core::commit::{CommitComponent, CommitStep};
use gitui_core::hooks::HookResult;
use gitui_core::keys::{no_mod, InputEvent, KeyCode};
use gitui_core::queue::{InternalEvent, NeedsUpdate, Queue};

#[test]
fn queue_is_fifo_including_events_added_while_draining() {
    let mut q = Queue::new();
    q.push_back(InternalEvent::ShowMsg(String::from("A")));
    q.push_back(InternalEvent::ShowMsg(String::from("B")));
    q.push_back(InternalEvent::ShowMsg(String::from("C")));
    let mut seen = Vec::new();
    while let Some(e) = q.pop_front() {
        if e == InternalEvent::ShowMsg(String::from("A")) {
            q.push_back(InternalEvent::ShowMsg(String::from("D")));
        }
        seen.push(e);
    }
    let names: Vec<String> = seen
        .into_iter()
        .map(|e| match e {
            InternalEvent::ShowMsg(m) => m,
            _ => String::new(),
        })
        .collect();
    assert_eq!(names, vec!["A", "B", "C", "D"]);
}

#[test]
fn needs_update_union() {
    let u = NeedsUpdate::all().union(NeedsUpdate::diff());
    assert!(u.all && u.diff && !u.commands);
    assert!(u.contains(NeedsUpdate::diff()));
    assert!(!NeedsUpdate::diff().contains(NeedsUpdate::all()));
}

#[test]
fn commit_dialog_flow() {
    let mut c = CommitComponent::new();
    assert_eq!(c.event(InputEvent::Key(no_mod(KeyCode::Char('c')))), (false, CommitStep::Idle));
    c.set_stage_empty(false);
    assert_eq!(c.event(InputEvent::Key(no_mod(KeyCode::Char('c')))), (true, CommitStep::Idle));
    assert!(c.is_visible());
    assert_eq!(c.event(InputEvent::Key(no_mod(KeyCode::Enter))), (true, CommitStep::Idle));
    c.event(InputEvent::Key(no_mod(KeyCode::Char('h'))));
    c.event(InputEvent::Key(no_mod(KeyCode::Char('i'))));
    c.event(InputEvent::Key(no_mod(KeyCode::Char('x'))));
    c.event(InputEvent::Key(no_mod(KeyCode::Backspace)));
    assert_eq!(c.msg(), "hi");
    assert!(c.can_commit());
    assert_eq!(c.event(InputEvent::Key(no_mod(KeyCode::Enter))), (true, CommitStep::RunCommitMsgHook));
}

#[test]
fn rejected_commit_msg_hook_keeps_edited_message() {
    let mut q = Queue::new();
    let mut c = CommitComponent::new();
    c.set_stage_empty(false);
    c.show();
    let go = c.after_commit_msg_hook(HookResult::NotOk(String::from("bad")), String::from("msg\n"), &mut q);
    assert!(!go);
    assert_eq!(c.msg(), "msg\n");
    assert!(c.is_visible());
    assert_eq!(q.pop_front(), Some(InternalEvent::ShowMsg(String::from("commit-msg hook error:\nbad"))));
}

#[test]
fn post_commit_rejection_warns_and_still_closes() {
    let mut q = Queue::new();
    let mut c = CommitComponent::new();
    c.show();
    assert!(c.after_commit_msg_hook(HookResult::Passed, String::from("m"), &mut q));
    assert_eq!(q.len(), 0);
    c.after_post_commit_hook(HookResult::NotOk(String::from("w")), &mut q);
    assert_eq!(c.msg(), "");
    assert!(!c.is_visible());
    assert_eq!(q.pop_front(), Some(InternalEvent::ShowMsg(String::from("post-commit hook error:\nw"))));
    assert_eq!(q.pop_front(), Some(InternalEvent::Update(NeedsUpdate::all())));
}
