use gitui_core::hooks::{
    commit_msg_outcome, hook_path, post_commit_outcome, runnable, HookOutput, HookResult,
    HOOK_COMMIT_MSG,
};

fn output(success: bool, stdout: &str, stderr: &str) -> HookOutput {
    HookOutput { success, stdout: stdout.to_string(), stderr: stderr.to_string() }
}

#[test]
fn test_smoke() {
    let (res, msg) = commit_msg_outcome(String::from("test"), None);
    assert_eq!(res, HookResult::Passed);
    assert_eq!(msg, "test");
    assert_eq!(post_commit_outcome(None), HookResult::Passed);
}

#[test]
fn test_hooks_commit_msg_ok() {
    let ran = Some((output(true, "", ""), String::from("test")));
    let (res, msg) = commit_msg_outcome(String::from("test"), ran);
    assert_eq!(res, HookResult::Passed);
    assert_eq!(msg, String::from("test"));
}

#[test]
fn test_hooks_commit_msg() {
    let ran = Some((output(false, "rejected\n", ""), String::from("msg\n")));
    let (res, msg) = commit_msg_outcome(String::from("test"), ran);
    assert_eq!(res, HookResult::NotOk(String::from("rejected\n")));
    assert_eq!(msg, String::from("msg\n"));
}

#[test]
fn test_commit_msg_no_block_but_alter() {
    let ran = Some((output(true, "", ""), String::from("msg\n")));
    let (res, msg) = commit_msg_outcome(String::from("test"), ran);
    assert_eq!(res, HookResult::Passed);
    assert_eq!(msg, String::from("msg\n"));
}

#[test]
fn diagnostic_is_stdout_then_stderr() {
    let ran = Some((output(false, "out\n", "err\n"), String::from("x")));
    let (res, _) = commit_msg_outcome(String::from("x"), ran);
    assert_eq!(res, HookResult::NotOk(String::from("out\nerr\n")));
}

#[test]
fn post_commit_classifies_like_commit_msg() {
    assert_eq!(post_commit_outcome(Some(output(true, "ignored", ""))), HookResult::Passed);
    assert_eq!(
        post_commit_outcome(Some(output(false, "a", "b"))),
        HookResult::NotOk(String::from("ab"))
    );
}

#[test]
fn hook_path_joins_with_separator() {
    assert_eq!(hook_path("/repo", HOOK_COMMIT_MSG), "/repo/.git/hooks/commit-msg");
    assert_eq!(hook_path("/repo/", "x"), "/repo/x");
    assert_eq!(hook_path("", "x"), "x");
    assert_eq!(hook_path("/repo", "/abs"), "/abs");
}

#[test]
fn runnable_needs_both_answers() {
    assert!(runnable(true, true));
    assert!(!runnable(true, false));
    assert!(!runnable(false, true));
    assert!(!runnable(false, false));
}
