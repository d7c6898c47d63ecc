use vstd::prelude::*;

verus! {

/// Location of the commit-msg hook, relative to the repository root.
pub const HOOK_COMMIT_MSG: &'static str = ".git/hooks/commit-msg";

/// Location of the post-commit hook, relative to the repository root.
pub const HOOK_POST_COMMIT: &'static str = ".git/hooks/post-commit";

/// Outcome of running a hook.
#[derive(Debug, PartialEq, Eq, Clone)]
pub enum HookResult {
    /// Everything went fine
    Passed,
    /// Hook returned error
    NotOk(String),
}

impl HookResult {
    /// The diagnostic carried by a rejection, `None` on success.
    pub open spec fn diagnostic(self) -> Option<Seq<char>> {
        match self {
            HookResult::Passed => None,
            HookResult::NotOk(e) => Some(e@),
        }
    }
}

/// What a finished hook process reported: whether it exited with status
/// zero, and its two output streams decoded as text.
pub struct HookOutput {
    pub success: bool,
    pub stdout: String,
    pub stderr: String,
}

/// The diagnostic expected from a finished hook: `None` when it succeeded,
/// otherwise standard output followed by standard error.
pub open spec fn expected_diagnostic(out: HookOutput) -> Option<Seq<char>> {
    if out.success {
        None
    } else {
        Some(out.stdout@ + out.stderr@)
    }
}

/// Classifies a finished hook process: exit status zero is `Ok`, anything
/// else is `NotOk` carrying standard output followed by standard error.
pub fn classify(out: HookOutput) -> (r: HookResult)
    ensures
        r.diagnostic() == expected_diagnostic(out),
{
    if out.success {
        HookResult::Passed
    } else {
        let HookOutput { success: _, stdout, stderr } = out;
        HookResult::NotOk(stdout.concat(stderr.as_str()))
    }
}

/// The message and result of a commit-msg hook step. `ran` is `None` when
/// the hook was not runnable; otherwise it holds what the process reported
/// and the contents of the message file read back after it exited.
pub open spec fn commit_msg_step(msg: Seq<char>, ran: Option<(HookOutput, String)>) -> (
    Option<Seq<char>>,
    Seq<char>,
) {
    match ran {
        None => (None, msg),
        Some((out, file)) => (expected_diagnostic(out), file@),
    }
}

/// Turns the commit-msg hook's run into its result and the new message.
/// A hook that was not runnable leaves the message unchanged and succeeds;
/// a hook that ran hands back the file contents as the message whatever its
/// exit status, so that edits are kept even on rejection.
pub fn commit_msg_outcome(msg: String, ran: Option<(HookOutput, String)>) -> (r: (
    HookResult,
    String,
))
    ensures
        (r.0.diagnostic(), r.1@) == commit_msg_step(msg@, ran),
{
    match ran {
        None => (HookResult::Passed, msg),
        Some((out, file)) => (classify(out), file),
    }
}

/// The diagnostic of a post-commit hook step; `ran` is `None` when the
/// hook was not runnable.
pub open spec fn post_commit_step(ran: Option<HookOutput>) -> Option<Seq<char>> {
    match ran {
        None => None,
        Some(out) => expected_diagnostic(out),
    }
}

/// The result of a post-commit hook step; `ran` is `None` when the hook
/// was not runnable.
pub fn post_commit_outcome(ran: Option<HookOutput>) -> (r: HookResult)
    ensures
        r.diagnostic() == post_commit_step(ran),
{
    match ran {
        None => HookResult::Passed,
        Some(out) => classify(out),
    }
}

/// The post-commit hook is classified exactly as the commit-msg hook is:
/// for the same run (or the same absence of one) both give the same
/// diagnostic, whatever message and message file the commit-msg hook had.
pub proof fn lemma_post_commit_same_classification(
    msg: Seq<char>,
    ran: Option<HookOutput>,
    file: String,
)
    ensures
        post_commit_step(ran) == commit_msg_step(
            msg,
            match ran {
                None => None,
                Some(out) => Some((out, file)),
            },
        ).0,
{
}

/// The path of `hook` under `repo`, joined as a relative path component:
/// a separator is put between them unless `repo` is empty or already ends
/// in one, and an absolute `hook` stands alone.
pub open spec fn joined(repo: Seq<char>, hook: Seq<char>) -> Seq<char> {
    if hook.len() > 0 && hook[0] == '/' {
        hook
    } else if repo.len() == 0 || repo.last() == '/' {
        repo + hook
    } else {
        repo + seq!['/'] + hook
    }
}

/// Joins a hook's location to the repository root.
pub fn hook_path(repo: &str, hook: &str) -> (r: String)
    ensures
        r@ == joined(repo@, hook@),
{
    let hl = hook.unicode_len();
    if hl > 0 && hook.get_char(0) == '/' {
        return hook.to_owned();
    }
    let rl = repo.unicode_len();
    if rl == 0 || repo.get_char(rl - 1) == '/' {
        repo.to_owned().concat(hook)
    } else {
        proof {
            reveal_strlit("/");
        }
        repo.to_owned().concat("/").concat(hook)
    }
}

/// Relies on std's `Path::exists`: whether something is at the path. The
/// answer depends on the disk, so nothing is stated of it.
#[verifier::external_body]
fn path_exists(p: &str) -> (r: bool) {
    std::path::Path::new(p).exists()
}

/// Relies on `is_executable::is_executable`: whether a file at the path is
/// marked executable. The answer depends on the disk, so nothing is stated
/// of it.
#[verifier::external_body]
fn executable(p: &str) -> (r: bool) {
    is_executable::is_executable(p)
}

/// A hook is runnable when its file exists and is executable.
pub fn runnable(exists: bool, executable: bool) -> (r: bool)
    ensures
        r == (exists && executable),
{
    exists && executable
}

/// Whether `hook` under the repository at `path` exists and is executable.
/// Both answers come from the disk; the path asked about is
/// `hook_path(path, hook)`.
pub fn hook_runable(path: &str, hook: &str) -> (r: bool) {
    let p = hook_path(path, hook);
    let exists = path_exists(p.as_str());
    let exec = executable(p.as_str());
    runnable(exists, exec)
}

} // verus!
