use vstd::prelude::*;
use crate::changes::{CommandBlocking, CommandInfo, CommandKind};
use crate::hooks::HookResult;
use crate::keys::{is_key, InputEvent, KeyCode};
use crate::queue::{InternalEvent, NeedsUpdate, Queue};

verus! {

/// Relies on std's `String::push`: appends the character.
#[verifier::external_body]
fn push_char(s: &mut String, c: char)
    ensures
        final(s)@ == old(s)@.push(c),
{
    s.push(c)
}

/// Relies on std's `String::pop`: removes the last character.
#[verifier::external_body]
fn pop_char(s: &mut String) -> (r: Option<char>)
    ensures
        old(s)@.len() == 0 ==> r is None && final(s)@ == old(s)@,
        old(s)@.len() > 0 ==> r == Some(old(s)@.last()) && final(s)@ == old(s)@.drop_last(),
{
    s.pop()
}

/// What the dialog asks its caller to do next.
#[derive(Debug, Clone, Copy, PartialEq, Eq, Structural)]
pub enum CommitStep {
    /// Nothing to do.
    Idle,
    /// Run the commit-msg hook on the message, then hand the outcome to
    /// `after_commit_msg_hook`.
    RunCommitMsgHook,
}

/// The commit-message dialog.
pub struct CommitComponent {
    msg: String,
    visible: bool,
    stage_empty: bool,
}

/// The text of a hook failure notice.
pub open spec fn notice(prefix: Seq<char>, e: Seq<char>) -> Seq<char> {
    prefix + e
}

impl CommitComponent {
    pub closed spec fn spec_msg(&self) -> Seq<char> {
        self.msg@
    }

    pub closed spec fn spec_visible(&self) -> bool {
        self.visible
    }

    pub closed spec fn spec_stage_empty(&self) -> bool {
        self.stage_empty
    }

    /// A hidden dialog with an empty message and an empty stage.
    pub fn new() -> (r: Self)
        ensures
            r.spec_msg().len() == 0,
            !r.spec_visible(),
            r.spec_stage_empty(),
    {
        CommitComponent { msg: String::new(), visible: false, stage_empty: true }
    }

    /// The message being composed.
    pub fn msg(&self) -> (r: &String)
        ensures
            r@ == self.spec_msg(),
    {
        &self.msg
    }

    /// Whether the dialog is shown.
    pub fn is_visible(&self) -> (r: bool)
        ensures
            r == self.spec_visible(),
    {
        self.visible
    }

    /// Closes the dialog.
    pub fn close(&mut self)
        ensures
            !final(self).spec_visible(),
            final(self).spec_msg() == old(self).spec_msg(),
            final(self).spec_stage_empty() == old(self).spec_stage_empty(),
    {
        self.visible = false;
    }

    /// Shows the dialog.
    pub fn show(&mut self)
        ensures
            final(self).spec_visible(),
            final(self).spec_msg() == old(self).spec_msg(),
            final(self).spec_stage_empty() == old(self).spec_stage_empty(),
    {
        self.visible = true;
    }

    /// A commit can be made once the message is not empty.
    pub fn can_commit(&self) -> (r: bool)
        ensures
            r == (self.spec_msg().len() > 0),
    {
        !self.msg.as_str().is_empty()
    }

    /// Records whether the stage is empty.
    pub fn set_stage_empty(&mut self, empty: bool)
        ensures
            final(self).spec_stage_empty() == empty,
            final(self).spec_msg() == old(self).spec_msg(),
            final(self).spec_visible() == old(self).spec_visible(),
    {
        self.stage_empty = empty;
    }

    /// Handles an input event and says whether it was used, and whether a
    /// commit is to be started.
    pub fn event(&mut self, ev: InputEvent) -> (r: (bool, CommitStep))
        ensures
            final(self).spec_stage_empty() == old(self).spec_stage_empty(),
            ev is Other ==> r == (false, CommitStep::Idle) && final(self).spec_msg() == old(self).spec_msg() && final(self).spec_visible() == old(self).spec_visible(),
            ev matches InputEvent::Key(e) ==> (old(self).spec_visible() ==> r.0 && match e.code {
                KeyCode::Esc => !final(self).spec_visible() && final(self).spec_msg() == old(self).spec_msg() && r.1 == CommitStep::Idle,
                KeyCode::Char(c) => final(self).spec_visible() && final(self).spec_msg() == old(self).spec_msg().push(c) && r.1 == CommitStep::Idle,
                KeyCode::Enter => final(self).spec_visible() && final(self).spec_msg() == old(self).spec_msg()
                    && r.1 == if old(self).spec_msg().len() > 0 { CommitStep::RunCommitMsgHook } else { CommitStep::Idle },
                KeyCode::Backspace => final(self).spec_visible() && r.1 == CommitStep::Idle
                    && final(self).spec_msg() == if old(self).spec_msg().len() > 0 { old(self).spec_msg().drop_last() } else { old(self).spec_msg() },
                _ => final(self).spec_visible() && final(self).spec_msg() == old(self).spec_msg() && r.1 == CommitStep::Idle,
            }),
            ev matches InputEvent::Key(e) ==> (!old(self).spec_visible() ==> r.1 == CommitStep::Idle
                && final(self).spec_msg() == old(self).spec_msg()
                && r.0 == (is_key(e, KeyCode::Char('c')) && !old(self).spec_stage_empty())
                && final(self).spec_visible() == r.0),
    {
        if self.visible {
            if let InputEvent::Key(e) = ev {
                let mut step = CommitStep::Idle;
                match e.code {
                    KeyCode::Esc => {
                        self.close();
                    },
                    KeyCode::Char(c) => {
                        push_char(&mut self.msg, c);
                    },
                    KeyCode::Enter => {
                        if self.can_commit() {
                            step = CommitStep::RunCommitMsgHook;
                        }
                    },
                    KeyCode::Backspace => {
                        pop_char(&mut self.msg);
                    },
                    _ => {},
                }
                return (true, step);
            }
        } else if let InputEvent::Key(e) = ev {
            if e.modifiers == 0 && e.code == KeyCode::Char('c') && !self.stage_empty {
                self.show();
                return (true, CommitStep::Idle);
            }
        }
        (false, CommitStep::Idle)
    }

    /// The commands this dialog offers.
    pub fn commands(&self, out: &mut Vec<CommandInfo>, force_all: bool) -> (r: CommandBlocking)
        ensures
            final(out)@ == old(out)@ + seq![
                CommandInfo { kind: CommandKind::CommitOpen, enabled: !self.spec_stage_empty(), available: !self.spec_visible() },
                CommandInfo { kind: CommandKind::CommitEnter, enabled: self.spec_msg().len() > 0, available: self.spec_visible() },
                CommandInfo { kind: CommandKind::ClosePopup, enabled: true, available: self.spec_visible() },
            ],
            r == if self.spec_visible() { CommandBlocking::Blocking } else { CommandBlocking::PassingOn },
    {
        out.push(CommandInfo { kind: CommandKind::CommitOpen, enabled: !self.stage_empty, available: !self.visible });
        out.push(CommandInfo { kind: CommandKind::CommitEnter, enabled: self.can_commit(), available: self.visible });
        out.push(CommandInfo { kind: CommandKind::ClosePopup, enabled: true, available: self.visible });
        proof {
            assert(out@ =~= old(out)@ + seq![
                CommandInfo { kind: CommandKind::CommitOpen, enabled: !self.spec_stage_empty(), available: !self.spec_visible() },
                CommandInfo { kind: CommandKind::CommitEnter, enabled: self.spec_msg().len() > 0, available: self.spec_visible() },
                CommandInfo { kind: CommandKind::ClosePopup, enabled: true, available: self.spec_visible() },
            ]);
        }
        if self.visible {
            CommandBlocking::Blocking
        } else {
            CommandBlocking::PassingOn
        }
    }

    /// Takes the commit-msg hook's outcome and the message it left. On
    /// rejection the edited message is kept, a notice carrying the
    /// diagnostic is queued, and `false` says no commit is to be made; on
    /// success the message is kept for the commit and `true` is returned.
    pub fn after_commit_msg_hook(&mut self, res: HookResult, new_msg: String, queue: &mut Queue) -> (r: bool)
        ensures
            final(self).spec_msg() == new_msg@,
            final(self).spec_visible() == old(self).spec_visible(),
            final(self).spec_stage_empty() == old(self).spec_stage_empty(),
            r == (res is Passed),
            r ==> final(queue)@ == old(queue)@,
            res matches HookResult::NotOk(e) ==> final(queue)@.len() == old(queue)@.len() + 1
                && final(queue)@.subrange(0, old(queue)@.len() as int) == old(queue)@
                && (final(queue)@.last() matches InternalEvent::ShowMsg(m)
                && m@ == notice("commit-msg hook error:\n"@, e@)),
    {
        self.msg = new_msg;
        match res {
            HookResult::Passed => true,
            HookResult::NotOk(e) => {
                let m = String::from_str("commit-msg hook error:\n").concat(e.as_str());
                queue.push_back(InternalEvent::ShowMsg(m));
                proof {
                    reveal_strlit("commit-msg hook error:\n");
                }
                false
            },
        }
    }

    /// Takes the post-commit hook's outcome once the commit was made. A
    /// rejection only queues a warning, the commit stands. Either way the
    /// message is cleared, the dialog closes and a full refresh is queued.
    pub fn after_post_commit_hook(&mut self, res: HookResult, queue: &mut Queue)
        ensures
            final(self).spec_msg().len() == 0,
            !final(self).spec_visible(),
            final(self).spec_stage_empty() == old(self).spec_stage_empty(),
            res is Passed ==> final(queue)@ == old(queue)@.push(InternalEvent::Update(NeedsUpdate::all_flags())),
            res matches HookResult::NotOk(e) ==> final(queue)@.len() == old(queue)@.len() + 2
                && final(queue)@.subrange(0, old(queue)@.len() as int) == old(queue)@
                && final(queue)@.last() == InternalEvent::Update(NeedsUpdate::all_flags())
                && (final(queue)@[old(queue)@.len() as int] matches InternalEvent::ShowMsg(m)
                && m@ == notice("post-commit hook error:\n"@, e@)),
    {
        if let HookResult::NotOk(e) = res {
            let m = String::from_str("post-commit hook error:\n").concat(e.as_str());
            queue.push_back(InternalEvent::ShowMsg(m));
            proof {
                reveal_strlit("post-commit hook error:\n");
            }
        }
        self.msg = String::new();
        self.close();
        queue.push_back(InternalEvent::Update(NeedsUpdate::all()));
    }
}

} // verus!
