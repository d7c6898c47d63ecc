use vstd::prelude::*;
use crate::queue::{InternalEvent, NeedsUpdate, Queue};
use crate::keys::{InputEvent, KeyCode};

verus! {

/// The kind of change a status entry reports.
#[derive(Debug, Clone, Copy, PartialEq, Eq, Structural)]
pub enum StatusItemType {
    Modified,
    New,
    Deleted,
    Other,
}

/// One entry of a working-directory or staged change listing.
#[derive(Debug, Clone)]
pub struct StatusItem {
    pub path: String,
    pub status: StatusItemType,
}

/// The content of a status entry.
pub open spec fn item_view(i: StatusItem) -> (Seq<char>, StatusItemType) {
    (i.path@, i.status)
}

/// The content of a list of status entries.
pub open spec fn items_view(s: Seq<StatusItem>) -> Seq<(Seq<char>, StatusItemType)> {
    s.map_values(|i: StatusItem| item_view(i))
}

/// Compares two listings by content.
pub fn same_items(a: &[StatusItem], b: &[StatusItem]) -> (r: bool)
    ensures
        r == (items_view(a@) == items_view(b@)),
{
    if a.len() != b.len() {
        proof {
            assert(items_view(a@).len() != items_view(b@).len());
        }
        return false;
    }
    let mut i: usize = 0;
    while i < a.len()
        invariant
            a.len() == b.len(),
            i <= a.len(),
            forall|j: int| 0 <= j < i ==> item_view(a@[j]) == item_view(b@[j]),
        decreases a.len() - i,
    {
        if a[i].path != b[i].path || a[i].status != b[i].status {
            proof {
                assert(items_view(a@)[i as int] != items_view(b@)[i as int]);
            }
            return false;
        }
        i = i + 1;
    }
    proof {
        assert(items_view(a@) =~= items_view(b@));
    }
    true
}

/// Copies a listing.
fn copy_items(list: &[StatusItem]) -> (r: Vec<StatusItem>)
    ensures
        items_view(r@) == items_view(list@),
{
    let mut r: Vec<StatusItem> = Vec::new();
    let mut i: usize = 0;
    while i < list.len()
        invariant
            i <= list.len(),
            r@.len() == i,
            forall|j: int| 0 <= j < i ==> item_view(r@[j]) == item_view(list@[j]),
        decreases list.len() - i,
    {
        r.push(StatusItem { path: list[i].path.clone(), status: list[i].status });
        i = i + 1;
    }
    proof {
        assert(items_view(r@) =~= items_view(list@));
    }
    r
}

/// The selection after the list changes to `len` entries: none on an
/// empty list, otherwise the old index (zero when there was none) clamped
/// to the last entry.
pub open spec fn clamped_selection(old: Option<usize>, len: nat) -> Option<usize> {
    if len == 0 {
        None
    } else {
        let o: int = match old {
            Some(i) => i as int,
            None => 0,
        };
        Some((if o < len - 1 { o } else { len - 1 }) as usize)
    }
}

/// The selection after an update from `old_items` to `new_items`: kept
/// when the content is the same, clamped to the new list otherwise.
pub open spec fn updated_selection(
    old_items: Seq<(Seq<char>, StatusItemType)>,
    old_sel: Option<usize>,
    new_items: Seq<(Seq<char>, StatusItemType)>,
) -> Option<usize> {
    if old_items == new_items {
        old_sel
    } else {
        clamped_selection(old_sel, new_items.len())
    }
}

/// Updating again with the same list never moves the selection: after the
/// first update, every further one keeps it where it is.
pub proof fn lemma_repeated_update_keeps_selection(
    old_items: Seq<(Seq<char>, StatusItemType)>,
    old_sel: Option<usize>,
    list: Seq<(Seq<char>, StatusItemType)>,
)
    ensures
        updated_selection(list, updated_selection(old_items, old_sel, list), list)
            == updated_selection(old_items, old_sel, list),
        updated_selection(list, old_sel, list) == old_sel,
{
}

/// An update to a shorter list clamps a selection past its end to the new
/// last entry; an update to an empty list clears the selection.
pub proof fn lemma_update_clamps_selection(
    old_items: Seq<(Seq<char>, StatusItemType)>,
    old_sel: Option<usize>,
    list: Seq<(Seq<char>, StatusItemType)>,
)
    requires
        old_sel matches Some(i) ==> i < old_items.len(),
        list.len() < old_items.len(),
    ensures
        list.len() == 0 ==> updated_selection(old_items, old_sel, list) is None,
        old_sel matches Some(i) && list.len() > 0 && i >= list.len() ==> updated_selection(
            old_items,
            old_sel,
            list,
        ) == Some((list.len() - 1) as usize),
{
}

/// The index `sel + delta` clamped to `0 ..= len - 1`.
pub open spec fn moved(sel: int, delta: int, len: int) -> int {
    let up = if sel + delta < len - 1 { sel + delta } else { len - 1 };
    if up < 0 { 0 } else { up }
}

/// The selected index, or zero when there is none.
pub open spec fn sel_or_zero(sel: Option<usize>) -> int {
    match sel {
        Some(i) => i as int,
        None => 0,
    }
}

/// Whether `c` is the index change for the entry at `path`: staging it on
/// the working-directory panel, unstaging it otherwise.
pub open spec fn is_change_for(c: IndexChange, is_working_dir: bool, path: Seq<char>) -> bool {
    match c {
        IndexChange::Stage(p) => is_working_dir && p@ == path,
        IndexChange::Unstage(p) => !is_working_dir && p@ == path,
    }
}

/// The key of an event that carries no modifiers.
pub open spec fn bare_key(ev: InputEvent) -> Option<KeyCode> {
    match ev {
        InputEvent::Key(e) => if e.modifiers == 0 {
            Some(e.code)
        } else {
            None
        },
        InputEvent::Other => None,
    }
}

/// Whether the list panel acts on this key.
pub open spec fn is_panel_key(k: KeyCode) -> bool {
    k == KeyCode::Enter || k == KeyCode::Char('D') || k == KeyCode::Up || k == KeyCode::Down
}

/// Queues a full refresh after the index change a panel asked for, when
/// the change was made.
pub fn after_index_change(done: bool, queue: &mut Queue)
    ensures
        done ==> final(queue)@ == old(queue)@.push(InternalEvent::Update(NeedsUpdate::all_flags())),
        !done ==> final(queue)@ == old(queue)@,
{
    if done {
        queue.push_back(InternalEvent::Update(NeedsUpdate::all()));
    }
}

/// A change to the index that the panel asks for.
#[derive(Debug, Clone)]
pub enum IndexChange {
    /// Add the file at the path to the stage.
    Stage(String),
    /// Take the file at the path off the stage.
    Unstage(String),
}

/// A list panel of status entries with an optional selection.
pub struct ChangesComponent {
    title: String,
    items: Vec<StatusItem>,
    selection: Option<usize>,
    focused: bool,
    show_selection: bool,
    is_working_dir: bool,
}

/// What a panel shows for one entry.
#[derive(Debug, Clone)]
pub struct ListLine {
    pub text: String,
    pub status: StatusItemType,
    pub selected: bool,
}

/// Which command is offered.
#[derive(Debug, Clone, Copy, PartialEq, Eq, Structural)]
pub enum CommandKind {
    StageFile,
    ResetFile,
    UnstageFile,
    Scroll,
    CommitOpen,
    CommitEnter,
    ClosePopup,
}

/// A command offered to the user.
#[derive(Debug, Clone, Copy, PartialEq, Eq, Structural)]
pub struct CommandInfo {
    pub kind: CommandKind,
    pub enabled: bool,
    pub available: bool,
}

/// Whether a component lets input through to those behind it.
#[derive(Debug, Clone, Copy, PartialEq, Eq, Structural)]
pub enum CommandBlocking {
    Blocking,
    PassingOn,
}

impl ChangesComponent {
    pub closed spec fn spec_items(&self) -> Seq<(Seq<char>, StatusItemType)> {
        items_view(self.items@)
    }

    pub closed spec fn spec_selection(&self) -> Option<usize> {
        self.selection
    }

    pub closed spec fn spec_focused(&self) -> bool {
        self.focused
    }

    pub closed spec fn spec_show_selection(&self) -> bool {
        self.show_selection
    }

    pub closed spec fn spec_is_working_dir(&self) -> bool {
        self.is_working_dir
    }

    pub closed spec fn spec_title(&self) -> Seq<char> {
        self.title@
    }

    /// The panel's invariant: a selection lies within the list, and an
    /// empty list has none.
    pub open spec fn inv(&self) -> bool {
        &&& self.spec_selection() matches Some(i) ==> i < self.spec_items().len()
        &&& self.spec_items().len() == 0 ==> self.spec_selection() is None
    }

    /// An empty panel.
    pub fn new(title: &str, focus: bool, is_working_dir: bool) -> (r: Self)
        ensures
            r.inv(),
            r.spec_title() == title@,
            r.spec_items().len() == 0,
            r.spec_selection() is None,
            r.spec_focused() == focus,
            r.spec_show_selection() == focus,
            r.spec_is_working_dir() == is_working_dir,
    {
        ChangesComponent {
            title: title.to_owned(),
            items: Vec::new(),
            selection: None,
            focused: focus,
            show_selection: focus,
            is_working_dir,
        }
    }

    /// Replaces the list when its content differs from the one held; the
    /// selection is then clamped to the new list. A list with the same
    /// content changes nothing.
    pub fn update(&mut self, list: &[StatusItem])
        requires
            old(self).inv(),
        ensures
            final(self).inv(),
            final(self).spec_items() == items_view(list@),
            list@.len() == 0 ==> final(self).spec_selection() is None,
            final(self).spec_selection() == updated_selection(
                old(self).spec_items(),
                old(self).spec_selection(),
                items_view(list@),
            ),
            final(self).spec_focused() == old(self).spec_focused(),
            final(self).spec_show_selection() == old(self).spec_show_selection(),
            final(self).spec_is_working_dir() == old(self).spec_is_working_dir(),
            final(self).spec_title() == old(self).spec_title(),
    {
        if !same_items(self.items.as_slice(), list) {
            self.items = copy_items(list);
            let old_selection: usize = match self.selection {
                Some(i) => i,
                None => 0,
            };
            let len = self.items.len();
            proof {
                assert(items_view(self.items@).len() == items_view(list@).len());
            }
            self.selection = if len == 0 {
                None
            } else if old_selection < len - 1 {
                Some(old_selection)
            } else {
                Some(len - 1)
            };
        }
    }

    /// The selected entry, if any.
    pub fn selection(&self) -> (r: Option<StatusItem>)
        requires
            self.inv(),
        ensures
            r is None <==> self.spec_selection() is None,
            r matches Some(it) ==> item_view(it) == self.spec_items()[self.spec_selection()->0 as int],
    {
        match self.selection {
            None => None,
            Some(i) => Some(StatusItem { path: self.items[i].path.clone(), status: self.items[i].status }),
        }
    }

    /// Sets focus, and shows the selection exactly when focused.
    pub fn focus_select(&mut self, focus: bool)
        requires
            old(self).inv(),
        ensures
            final(self).inv(),
            final(self).spec_focused() == focus,
            final(self).spec_show_selection() == focus,
            final(self).spec_items() == old(self).spec_items(),
            final(self).spec_selection() == old(self).spec_selection(),
            final(self).spec_is_working_dir() == old(self).spec_is_working_dir(),
            final(self).spec_title() == old(self).spec_title(),
    {
        self.focus(focus);
        self.show_selection = focus;
    }

    /// Whether the list is empty.
    pub fn is_empty(&self) -> (r: bool)
        ensures
            r == (self.spec_items().len() == 0),
    {
        self.items.len() == 0
    }

    /// Whether the panel has focus.
    pub fn focused(&self) -> (r: bool)
        ensures
            r == self.spec_focused(),
    {
        self.focused
    }

    /// Gives or takes focus.
    pub fn focus(&mut self, focus: bool)
        ensures
            final(self).spec_focused() == focus,
            final(self).spec_show_selection() == old(self).spec_show_selection(),
            final(self).spec_items() == old(self).spec_items(),
            final(self).spec_selection() == old(self).spec_selection(),
            final(self).spec_is_working_dir() == old(self).spec_is_working_dir(),
            final(self).spec_title() == old(self).spec_title(),
            final(self).inv() == old(self).inv(),
    {
        self.focused = focus;
    }

    /// Moves the selection by `delta`, clamped to the list, and asks for a
    /// diff refresh. Fails, changing nothing, on an empty list.
    pub fn move_selection(&mut self, delta: i32, queue: &mut Queue) -> (r: bool)
        requires
            old(self).inv(),
        ensures
            final(self).inv(),
            r == (old(self).spec_items().len() > 0),
            final(self).spec_items() == old(self).spec_items(),
            final(self).spec_focused() == old(self).spec_focused(),
            final(self).spec_show_selection() == old(self).spec_show_selection(),
            final(self).spec_is_working_dir() == old(self).spec_is_working_dir(),
            final(self).spec_title() == old(self).spec_title(),
            r ==> final(self).spec_selection() == Some(
                moved(
                    sel_or_zero(old(self).spec_selection()),
                    delta as int,
                    old(self).spec_items().len() as int,
                ) as usize,
            ),
            r ==> final(queue)@ == old(queue)@.push(InternalEvent::Update(NeedsUpdate::diff_flags())),
            !r ==> final(self).spec_selection() == old(self).spec_selection() && final(queue)@ == old(queue)@,
    {
        let len = self.items.len();
        proof {
            assert(items_view(self.items@).len() == self.items@.len());
        }
        if len == 0 {
            return false;
        }
        let cur: usize = match self.selection {
            Some(i) => i,
            None => 0,
        };
        let new_index: usize = if delta >= 0 {
            let d = delta as usize;
            if d >= len - 1 - cur {
                len - 1
            } else {
                cur + d
            }
        } else {
            let d = (0i64 - delta as i64) as usize;
            if d >= cur {
                0
            } else {
                cur - d
            }
        };
        self.selection = Some(new_index);
        queue.push_back(InternalEvent::Update(NeedsUpdate::diff()));
        true
    }
    /// The panel's title.
    pub fn title(&self) -> (r: &String)
        ensures
            r@ == self.spec_title(),
    {
        &self.title
    }

    /// The selection as drawn: hidden while the selection is not shown.
    pub fn shown_selection(&self) -> (r: Option<usize>)
        ensures
            r == if self.spec_show_selection() { self.spec_selection() } else { None },
    {
        if self.show_selection {
            self.selection
        } else {
            None
        }
    }

    /// One line per entry: its path behind a `"> "` marker when it is the
    /// shown selection, behind two spaces otherwise.
    pub fn draw_lines(&self) -> (r: Vec<ListLine>)
        ensures
            r@.len() == self.spec_items().len(),
            forall|j: int|
                #![trigger r@[j]]
                0 <= j < r@.len() ==> {
                    let sel = self.spec_show_selection() && self.spec_selection() == Some(j as usize);
                    &&& r@[j].selected == sel
                    &&& r@[j].status == self.spec_items()[j].1
                    &&& r@[j].text@ == (if sel { seq!['>', ' '] } else { seq![' ', ' '] })
                        + self.spec_items()[j].0
                },
    {
        let mut r: Vec<ListLine> = Vec::new();
        let mut i: usize = 0;
        proof {
            reveal_strlit("> ");
            reveal_strlit("  ");
        }
        while i < self.items.len()
            invariant
                i <= self.items@.len(),
                r@.len() == i,
                forall|j: int|
                    #![trigger r@[j]]
                    0 <= j < i ==> {
                        let sel = self.show_selection && self.selection == Some(j as usize);
                        &&& r@[j].selected == sel
                        &&& r@[j].status == self.items@[j].status
                        &&& r@[j].text@ == (if sel { seq!['>', ' '] } else { seq![' ', ' '] })
                            + self.items@[j].path@
                    },
            decreases self.items.len() - i,
        {
            let selected = self.show_selection && match self.selection {
                Some(s) => s == i,
                None => false,
            };
            let marker = if selected {
                String::from_str("> ")
            } else {
                String::from_str("  ")
            };
            proof {
                reveal_strlit("> ");
                reveal_strlit("  ");
                assert(marker@ =~= (if selected { seq!['>', ' '] } else { seq![' ', ' '] }));
            }
            let text = marker.concat(self.items[i].path.as_str());
            let ghost prev = r@;
            r.push(ListLine { text, status: self.items[i].status, selected });
            proof {
                assert(forall|j: int| 0 <= j < i ==> r@[j] == prev[j]);
            }
            i = i + 1;
        }
        proof {
            assert(items_view(self.items@).len() == self.items@.len());
            assert forall|j: int| 0 <= j < self.items@.len() implies items_view(self.items@)[j]
                == item_view(self.items@[j]) by {}
        }
        r
    }

    /// The index change that acting on the selected entry asks for: stage
    /// it on the working-directory panel, unstage it otherwise.
    pub fn index_add_remove(&self) -> (r: Option<IndexChange>)
        requires
            self.inv(),
        ensures
            r is None <==> self.spec_selection() is None,
            r matches Some(c) ==> is_change_for(
                c,
                self.spec_is_working_dir(),
                self.spec_items()[self.spec_selection()->0 as int].0,
            ),
    {
        match self.selection() {
            Some(i) => {
                if self.is_working_dir {
                    Some(IndexChange::Stage(i.path))
                } else {
                    Some(IndexChange::Unstage(i.path))
                }
            },
            None => None,
        }
    }

    /// Asks for confirmation to reset the selected file.
    pub fn dispatch_reset_workdir(&self, queue: &mut Queue) -> (r: bool)
        requires
            self.inv(),
        ensures
            r == (self.spec_selection() is Some),
            r ==> exists|p: String|
                p@ == self.spec_items()[self.spec_selection()->0 as int].0 && final(queue)@
                    == old(queue)@.push(InternalEvent::ConfirmResetFile(p)),
            !r ==> final(queue)@ == old(queue)@,
    {
        match self.selection() {
            Some(i) => {
                let path = i.path;
                queue.push_back(InternalEvent::ConfirmResetFile(path));
                true
            },
            None => false,
        }
    }

    /// Handles an input event when focused, and says whether it was used.
    /// Up and Down move the selection; Enter returns the index change to
    /// make, which the caller performs and then hands to
    /// `after_index_change`; `D` on the working-directory panel asks to
    /// confirm resetting the selected file. Other events are not used.
    pub fn event(&mut self, ev: InputEvent, queue: &mut Queue) -> (r: (bool, Option<IndexChange>))
        requires
            old(self).inv(),
        ensures
            final(self).inv(),
            final(self).spec_items() == old(self).spec_items(),
            final(self).spec_focused() == old(self).spec_focused(),
            final(self).spec_show_selection() == old(self).spec_show_selection(),
            final(self).spec_is_working_dir() == old(self).spec_is_working_dir(),
            final(self).spec_title() == old(self).spec_title(),
            !old(self).spec_focused() || bare_key(ev) is None || !is_panel_key(bare_key(ev)->0)
                ==> r == (false, None::<IndexChange>) && final(queue)@ == old(queue)@
                && final(self).spec_selection() == old(self).spec_selection(),
            old(self).spec_focused() && (bare_key(ev) == Some(KeyCode::Down) || bare_key(ev)
                == Some(KeyCode::Up)) ==> {
                let delta: int = if bare_key(ev) == Some(KeyCode::Down) { 1 } else { -1 };
                let len = old(self).spec_items().len() as int;
                &&& r.1 is None
                &&& r.0 == (len > 0)
                &&& len > 0 ==> final(self).spec_selection() == Some(
                    moved(sel_or_zero(old(self).spec_selection()), delta, len) as usize,
                ) && final(queue)@ == old(queue)@.push(
                    InternalEvent::Update(NeedsUpdate::diff_flags()),
                )
                &&& len == 0 ==> final(self).spec_selection() == old(self).spec_selection()
                    && final(queue)@ == old(queue)@
            },
            old(self).spec_focused() && bare_key(ev) == Some(KeyCode::Enter) ==> {
                &&& r.0
                &&& final(self).spec_selection() == old(self).spec_selection()
                &&& final(queue)@ == old(queue)@
                &&& r.1 is None <==> old(self).spec_selection() is None
                &&& r.1 matches Some(c) ==> is_change_for(
                    c,
                    old(self).spec_is_working_dir(),
                    old(self).spec_items()[old(self).spec_selection()->0 as int].0,
                )
            },
            old(self).spec_focused() && bare_key(ev) == Some(KeyCode::Char('D')) ==> {
                &&& r.1 is None
                &&& final(self).spec_selection() == old(self).spec_selection()
                &&& r.0 == (old(self).spec_is_working_dir() && old(self).spec_selection() is Some)
                &&& r.0 ==> exists|p: String|
                    p@ == old(self).spec_items()[old(self).spec_selection()->0 as int].0
                        && final(queue)@ == old(queue)@.push(InternalEvent::ConfirmResetFile(p))
                &&& !r.0 ==> final(queue)@ == old(queue)@
            },
    {
        if self.focused {
            if let InputEvent::Key(e) = ev {
                if e.modifiers == 0 {
                    match e.code {
                        KeyCode::Enter => {
                            return (true, self.index_add_remove());
                        },
                        KeyCode::Char(c) => {
                            if c == 'D' {
                                let used = self.is_working_dir && self.dispatch_reset_workdir(queue);
                                return (used, None);
                            }
                        },
                        KeyCode::Down => {
                            return (self.move_selection(1, queue), None);
                        },
                        KeyCode::Up => {
                            return (self.move_selection(-1, queue), None);
                        },
                        _ => {},
                    }
                }
            }
        }
        (false, None)
    }

    /// The commands this panel offers.
    pub fn commands(&self, out: &mut Vec<CommandInfo>, force_all: bool) -> (r: CommandBlocking)
        requires
            self.inv(),
        ensures
            r == CommandBlocking::PassingOn,
            self.spec_is_working_dir() ==> final(out)@ == old(out)@ + seq![
                CommandInfo { kind: CommandKind::StageFile, enabled: self.spec_selection() is Some, available: self.spec_focused() },
                CommandInfo { kind: CommandKind::ResetFile, enabled: self.spec_selection() is Some, available: self.spec_focused() },
                CommandInfo { kind: CommandKind::Scroll, enabled: self.spec_items().len() > 1, available: self.spec_focused() },
            ],
            !self.spec_is_working_dir() ==> final(out)@ == old(out)@ + seq![
                CommandInfo { kind: CommandKind::UnstageFile, enabled: self.spec_selection() is Some, available: self.spec_focused() },
                CommandInfo { kind: CommandKind::Scroll, enabled: self.spec_items().len() > 1, available: self.spec_focused() },
            ],
    {
        let some_selection = self.selection.is_some();
        if self.is_working_dir {
            out.push(CommandInfo { kind: CommandKind::StageFile, enabled: some_selection, available: self.focused });
            out.push(CommandInfo { kind: CommandKind::ResetFile, enabled: some_selection, available: self.focused });
        } else {
            out.push(CommandInfo { kind: CommandKind::UnstageFile, enabled: some_selection, available: self.focused });
        }
        out.push(CommandInfo { kind: CommandKind::Scroll, enabled: self.items.len() > 1, available: self.focused });
        proof {
            assert(items_view(self.items@).len() == self.items@.len());
            if self.is_working_dir {
                assert(out@ =~= old(out)@ + seq![
                    CommandInfo { kind: CommandKind::StageFile, enabled: self.spec_selection() is Some, available: self.spec_focused() },
                    CommandInfo { kind: CommandKind::ResetFile, enabled: self.spec_selection() is Some, available: self.spec_focused() },
                    CommandInfo { kind: CommandKind::Scroll, enabled: self.spec_items().len() > 1, available: self.spec_focused() },
                ]);
            } else {
                assert(out@ =~= old(out)@ + seq![
                    CommandInfo { kind: CommandKind::UnstageFile, enabled: self.spec_selection() is Some, available: self.spec_focused() },
                    CommandInfo { kind: CommandKind::Scroll, enabled: self.spec_items().len() > 1, available: self.spec_focused() },
                ]);
            }
        }
        CommandBlocking::PassingOn
    }
}

} // verus!
