//! The interaction controller: one mode flag, one dispatch function.
//!
//! The shell renders, blocks for one key, and calls `handle_event`; the
//! returned action tells it what outside work to do: nothing, quit,
//! launch a session, or rewrite the store file.

use vstd::prelude::*;

use crate::editor::{editor_create_view, editor_edit_view, editor_step, EditorMode, EditorState, Key};
use crate::list::StatefulList;
use crate::model::{display_text, Status, StoredConnection};

verus! {

/// Which component currently receives input.
#[derive(Clone, Copy, PartialEq, Eq, Structural, Debug)]
pub enum Mode {
    Browsing,
    Editing,
    ConfirmingDeletion,
}

/// The outside work one input step asks of the shell.
pub enum AppAction {
    /// Nothing to do; render and read the next key.
    Continue,
    /// Leave the event loop.
    Quit,
    /// Hand the terminal to an `ssh` session for the item at this index.
    ConnectSsh(usize),
    /// Hand the terminal to an `sshfs` mount for the item at this index.
    ConnectSshfs(usize),
    /// Append the record to the store file and reload.
    PersistAppend(StoredConnection),
    /// Replace the record with this host in the store file (append when
    /// no host matches) and reload.
    PersistUpdate(StoredConnection, String),
    /// Rewrite the store file from the current items and reload.
    PersistAll,
}

/// The whole interactive state.
pub struct App {
    pub items: StatefulList,
    pub mode: Mode,
    pub editor: EditorState,
}

/// The step taken for a navigation key: only the list changes, and the
/// shell has nothing to do.
pub open spec fn nav_step(pre: App, post: App, act: AppAction, moved: StatefulList) -> bool {
    &&& post == (App { items: moved, ..pre })
    &&& act == AppAction::Continue
}

/// The step taken for a connect key: the state is untouched, and the
/// shell is told to launch only when an available item is selected.
pub open spec fn connect_step(pre: App, post: App, act: AppAction, sshfs: bool) -> bool {
    &&& post == pre
    &&& match pre.items.selected {
        Some(i) => if pre.items.items[i as int].status == Status::Available {
            act == if sshfs {
                AppAction::ConnectSshfs(i)
            } else {
                AppAction::ConnectSsh(i)
            }
        } else {
            act == AppAction::Continue
        },
        None => act == AppAction::Continue,
    }
}

/// The step that opens the editor blank, for a new record.
pub open spec fn open_create_step(pre: App, post: App, act: AppAction) -> bool {
    &&& post.items == pre.items
    &&& post.mode == Mode::Editing
    &&& post.editor@ == editor_create_view()
    &&& act == AppAction::Continue
}

/// The step that opens the editor on the selected item; with nothing
/// selected, nothing happens.
pub open spec fn open_edit_step(pre: App, post: App, act: AppAction) -> bool {
    match pre.items.selected {
        Some(i) => {
            &&& post.items == pre.items
            &&& post.mode == Mode::Editing
            &&& post.editor@ == editor_edit_view(pre.items.items[i as int]@)
            &&& act == AppAction::Continue
        },
        None => post == pre && act == AppAction::Continue,
    }
}

/// The step that asks for deletion confirmation; with nothing selected,
/// nothing happens.
pub open spec fn confirm_request_step(pre: App, post: App, act: AppAction) -> bool {
    match pre.items.selected {
        Some(_) => {
            &&& post == (App { mode: Mode::ConfirmingDeletion, ..pre })
            &&& act == AppAction::Continue
        },
        None => post == pre && act == AppAction::Continue,
    }
}

/// One browsing step, keyed exactly as the event loop dispatches.
pub open spec fn browsing_step(pre: App, post: App, key: Key, act: AppAction) -> bool {
    match key {
        Key::Char(c) => if c == 'q' {
            post == pre && act == AppAction::Quit
        } else if c == 'h' {
            nav_step(pre, post, act, pre.items.spec_unselect())
        } else if c == 'j' {
            nav_step(pre, post, act, pre.items.spec_next())
        } else if c == 'k' {
            nav_step(pre, post, act, pre.items.spec_previous())
        } else if c == 'l' {
            connect_step(pre, post, act, false)
        } else if c == 'f' {
            connect_step(pre, post, act, true)
        } else if c == 'g' {
            nav_step(pre, post, act, pre.items.spec_go_top())
        } else if c == 'G' {
            nav_step(pre, post, act, pre.items.spec_go_bottom())
        } else if c == 'n' {
            open_create_step(pre, post, act)
        } else if c == 'e' {
            open_edit_step(pre, post, act)
        } else if c == 'd' {
            confirm_request_step(pre, post, act)
        } else {
            post == pre && act == AppAction::Continue
        },
        Key::Esc => post == pre && act == AppAction::Quit,
        Key::Left => nav_step(pre, post, act, pre.items.spec_unselect()),
        Key::Down => nav_step(pre, post, act, pre.items.spec_next()),
        Key::Up => nav_step(pre, post, act, pre.items.spec_previous()),
        Key::Right => connect_step(pre, post, act, false),
        Key::Enter => connect_step(pre, post, act, false),
        _ => post == pre && act == AppAction::Continue,
    }
}

/// One editing step: escape discards, enter commits keyed on the host
/// captured when the editor opened, and every other key edits.
pub open spec fn editing_step(pre: App, post: App, key: Key, act: AppAction) -> bool {
    match key {
        Key::Esc => {
            &&& post.items == pre.items
            &&& post.mode == Mode::Browsing
            &&& post.editor@ == editor_create_view()
            &&& act == AppAction::Continue
        },
        Key::Enter => {
            &&& post.items == pre.items
            &&& post.mode == Mode::Browsing
            &&& post.editor@ == editor_create_view()
            &&& match pre.editor.mode {
                EditorMode::Create => act matches AppAction::PersistAppend(rec) && rec@
                    == pre.editor@.record,
                EditorMode::Edit => act matches AppAction::PersistUpdate(rec, host) && rec@
                    == pre.editor@.record && host@ == pre.editor@.original_host,
            }
        },
        _ => {
            &&& post.items == pre.items
            &&& post.mode == Mode::Editing
            &&& post.editor@ == editor_step(pre.editor@, key)
            &&& act == AppAction::Continue
        },
    }
}

/// One confirming step: only `y` deletes; the deletion removes the
/// selected item, clears the selection, and asks the shell to rewrite
/// the store.  Every other key cancels and leaves the items untouched.
pub open spec fn confirming_step(pre: App, post: App, key: Key, act: AppAction) -> bool {
    if key == Key::Char('y') {
        pre.items.selected matches Some(i) ==> {
            &&& post.items.items@ == pre.items.items@.remove(i as int)
            &&& post.items.selected is None
            &&& post.items.last_selected is None
            &&& post.items.offset == 0
            &&& post.mode == Mode::Browsing
            &&& post.editor == pre.editor
            &&& act == AppAction::PersistAll
        }
    } else {
        post == (App { mode: Mode::Browsing, ..pre }) && act == AppAction::Continue
    }
}

impl App {
    /// The list indices are in range, and confirmation is only ever
    /// asked about a selected item.
    pub open spec fn wf(self) -> bool {
        &&& self.items.wf()
        &&& (self.mode == Mode::ConfirmingDeletion ==> self.items.selected is Some)
    }

    /// Builds the whole state from the stored records: the resolved
    /// list, browsing mode, a blank editor.
    pub fn new(connections: Vec<StoredConnection>) -> (r: App)
        ensures
            r.wf(),
            r.items.lists(connections@),
            r.mode == Mode::Browsing,
            r.editor@ == editor_create_view(),
    {
        App {
            items: StatefulList::with_items(connections),
            mode: Mode::Browsing,
            editor: EditorState::for_create(),
        }
    }

    /// Replaces the list with one rebuilt from the given records and
    /// blanks the editor, as after a successful store rewrite.
    pub fn reload(&mut self, connections: Vec<StoredConnection>)
        requires
            old(self).mode == Mode::Browsing,
        ensures
            final(self).wf(),
            final(self).items.lists(connections@),
            final(self).mode == Mode::Browsing,
            final(self).editor@ == editor_create_view(),
    {
        self.items = StatefulList::with_items(connections);
        self.editor = EditorState::for_create();
    }

    /// The current items converted back to stored records, in order,
    /// for a whole-file rewrite.
    pub fn records_for_saving(&self) -> (r: Vec<StoredConnection>)
        ensures
            r@.len() == self.items.items@.len(),
            forall|j: int| #![auto]
                0 <= j < r@.len() ==> r@[j]@ == crate::model::stored_view(self.items.items@[j]@),
    {
        let mut records: Vec<StoredConnection> = Vec::new();
        let n: usize = self.items.items.len();
        let mut i: usize = 0;
        while i < n
            invariant
                n == self.items.items.len(),
                i <= n,
                records@.len() == i,
                forall|j: int| #![auto]
                    0 <= j < i ==> records@[j]@ == crate::model::stored_view(
                        self.items.items@[j]@,
                    ),
            decreases n - i,
        {
            records.push(self.items.items[i].duplicate().into_stored());
            i = i + 1;
        }
        records
    }

    /// The info-panel text: the selected item's details, a short notice
    /// when it is not available, or a prompt when nothing is selected.
    pub open spec fn info_text_view(self) -> Seq<char> {
        match self.items.selected {
            Some(i) => match self.items.items[i as int].status {
                Status::Available => display_text(self.items.items[i as int]@),
                Status::NotAvailable => "NotAvailable - "@ + self.items.items[i as int].host@,
            },
            None => "Please select the connection"@,
        }
    }

    /// Builds the info-panel text.
    pub fn info_text(&self) -> (r: String)
        requires
            self.wf(),
        ensures
            r@ == self.info_text_view(),
    {
        match self.items.selected {
            Some(i) => match self.items.items[i].status {
                Status::Available => self.items.items[i].display(),
                Status::NotAvailable => {
                    let mut r = String::from_str("NotAvailable - ");
                    r.append(self.items.items[i].host.as_str());
                    r
                },
            },
            None => String::from_str("Please select the connection"),
        }
    }

    /// Routes one key to the component whose mode is active.
    pub fn handle_event(&mut self, key: Key) -> (act: AppAction)
        requires
            old(self).wf(),
        ensures
            final(self).wf(),
            old(self).mode == Mode::Browsing ==> browsing_step(*old(self), *final(self), key, act),
            old(self).mode == Mode::Editing ==> editing_step(*old(self), *final(self), key, act),
            old(self).mode == Mode::ConfirmingDeletion ==> confirming_step(
                *old(self),
                *final(self),
                key,
                act,
            ),
    {
        match self.mode {
            Mode::Browsing => self.handle_browsing(key),
            Mode::Editing => self.handle_editing(key),
            Mode::ConfirmingDeletion => self.handle_confirming(key),
        }
    }

    /// One browsing step.
    fn handle_browsing(&mut self, key: Key) -> (act: AppAction)
        requires
            old(self).wf(),
            old(self).mode == Mode::Browsing,
        ensures
            final(self).wf(),
            browsing_step(*old(self), *final(self), key, act),
    {
        match key {
            Key::Char(c) => {
                if c == 'q' {
                    AppAction::Quit
                } else if c == 'h' {
                    self.items.unselect();
                    AppAction::Continue
                } else if c == 'j' {
                    self.items.next();
                    AppAction::Continue
                } else if c == 'k' {
                    self.items.previous();
                    AppAction::Continue
                } else if c == 'l' {
                    self.connect_action(false)
                } else if c == 'f' {
                    self.connect_action(true)
                } else if c == 'g' {
                    self.items.go_top();
                    AppAction::Continue
                } else if c == 'G' {
                    self.items.go_bottom();
                    AppAction::Continue
                } else if c == 'n' {
                    self.editor = EditorState::for_create();
                    self.mode = Mode::Editing;
                    AppAction::Continue
                } else if c == 'e' {
                    match self.items.selected {
                        Some(i) => {
                            self.editor = EditorState::for_edit(&self.items.items[i]);
                            self.mode = Mode::Editing;
                        },
                        None => {},
                    }
                    AppAction::Continue
                } else if c == 'd' {
                    if self.items.selected.is_some() {
                        self.mode = Mode::ConfirmingDeletion;
                    }
                    AppAction::Continue
                } else {
                    AppAction::Continue
                }
            },
            Key::Esc => AppAction::Quit,
            Key::Left => {
                self.items.unselect();
                AppAction::Continue
            },
            Key::Down => {
                self.items.next();
                AppAction::Continue
            },
            Key::Up => {
                self.items.previous();
                AppAction::Continue
            },
            Key::Right => self.connect_action(false),
            Key::Enter => self.connect_action(false),
            _ => AppAction::Continue,
        }
    }

    /// The action for a connect key: launch only for a selected,
    /// available item.
    fn connect_action(&self, sshfs: bool) -> (act: AppAction)
        requires
            self.wf(),
        ensures
            connect_step(*self, *self, act, sshfs),
    {
        match self.items.selected {
            Some(i) => {
                if self.items.items[i].status == Status::Available {
                    if sshfs {
                        AppAction::ConnectSshfs(i)
                    } else {
                        AppAction::ConnectSsh(i)
                    }
                } else {
                    AppAction::Continue
                }
            },
            None => AppAction::Continue,
        }
    }

    /// One editing step.
    fn handle_editing(&mut self, key: Key) -> (act: AppAction)
        requires
            old(self).wf(),
            old(self).mode == Mode::Editing,
        ensures
            final(self).wf(),
            editing_step(*old(self), *final(self), key, act),
    {
        match key {
            Key::Esc => {
                self.editor = EditorState::for_create();
                self.mode = Mode::Browsing;
                AppAction::Continue
            },
            Key::Enter => {
                let record = self.editor.record.duplicate();
                let act = match self.editor.mode {
                    EditorMode::Create => AppAction::PersistAppend(record),
                    EditorMode::Edit => AppAction::PersistUpdate(
                        record,
                        self.editor.original_host.clone(),
                    ),
                };
                self.editor = EditorState::for_create();
                self.mode = Mode::Browsing;
                act
            },
            _ => {
                self.editor.handle_key(key);
                AppAction::Continue
            },
        }
    }

    /// One confirming step.
    fn handle_confirming(&mut self, key: Key) -> (act: AppAction)
        requires
            old(self).wf(),
            old(self).mode == Mode::ConfirmingDeletion,
        ensures
            final(self).wf(),
            confirming_step(*old(self), *final(self), key, act),
    {
        let confirmed = match key {
            Key::Char(c) => c == 'y',
            _ => false,
        };
        if confirmed {
            match self.items.selected {
                Some(i) => {
                    self.items.items.remove(i);
                    self.items.selected = None;
                    self.items.last_selected = None;
                    self.items.offset = 0;
                    self.mode = Mode::Browsing;
                    AppAction::PersistAll
                },
                None => {
                    self.mode = Mode::Browsing;
                    AppAction::Continue
                },
            }
        } else {
            self.mode = Mode::Browsing;
            AppAction::Continue
        }
    }
}

} // verus!
