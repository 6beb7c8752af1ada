//! The record editor: five labeled text buffers, one active field, and
//! per-key transitions.

use vstd::prelude::*;

use crate::model::{blank_record_view, stored_view, ConnectionItem, StoredConnection, StoredConnectionView};
use crate::text::pop_text;

verus! {

/// A terminal input event, reduced to what the dispatcher reads.
#[derive(Clone, Copy, PartialEq, Eq, Structural, Debug)]
pub enum Key {
    Char(char),
    Backspace,
    Tab,
    Enter,
    Esc,
    Up,
    Down,
    Left,
    Right,
    Other,
}

/// The editor field that receives typed characters.
#[derive(Clone, Copy, PartialEq, Eq, Structural, Debug)]
pub enum InputMode {
    Label,
    Host,
    Port,
    User,
    Password,
}

/// Whether the editor will append or replace on commit.
#[derive(Clone, Copy, PartialEq, Eq, Structural, Debug)]
pub enum EditorMode {
    Create,
    Edit,
}

/// The field after the given one in the fixed ring
/// Label, Host, Port, User, Password, and around again.
pub open spec fn field_after_tab(f: InputMode) -> InputMode {
    match f {
        InputMode::Label => InputMode::Host,
        InputMode::Host => InputMode::Port,
        InputMode::Port => InputMode::User,
        InputMode::User => InputMode::Password,
        InputMode::Password => InputMode::Label,
    }
}

/// An optional buffer with a character appended: an absent buffer starts
/// from empty text.
pub open spec fn push_opt(b: Option<Seq<char>>, c: char) -> Option<Seq<char>> {
    match b {
        Some(s) => Some(s.push(c)),
        None => Some(seq![c]),
    }
}

/// An optional buffer with its last character removed: an absent or
/// empty buffer is left alone.
pub open spec fn pop_opt(b: Option<Seq<char>>) -> Option<Seq<char>> {
    match b {
        Some(s) => Some(pop_text(s)),
        None => None,
    }
}

/// The record with the character appended to the active field's buffer.
pub open spec fn record_with_char(
    r: StoredConnectionView,
    f: InputMode,
    c: char,
) -> StoredConnectionView {
    match f {
        InputMode::Label => StoredConnectionView { label: r.label.push(c), ..r },
        InputMode::Host => StoredConnectionView { host: r.host.push(c), ..r },
        InputMode::Port => StoredConnectionView { port: push_opt(r.port, c), ..r },
        InputMode::User => StoredConnectionView { user: push_opt(r.user, c), ..r },
        InputMode::Password => StoredConnectionView { password: push_opt(r.password, c), ..r },
    }
}

/// The record with the last character of the active field's buffer removed.
pub open spec fn record_with_backspace(r: StoredConnectionView, f: InputMode) -> StoredConnectionView {
    match f {
        InputMode::Label => StoredConnectionView { label: pop_text(r.label), ..r },
        InputMode::Host => StoredConnectionView { host: pop_text(r.host), ..r },
        InputMode::Port => StoredConnectionView { port: pop_opt(r.port), ..r },
        InputMode::User => StoredConnectionView { user: pop_opt(r.user), ..r },
        InputMode::Password => StoredConnectionView { password: pop_opt(r.password), ..r },
    }
}

/// The editor's working state while the popup is open.
pub struct EditorState {
    pub record: StoredConnection,
    pub active_field: InputMode,
    pub mode: EditorMode,
    pub original_host: String,
}

/// Mathematical view of the editor state.
pub struct EditorStateView {
    pub record: StoredConnectionView,
    pub active_field: InputMode,
    pub mode: EditorMode,
    pub original_host: Seq<char>,
}

impl View for EditorState {
    type V = EditorStateView;

    open spec fn view(&self) -> EditorStateView {
        EditorStateView {
            record: self.record@,
            active_field: self.active_field,
            mode: self.mode,
            original_host: self.original_host@,
        }
    }
}

/// The editor as it opens for a new record: blank buffers with the
/// default port, the label field active.
pub open spec fn editor_create_view() -> EditorStateView {
    EditorStateView {
        record: blank_record_view(),
        active_field: InputMode::Label,
        mode: EditorMode::Create,
        original_host: Seq::<char>::empty(),
    }
}

/// The editor as it opens on a selected item: every buffer seeded from
/// the item, and the item's host remembered as the update key.
pub open spec fn editor_edit_view(item: crate::model::ConnectionItemView) -> EditorStateView {
    EditorStateView {
        record: stored_view(item),
        active_field: InputMode::Label,
        mode: EditorMode::Edit,
        original_host: item.host,
    }
}

/// One editor step: typing extends the active buffer, backspace shortens
/// it, tab moves to the next field, and every other key is ignored here.
pub open spec fn editor_step(e: EditorStateView, k: Key) -> EditorStateView {
    match k {
        Key::Char(c) => EditorStateView {
            record: record_with_char(e.record, e.active_field, c),
            ..e
        },
        Key::Backspace => EditorStateView {
            record: record_with_backspace(e.record, e.active_field),
            ..e
        },
        Key::Tab => EditorStateView { active_field: field_after_tab(e.active_field), ..e },
        _ => e,
    }
}

impl InputMode {
    /// Moves to the next field in the ring.
    pub fn advance(self) -> (r: InputMode)
        ensures
            r == field_after_tab(self),
    {
        match self {
            InputMode::Label => InputMode::Host,
            InputMode::Host => InputMode::Port,
            InputMode::Port => InputMode::User,
            InputMode::User => InputMode::Password,
            InputMode::Password => InputMode::Label,
        }
    }
}

impl EditorState {
    /// Opens the editor blank, for a record to be appended.
    pub fn for_create() -> (r: EditorState)
        ensures
            r@ == editor_create_view(),
    {
        EditorState {
            record: StoredConnection::new(),
            active_field: InputMode::Label,
            mode: EditorMode::Create,
            original_host: String::new(),
        }
    }

    /// Opens the editor seeded from the selected item, for a record to be
    /// replaced in place under its host at the time the editor opened.
    pub fn for_edit(item: &ConnectionItem) -> (r: EditorState)
        ensures
            r@ == editor_edit_view(item@),
    {
        EditorState {
            record: item.duplicate().into_stored(),
            active_field: InputMode::Label,
            mode: EditorMode::Edit,
            original_host: item.host.clone(),
        }
    }

    /// Applies one key to the editor.
    pub fn handle_key(&mut self, key: Key)
        ensures
            final(self)@ == editor_step(old(self)@, key),
    {
        match key {
            Key::Char(c) => match self.active_field {
                InputMode::Label => self.record.label.push(c),
                InputMode::Host => self.record.host.push(c),
                InputMode::Port => push_optional(&mut self.record.port, c),
                InputMode::User => push_optional(&mut self.record.user, c),
                InputMode::Password => push_optional(&mut self.record.password, c),
            },
            Key::Backspace => match self.active_field {
                InputMode::Label => {
                    self.record.label.pop();
                },
                InputMode::Host => {
                    self.record.host.pop();
                },
                InputMode::Port => pop_optional(&mut self.record.port),
                InputMode::User => pop_optional(&mut self.record.user),
                InputMode::Password => pop_optional(&mut self.record.password),
            },
            Key::Tab => {
                self.active_field = self.active_field.advance();
            },
            _ => {},
        }
    }
}

/// Appends a character to an optional buffer, creating it when absent.
fn push_optional(field: &mut Option<String>, c: char)
    ensures
        final(field).deep_view() == push_opt(old(field).deep_view(), c),
{
    proof {
        assert(Seq::<char>::empty().push(c) =~= seq![c]);
    }
    if field.is_none() {
        *field = Some(String::new());
    }
    match field {
        Some(s) => s.push(c),
        None => {},
    }
}

/// Removes the last character of an optional buffer, when there is one.
fn pop_optional(field: &mut Option<String>)
    ensures
        final(field).deep_view() == pop_opt(old(field).deep_view()),
{
    match field {
        Some(s) => {
            s.pop();
        },
        None => {},
    }
}

/// Five tab presses walk the whole field ring: from any state, they
/// return the editor, its active field included, to exactly where it was.
pub proof fn lemma_five_tabs(e: EditorStateView)
    ensures
        editor_step(
            editor_step(editor_step(editor_step(editor_step(e, Key::Tab), Key::Tab), Key::Tab), Key::Tab),
            Key::Tab,
        ) == e,
{
}

} // verus!
