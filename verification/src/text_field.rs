//! The text field's state and the decisions its event handlers make.
use vstd::prelude::*;
use crate::keys::{Key, NamedKey, is_named};
use crate::gestures::EditInteraction;

verus! {

/// The state a text field is drawn from.
#[derive(Debug, Clone, Default, PartialEq, Eq)]
pub struct TextState {
    pub text: String,
    pub editing: bool,
}

impl TextState {
    /// A field showing `text`, not being edited.
    pub fn new(text: &str) -> (s: Self)
        ensures
            s.text@ == text@,
            !s.editing,
    {
        TextState { text: text.to_owned(), editing: false }
    }

    /// The state once the editor's text reads `text`.
    pub fn after_edit(self, text: String) -> (s: Self)
        ensures
            s == (TextState { text, ..self }),
    {
        TextState { text, ..self }
    }

    /// The state once editing began or ended.
    pub fn with_editing(self, editing: bool) -> (s: Self)
        ensures
            s == (TextState { editing, ..self }),
    {
        TextState { editing, ..self }
    }

    /// What a key press does to the field, once `field_key_action` decided
    /// `action` and, for `Edit`, the field's editor handled the key and now
    /// reads `editor_text`:
    /// - `EndEditing`: the editor is closed, the field is no longer edited
    ///   (its text is kept), and `on_edit` is told `End`;
    /// - `Edit`: `on_edit` is told `Update(editor_text)`, then the field's
    ///   text becomes `editor_text`;
    /// - `Ignore`: nothing changes and `on_edit` is not called.
    /// The second result is what `on_edit` is told, if anything.
    pub fn after_key(self, action: FieldKeyAction, editor_text: String) -> (r: (Self, Option<EditInteraction>))
        ensures
            action == FieldKeyAction::EndEditing ==> r == (TextState { editing: false, ..self }, Some(EditInteraction::End)),
            action == FieldKeyAction::Edit ==> r == (TextState { text: editor_text, ..self }, Some(EditInteraction::Update(editor_text))),
            action == FieldKeyAction::Ignore ==> r == (self, None::<EditInteraction>),
    {
        match action {
            FieldKeyAction::EndEditing => (TextState { editing: false, ..self }, Some(EditInteraction::End)),
            FieldKeyAction::Edit => {
                let notice = EditInteraction::Update(editor_text.clone());
                (TextState { text: editor_text, ..self }, Some(notice))
            },
            FieldKeyAction::Ignore => (self, None),
        }
    }

    /// What a click on the field does, given whether some editor is open:
    /// when the field is not being edited and no editor is open, the field
    /// becomes edited and an editor is to be opened on its text (the second
    /// result); otherwise nothing changes.
    pub fn after_field_click(self, editor_open: bool) -> (r: (Self, Option<String>))
        ensures
            (!self.editing && !editor_open) ==> r == (TextState { editing: true, ..self }, Some(self.text)),
            !(!self.editing && !editor_open) ==> r == (self, None::<String>),
    {
        if starts_editing(self.editing, editor_open) {
            let text = self.text.clone();
            (TextState { editing: true, ..self }, Some(text))
        } else {
            (self, None)
        }
    }

    /// What a click away from the field does, given the id of the open
    /// editor: when the field's own editor is open, the editor is closed,
    /// the field is no longer edited and `on_edit` is told `End` (the second
    /// result); otherwise nothing changes.
    pub fn after_click_outside(self, editor_id: Option<u64>, field: u64) -> (r: (Self, Option<EditInteraction>))
        ensures
            editor_id == Some(field) ==> r == (TextState { editing: false, ..self }, Some(EditInteraction::End)),
            editor_id != Some(field) ==> r == (self, None::<EditInteraction>),
    {
        if editor_belongs(editor_id, field) {
            (TextState { editing: false, ..self }, Some(EditInteraction::End))
        } else {
            (self, None)
        }
    }
}

/// The open text editor: the field it belongs to, whether it is editing,
/// the text it was opened on and the fills of its caret and selection.
#[derive(Debug, Clone, PartialEq, Eq)]
pub struct EditSession<B> {
    pub id: u64,
    pub editing: bool,
    pub text: String,
    pub cursor_fill: B,
    pub highlight_fill: B,
}

/// Opens an editor for field `id` on `text`: only when no editor is open
/// (the first one wins) and the field's area is known from the last draw;
/// otherwise the open editor, or none, stays as it is.
pub fn begin_editing<B>(current: Option<EditSession<B>>, area_known: bool, id: u64, text: String, cursor_fill: B, highlight_fill: B) -> (r: Option<EditSession<B>>)
    ensures
        (current is Some || !area_known) ==> r == current,
        (current is None && area_known) ==> r == Some(EditSession { id, editing: true, text, cursor_fill, highlight_fill }),
{
    if may_begin_editing(current.is_some(), area_known) {
        Some(EditSession { id, editing: true, text, cursor_fill, highlight_fill })
    } else {
        current
    }
}

/// Whether a key press ends editing: Enter when the field ends editing on
/// Enter, Escape when it ends editing on Escape.
pub fn ends_editing(key: &Key, enter_end_editing: bool, esc_end_editing: bool) -> (end: bool)
    ensures
        end == ((enter_end_editing && *key == Key::Named(NamedKey::Enter))
            || (esc_end_editing && *key == Key::Named(NamedKey::Escape))),
{
    (enter_end_editing && is_named(key, NamedKey::Enter))
        || (esc_end_editing && is_named(key, NamedKey::Escape))
}

/// What a text field does with a key press.
#[derive(Debug, Clone, Copy, PartialEq, Eq, Structural)]
pub enum FieldKeyAction {
    /// Close the editor, clear the field's editing flag, report the end.
    EndEditing,
    /// Hand the key to the field's editor, then take over and report the
    /// editor's text.
    Edit,
    /// The open editor, if any, belongs to another field.
    Ignore,
}

/// What a text field with id `field` does with a key press, given the id of
/// the open editor: an ending key ends editing; otherwise the key edits the
/// text when the open editor is the field's own.
pub fn field_key_action(key: &Key, enter_end_editing: bool, esc_end_editing: bool, editor_id: Option<u64>, field: u64) -> (action: FieldKeyAction)
    ensures
        action == (if (enter_end_editing && *key == Key::Named(NamedKey::Enter))
            || (esc_end_editing && *key == Key::Named(NamedKey::Escape)) {
            FieldKeyAction::EndEditing
        } else if editor_id == Some(field) {
            FieldKeyAction::Edit
        } else {
            FieldKeyAction::Ignore
        }),
{
    if ends_editing(key, enter_end_editing, esc_end_editing) {
        FieldKeyAction::EndEditing
    } else if editor_belongs(editor_id, field) {
        FieldKeyAction::Edit
    } else {
        FieldKeyAction::Ignore
    }
}

/// Whether an editor may be opened for a field: no editor is open and the
/// field's area is known from the last draw.
pub fn may_begin_editing(editor_open: bool, area_known: bool) -> (begin: bool)
    ensures
        begin == (!editor_open && area_known),
{
    !editor_open && area_known
}

/// Whether a click on the field starts editing: only when the field is not
/// being edited and no other editor is open.
pub fn starts_editing(editing: bool, editor_open: bool) -> (start: bool)
    ensures
        start == (!editing && !editor_open),
{
    !editing && !editor_open
}

/// Whether an event concerns the open editor: it is open and belongs to the
/// field with id `field`.
pub fn editor_belongs(editor_id: Option<u64>, field: u64) -> (owned: bool)
    ensures
        owned == (editor_id == Some(field)),
{
    match editor_id {
        Some(id) => id == field,
        None => false,
    }
}

} // verus!
