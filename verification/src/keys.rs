//! Keyboard input: keys, modifier state, and the editing command that a key
//! press asks of a text editor.
use vstd::prelude::*;
use vstd::string::StrSliceExecFns;

verus! {

/// The named (non-character) keys that the toolkit tells apart.
#[derive(Debug, Clone, Copy, PartialEq, Eq, Hash, PartialOrd, Ord, Structural)]
pub enum NamedKey {
    ArrowLeft,
    ArrowRight,
    ArrowUp,
    ArrowDown,
    Home,
    End,
    PageUp,
    PageDown,
    Delete,
    Backspace,
    Insert,
    Enter,
    Space,
    Tab,
    Escape,
    Shift,
    Control,
    Alt,
    Super,
    CapsLock,
    /// Any other named key.
    Other,
}

/// A key press: a named key, or the text that a character key produced.
#[derive(Debug, Clone, PartialEq, Eq, Hash, PartialOrd, Ord)]
pub enum Key {
    Named(NamedKey),
    Character(String),
}

/// Whether a key is the given named key.
pub fn is_named(key: &Key, named: NamedKey) -> (r: bool)
    ensures
        r == (key == &Key::Named(named)),
{
    match key {
        Key::Named(k) => *k == named,
        Key::Character(_) => false,
    }
}

/// The modifier keys held during a key press.
#[derive(Debug, Clone, Copy, Default, PartialEq, Eq, Structural)]
pub struct Modifiers {
    pub shift: bool,
    pub control: bool,
    pub alt: bool,
    pub super_key: bool,
}

/// What the platform offers that changes how keys are read.
#[derive(Debug, Clone, Copy, PartialEq, Eq, Structural)]
pub struct Platform {
    /// The command modifier is Super (macOS) rather than Control.
    pub macos: bool,
    /// A system clipboard is available (Windows, macOS, Linux).
    pub clipboard: bool,
}

/// The modifier flags an editing command looks at.
#[derive(Debug, Clone, Copy, PartialEq, Eq, Structural)]
pub struct KeyFlags {
    pub shift: bool,
    /// The platform's command modifier.
    pub action: bool,
    pub alt: bool,
}

pub open spec fn spec_key_flags(mods: Option<Modifiers>, platform: Platform) -> KeyFlags {
    match mods {
        Some(m) => KeyFlags {
            shift: m.shift,
            action: if platform.macos { m.super_key } else { m.control },
            alt: m.alt,
        },
        None => KeyFlags { shift: false, action: false, alt: false },
    }
}

/// The flags of a modifier state; no state means no modifier held.
pub fn key_flags(mods: Option<Modifiers>, platform: Platform) -> (f: KeyFlags)
    ensures
        f == spec_key_flags(mods, platform),
{
    match mods {
        Some(m) => KeyFlags {
            shift: m.shift,
            action: if platform.macos { m.super_key } else { m.control },
            alt: m.alt,
        },
        None => KeyFlags { shift: false, action: false, alt: false },
    }
}

/// The editing command a key press asks for.
#[derive(Debug, Clone, PartialEq, Eq)]
pub enum EditCommand {
    Copy,
    Cut,
    Paste,
    SelectAll,
    CollapseSelection,
    MoveLeft,
    SelectLeft,
    MoveRight,
    SelectRight,
    MoveWordLeft,
    SelectWordLeft,
    MoveWordRight,
    SelectWordRight,
    MoveUp,
    SelectUp,
    MoveDown,
    SelectDown,
    MoveToLineStart,
    SelectToLineStart,
    MoveToLineEnd,
    SelectToLineEnd,
    MoveToTextStart,
    SelectToTextStart,
    MoveToTextEnd,
    SelectToTextEnd,
    Delete,
    DeleteWord,
    Backdelete,
    BackdeleteWord,
    /// Select to the start of the line, then delete the selection.
    DeleteToLineStart,
    InsertNewline,
    InsertSpace,
    Insert(String),
    Nothing,
}

pub open spec fn is_char(s: Seq<char>, c: char) -> bool {
    s.len() == 1 && s[0] == c
}

/// A clipboard shortcut letter: exactly "c", "x" or "v".
pub open spec fn is_clipboard_letter(s: Seq<char>) -> bool {
    is_char(s, 'c') || is_char(s, 'x') || is_char(s, 'v')
}

/// Text whose lower case is "a".
pub open spec fn is_select_all_letter(s: Seq<char>) -> bool {
    is_char(s, 'a') || is_char(s, 'A')
}

pub open spec fn spec_named_command(named: NamedKey, f: KeyFlags) -> EditCommand {
    match named {
        NamedKey::ArrowLeft => if f.action {
            if f.shift { EditCommand::SelectToLineStart } else { EditCommand::MoveToLineStart }
        } else if f.alt {
            if f.shift { EditCommand::SelectWordLeft } else { EditCommand::MoveWordLeft }
        } else if f.shift {
            EditCommand::SelectLeft
        } else {
            EditCommand::MoveLeft
        },
        NamedKey::ArrowRight => if f.action {
            if f.shift { EditCommand::SelectToLineEnd } else { EditCommand::MoveToLineEnd }
        } else if f.alt {
            if f.shift { EditCommand::SelectWordRight } else { EditCommand::MoveWordRight }
        } else if f.shift {
            EditCommand::SelectRight
        } else {
            EditCommand::MoveRight
        },
        NamedKey::ArrowUp => if f.action {
            if f.shift { EditCommand::SelectToTextStart } else { EditCommand::MoveToTextStart }
        } else if f.shift {
            EditCommand::SelectUp
        } else {
            EditCommand::MoveUp
        },
        NamedKey::ArrowDown => if f.action {
            if f.shift { EditCommand::SelectToTextEnd } else { EditCommand::MoveToTextEnd }
        } else if f.shift {
            EditCommand::SelectDown
        } else {
            EditCommand::MoveDown
        },
        NamedKey::Home => if f.action {
            if f.shift { EditCommand::SelectToTextStart } else { EditCommand::MoveToTextStart }
        } else if f.shift {
            EditCommand::SelectToLineStart
        } else {
            EditCommand::MoveToLineStart
        },
        NamedKey::End => if f.action {
            if f.shift { EditCommand::SelectToTextEnd } else { EditCommand::MoveToTextEnd }
        } else if f.shift {
            EditCommand::SelectToLineEnd
        } else {
            EditCommand::MoveToLineEnd
        },
        NamedKey::Delete => if f.action { EditCommand::DeleteWord } else { EditCommand::Delete },
        NamedKey::Backspace => if f.action {
            EditCommand::DeleteToLineStart
        } else if f.alt {
            EditCommand::BackdeleteWord
        } else {
            EditCommand::Backdelete
        },
        NamedKey::Enter => EditCommand::InsertNewline,
        NamedKey::Space => EditCommand::InsertSpace,
        _ => EditCommand::Nothing,
    }
}

pub open spec fn spec_character_command(text: String, f: KeyFlags, platform: Platform) -> EditCommand {
    if platform.clipboard && f.action && is_clipboard_letter(text@) {
        if is_char(text@, 'c') {
            EditCommand::Copy
        } else if is_char(text@, 'x') {
            EditCommand::Cut
        } else {
            EditCommand::Paste
        }
    } else if f.action && is_select_all_letter(text@) {
        if f.shift { EditCommand::CollapseSelection } else { EditCommand::SelectAll }
    } else {
        EditCommand::Insert(text)
    }
}

/// The editing command for a key pressed with the given modifiers.
pub open spec fn spec_key_command(key: Key, mods: Option<Modifiers>, platform: Platform) -> EditCommand {
    let f = spec_key_flags(mods, platform);
    match key {
        Key::Named(named) => spec_named_command(named, f),
        Key::Character(text) => spec_character_command(text, f, platform),
    }
}

/// The selecting counterpart of a caret motion.
pub open spec fn selecting(c: EditCommand) -> EditCommand {
    match c {
        EditCommand::MoveLeft => EditCommand::SelectLeft,
        EditCommand::MoveRight => EditCommand::SelectRight,
        EditCommand::MoveWordLeft => EditCommand::SelectWordLeft,
        EditCommand::MoveWordRight => EditCommand::SelectWordRight,
        EditCommand::MoveUp => EditCommand::SelectUp,
        EditCommand::MoveDown => EditCommand::SelectDown,
        EditCommand::MoveToLineStart => EditCommand::SelectToLineStart,
        EditCommand::MoveToLineEnd => EditCommand::SelectToLineEnd,
        EditCommand::MoveToTextStart => EditCommand::SelectToTextStart,
        EditCommand::MoveToTextEnd => EditCommand::SelectToTextEnd,
        other => other,
    }
}

pub open spec fn is_motion_key(k: NamedKey) -> bool {
    k == NamedKey::ArrowLeft || k == NamedKey::ArrowRight || k == NamedKey::ArrowUp
        || k == NamedKey::ArrowDown || k == NamedKey::Home || k == NamedKey::End
}

/// For the arrow, Home and End keys, holding Shift selects over exactly the
/// motion the key makes without Shift.
pub proof fn lemma_shift_selects_motion(k: NamedKey, mods: Modifiers, platform: Platform)
    requires
        is_motion_key(k),
    ensures
        spec_key_command(Key::Named(k), Some(Modifiers { shift: true, ..mods }), platform)
            == selecting(spec_key_command(Key::Named(k), Some(Modifiers { shift: false, ..mods }), platform)),
{
}

/// Shift does not change what Backspace or Delete does. Backspace deletes
/// one character back, a word back with Alt, and everything back to the line
/// start with the platform's command key (Super on macOS, Control
/// elsewhere); Delete deletes one character forward, or a word with the
/// command key. With no modifier state known, they delete one character.
pub proof fn lemma_deletion_keys(mods: Modifiers, platform: Platform)
    ensures
        spec_key_command(Key::Named(NamedKey::Backspace), Some(Modifiers { shift: true, ..mods }), platform)
            == spec_key_command(Key::Named(NamedKey::Backspace), Some(Modifiers { shift: false, ..mods }), platform),
        spec_key_command(Key::Named(NamedKey::Delete), Some(Modifiers { shift: true, ..mods }), platform)
            == spec_key_command(Key::Named(NamedKey::Delete), Some(Modifiers { shift: false, ..mods }), platform),
        spec_key_command(Key::Named(NamedKey::Backspace), Some(mods), platform) == (
            if (if platform.macos { mods.super_key } else { mods.control }) {
                EditCommand::DeleteToLineStart
            } else if mods.alt {
                EditCommand::BackdeleteWord
            } else {
                EditCommand::Backdelete
            }),
        spec_key_command(Key::Named(NamedKey::Delete), Some(mods), platform) == (
            if (if platform.macos { mods.super_key } else { mods.control }) {
                EditCommand::DeleteWord
            } else {
                EditCommand::Delete
            }),
        spec_key_command(Key::Named(NamedKey::Backspace), None, platform) == EditCommand::Backdelete,
        spec_key_command(Key::Named(NamedKey::Delete), None, platform) == EditCommand::Delete,
{
}

/// Whether `s` is the single character `c`.
fn single_char(s: &str, c: char) -> (r: bool)
    ensures
        r == is_char(s@, c),
{
    s.unicode_len() == 1 && s.get_char(0) == c
}

fn named_command(named: NamedKey, f: KeyFlags) -> (c: EditCommand)
    ensures
        c == spec_named_command(named, f),
{
    match named {
        NamedKey::ArrowLeft => if f.action {
            if f.shift { EditCommand::SelectToLineStart } else { EditCommand::MoveToLineStart }
        } else if f.alt {
            if f.shift { EditCommand::SelectWordLeft } else { EditCommand::MoveWordLeft }
        } else if f.shift {
            EditCommand::SelectLeft
        } else {
            EditCommand::MoveLeft
        },
        NamedKey::ArrowRight => if f.action {
            if f.shift { EditCommand::SelectToLineEnd } else { EditCommand::MoveToLineEnd }
        } else if f.alt {
            if f.shift { EditCommand::SelectWordRight } else { EditCommand::MoveWordRight }
        } else if f.shift {
            EditCommand::SelectRight
        } else {
            EditCommand::MoveRight
        },
        NamedKey::ArrowUp => if f.action {
            if f.shift { EditCommand::SelectToTextStart } else { EditCommand::MoveToTextStart }
        } else if f.shift {
            EditCommand::SelectUp
        } else {
            EditCommand::MoveUp
        },
        NamedKey::ArrowDown => if f.action {
            if f.shift { EditCommand::SelectToTextEnd } else { EditCommand::MoveToTextEnd }
        } else if f.shift {
            EditCommand::SelectDown
        } else {
            EditCommand::MoveDown
        },
        NamedKey::Home => if f.action {
            if f.shift { EditCommand::SelectToTextStart } else { EditCommand::MoveToTextStart }
        } else if f.shift {
            EditCommand::SelectToLineStart
        } else {
            EditCommand::MoveToLineStart
        },
        NamedKey::End => if f.action {
            if f.shift { EditCommand::SelectToTextEnd } else { EditCommand::MoveToTextEnd }
        } else if f.shift {
            EditCommand::SelectToLineEnd
        } else {
            EditCommand::MoveToLineEnd
        },
        NamedKey::Delete => if f.action { EditCommand::DeleteWord } else { EditCommand::Delete },
        NamedKey::Backspace => if f.action {
            EditCommand::DeleteToLineStart
        } else if f.alt {
            EditCommand::BackdeleteWord
        } else {
            EditCommand::Backdelete
        },
        NamedKey::Enter => EditCommand::InsertNewline,
        NamedKey::Space => EditCommand::InsertSpace,
        _ => EditCommand::Nothing,
    }
}

fn character_command(text: &String, f: KeyFlags, platform: Platform) -> (c: EditCommand)
    ensures
        c == spec_character_command(*text, f, platform),
{
    let s = text.as_str();
    let is_c = single_char(s, 'c');
    let is_x = single_char(s, 'x');
    let is_v = single_char(s, 'v');
    if platform.clipboard && f.action && (is_c || is_x || is_v) {
        if is_c {
            EditCommand::Copy
        } else if is_x {
            EditCommand::Cut
        } else {
            EditCommand::Paste
        }
    } else if f.action && (single_char(s, 'a') || single_char(s, 'A')) {
        if f.shift { EditCommand::CollapseSelection } else { EditCommand::SelectAll }
    } else {
        EditCommand::Insert(text.clone())
    }
}

/// The editing command that pressing `key` with `mods` held asks of a text
/// editor: clipboard shortcuts, select-all, caret movement and selection by
/// character, word, line and whole text, deletion, and insertion.
pub fn key_command(key: &Key, mods: Option<Modifiers>, platform: Platform) -> (c: EditCommand)
    ensures
        c == spec_key_command(*key, mods, platform),
{
    let f = key_flags(mods, platform);
    match key {
        Key::Named(named) => named_command(*named, f),
        Key::Character(text) => character_command(text, f, platform),
    }
}

} // verus!
