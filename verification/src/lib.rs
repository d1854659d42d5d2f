//! State, event and identity logic of a declarative UI toolkit: widget state
//! machines, gesture routing, keyboard editing commands, value bindings and
//! view ids.
use vstd::prelude::*;

pub mod binding;
pub mod button;
pub mod dispatch;
pub mod dropdown;
pub mod editor;
pub mod gestures;
pub mod id;
pub mod image;
pub mod keys;
pub mod redraw;
pub mod segment_picker;
pub mod shader;
pub mod text_field;
pub mod toggle;
pub mod windows;

pub use binding::Binding;
pub use button::ButtonState;
pub use dispatch::GestureState;
pub use dropdown::DropdownState;
pub use editor::{ClickSelection, EditorState};
pub use gestures::{ClickState, EditInteraction};
pub use id::const_hash;
pub use image::ImageSource;
pub use keys::{EditCommand, Key, Modifiers, NamedKey};
pub use segment_picker::{Orientation, SegmentPickerState};
pub use text_field::TextState;
pub use toggle::ToggleState;
pub use windows::Window;

verus! {

/// The font size of text that sets none.
pub const DEFAULT_FONT_SIZE: u32 = 14u32;

} // verus!
