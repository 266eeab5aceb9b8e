//! The input mapper: a total function from one keyboard event to the
//! text-model mutation it commands and whether a redraw must follow.

use crate::text::EditCommand;
use vstd::prelude::*;

verus! {

/// A named (non-printable) key, as the mapper cares about it:
/// backspace and escape are special; any other named key carries its
/// textual form when it has one.
pub enum NamedKeyInput {
    /// The backspace key.
    Backspace,
    /// The escape key.
    Escape,
    /// Any other named key, with its textual form if it has one.
    Other { text: Option<String> },
}

/// The logical content of one keyboard event.
pub enum KeyInput {
    /// A printable character sequence.
    Character(String),
    /// A named key such as backspace, escape or an arrow.
    Named(NamedKeyInput),
    /// A key the windowing system could not identify; reported for
    /// diagnostics only.
    Unidentified,
}

/// What the mapper decides: the text mutation to apply, if any, and
/// whether the pipeline must redraw afterwards.
pub struct MappedInput {
    /// The mutation the text model is to apply.
    pub command: Option<EditCommand>,
    /// Whether a redraw must follow.
    pub redraw: bool,
}

impl MappedInput {
    /// No mutation and no redraw: the event is ignored.
    pub open spec fn is_ignored(self) -> bool {
        self.command is None && !self.redraw
    }
}

/// Maps one keyboard event. Only a pressed key acts: a release is
/// ignored. A printable character is appended; backspace deletes the
/// last character; escape clears the line; any other named key
/// appends its textual form, or nothing when it has none; an
/// unidentified key is ignored.
pub fn map_key(key: KeyInput, pressed: bool) -> (r: MappedInput)
    ensures
        !pressed ==> r.is_ignored(),
        pressed ==> (key matches KeyInput::Character(t) ==> r.redraw && r.command == Some(
            EditCommand::Append(t),
        )),
        pressed ==> (key matches KeyInput::Named(NamedKeyInput::Backspace) ==> r.redraw
            && r.command == Some(EditCommand::DeleteLast)),
        pressed ==> (key matches KeyInput::Named(NamedKeyInput::Escape) ==> r.redraw && r.command
            == Some(EditCommand::Clear)),
        pressed ==> (key matches KeyInput::Named(NamedKeyInput::Other { text: Some(t) })
            ==> r.redraw && r.command == Some(EditCommand::Append(t))),
        pressed ==> (key matches KeyInput::Named(NamedKeyInput::Other { text: None }) ==> r.redraw
            && (r.command matches Some(EditCommand::Append(e)) && e@ == Seq::<char>::empty())),
        pressed && key is Unidentified ==> r.is_ignored(),
{
    if !pressed {
        return MappedInput { command: None, redraw: false };
    }
    match key {
        KeyInput::Character(t) => MappedInput {
            command: Some(EditCommand::Append(t)),
            redraw: true,
        },
        KeyInput::Named(NamedKeyInput::Backspace) => MappedInput {
            command: Some(EditCommand::DeleteLast),
            redraw: true,
        },
        KeyInput::Named(NamedKeyInput::Escape) => MappedInput {
            command: Some(EditCommand::Clear),
            redraw: true,
        },
        KeyInput::Named(NamedKeyInput::Other { text: Some(t) }) => MappedInput {
            command: Some(EditCommand::Append(t)),
            redraw: true,
        },
        KeyInput::Named(NamedKeyInput::Other { text: None }) => MappedInput {
            command: Some(EditCommand::Append(String::new())),
            redraw: true,
        },
        KeyInput::Unidentified => MappedInput { command: None, redraw: false },
    }
}

} // verus!
