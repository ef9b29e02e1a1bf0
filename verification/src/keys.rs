use vstd::prelude::*;

verus! {

/// The shift key, as a bit of a modifier set.
pub const SHIFT: u8 = 0b0000_0001;

/// The control key, as a bit of a modifier set.
pub const CONTROL: u8 = 0b0000_0010;

/// The alt key, as a bit of a modifier set.
pub const ALT: u8 = 0b0000_0100;

/// The super key, as a bit of a modifier set.
pub const SUPER: u8 = 0b0000_1000;

/// The hyper key, as a bit of a modifier set.
pub const HYPER: u8 = 0b0001_0000;

/// The meta key, as a bit of a modifier set.
pub const META: u8 = 0b0010_0000;

/// The modifier keys held with a key, one bit for each, laid out as the
/// terminal library reports them.
#[derive(Clone, Copy, Debug, PartialEq, Eq, Structural)]
pub struct KeyModifiers {
    pub bits: u8,
}

impl KeyModifiers {
    /// Whether every modifier of `flags` is in the set.
    pub open spec fn holds(self, flags: u8) -> bool {
        self.bits & flags == flags
    }

    /// Whether every modifier of `flags` is in the set.
    pub fn contains(&self, flags: u8) -> (held: bool)
        ensures
            held == self.holds(flags),
    {
        self.bits & flags == flags
    }
}

/// What the session reads of a key: the character it types, if it types one.
#[derive(Clone, Copy, Debug, PartialEq, Eq, Structural)]
pub enum KeyCode {
    Char(char),
    Other,
}

/// A key press as the session reads it: the key, and the modifiers held with
/// it.
#[derive(Clone, Copy, Debug, PartialEq, Eq, Structural)]
pub struct KeyInput {
    pub code: KeyCode,
    pub modifiers: KeyModifiers,
}

/// What a key press asks of the session.
#[derive(Clone, Copy, Debug, PartialEq, Eq, Structural)]
pub enum KeyAction {
    /// Write the text to the file.
    Save,
    /// Close the overlay, subject to the discard confirmation.
    Close,
    /// Hand the key to the text primitive as an edit.
    Edit,
}

impl KeyInput {
    /// Whether a primary accelerator, the control key or the super key, is
    /// held.
    pub open spec fn accelerated(self) -> bool {
        self.modifiers.holds(CONTROL) || self.modifiers.holds(SUPER)
    }

    /// What the key asks for. With an accelerator held, `s` and `S` save and
    /// `c` and `C` close. Every other key is an edit, an accelerated one too.
    pub open spec fn action(self) -> KeyAction {
        if self.accelerated() && (self.code == KeyCode::Char('s') || self.code == KeyCode::Char(
            'S',
        )) {
            KeyAction::Save
        } else if self.accelerated() && (self.code == KeyCode::Char('c') || self.code
            == KeyCode::Char('C')) {
            KeyAction::Close
        } else {
            KeyAction::Edit
        }
    }

    /// Sorts the key press into save, close or edit.
    pub fn classify(&self) -> (action: KeyAction)
        ensures
            action == self.action(),
    {
        if self.modifiers.contains(CONTROL) || self.modifiers.contains(SUPER) {
            match self.code {
                KeyCode::Char('s') | KeyCode::Char('S') => {
                    return KeyAction::Save;
                },
                KeyCode::Char('c') | KeyCode::Char('C') => {
                    return KeyAction::Close;
                },
                _ => {},
            }
        }
        KeyAction::Edit
    }
}

/// A key press with the control key or the super key among its modifiers is
/// accelerated, whatever else is held; one with neither is not.
pub proof fn accelerators_are_control_and_super(key: KeyInput)
    ensures
        key.accelerated() <==> (key.modifiers.bits & 0b0000_1010) != 0,
{
    let bits = key.modifiers.bits;
    assert((bits & 0b0000_0010 == 0b0000_0010 || bits & 0b0000_1000 == 0b0000_1000) <==> (bits
        & 0b0000_1010) != 0) by (bit_vector);
}

} // verus!
