//! The composition engine's interface, as plain values.
//!
//! The backends and the daemon read what the engine decided from these types:
//! the key event that was processed and the state transition it produced.
use vstd::prelude::*;

verus! {

/// The Vietnamese input method the engine composes with.
#[derive(Clone, Copy, Debug, PartialEq, Eq, Structural)]
pub enum InputMethod {
    Telex,
    Vni,
    Viqr,
}

/// A key as the engine sees it.
#[derive(Clone, Copy, Debug, PartialEq, Eq, Structural)]
pub enum Key {
    Char(char),
    Backspace,
    Delete,
    Return,
    Escape,
    Tab,
    Left,
    Up,
    Right,
    Down,
    Home,
    End,
    /// Any other X11 keysym.
    Keysym(u32),
    DeadKey(char),
    ComposeKey,
}

/// Modifier keys held during a key event.
#[derive(Clone, Copy, Debug, PartialEq, Eq, Structural)]
pub struct Modifiers {
    pub shift: bool,
    pub caps_lock: bool,
    pub ctrl: bool,
    pub alt: bool,
    pub altgr: bool,
    pub super_key: bool,
}

impl Modifiers {
    /// No modifier held.
    pub fn none() -> (m: Modifiers)
        ensures
            !m.shift && !m.caps_lock && !m.ctrl && !m.alt && !m.altgr && !m.super_key,
    {
        Modifiers { shift: false, caps_lock: false, ctrl: false, alt: false, altgr: false, super_key: false }
    }
}

/// An input event delivered to the engine.
#[derive(Clone, Copy, Debug, PartialEq, Eq, Structural)]
pub enum InputEvent {
    KeyDown(Key, Modifiers),
    KeyUp(Key),
    KeyRepeat(Key, Modifiers),
    FocusIn,
    FocusOut,
    Reset,
}

/// In-progress preedit text reported by the engine.
#[derive(Clone, Debug)]
pub struct PreeditText {
    pub text: String,
    /// The cursor offset the engine reports with the preedit.
    pub cursor_byte_offset: usize,
}

/// What the engine decided for one input event.
#[derive(Clone, Debug)]
pub enum StateTransition {
    PreeditUpdated(PreeditText),
    Commit(String),
    CommitAndClear(String),
    CommitThenPreedit(String, PreeditText),
    CommitThenPassThrough(String),
    Cleared,
    PassThrough,
    Consumed,
}

/// A composition failure, carrying the engine's own description of it.
#[derive(Clone, Debug)]
pub struct CompositionError {
    pub message: String,
}

/// The engine's answer to one event.
pub type TransitionResult = Result<StateTransition, CompositionError>;

/// The text of a preedit as characters.
pub open spec fn preedit_view(p: PreeditText) -> Seq<char> {
    p.text@
}


/// What the engine decided, with its texts as character sequences.
pub enum TransitionV {
    PreeditUpdated(Seq<char>),
    Commit(Seq<char>),
    CommitAndClear(Seq<char>),
    CommitThenPreedit(Seq<char>, Seq<char>),
    CommitThenPassThrough(Seq<char>),
    Cleared,
    PassThrough,
    Consumed,
    Failed,
}

/// The engine's answer, as [`TransitionV`].
pub open spec fn transition_view(t: TransitionResult) -> TransitionV {
    match t {
        Ok(StateTransition::PreeditUpdated(p)) => TransitionV::PreeditUpdated(p.text@),
        Ok(StateTransition::Commit(c)) => TransitionV::Commit(c@),
        Ok(StateTransition::CommitAndClear(c)) => TransitionV::CommitAndClear(c@),
        Ok(StateTransition::CommitThenPreedit(c, p)) => TransitionV::CommitThenPreedit(c@, p.text@),
        Ok(StateTransition::CommitThenPassThrough(c)) => TransitionV::CommitThenPassThrough(c@),
        Ok(StateTransition::Cleared) => TransitionV::Cleared,
        Ok(StateTransition::PassThrough) => TransitionV::PassThrough,
        Ok(StateTransition::Consumed) => TransitionV::Consumed,
        Err(_) => TransitionV::Failed,
    }
}

} // verus!
