use vstd::prelude::*;

verus! {

/// A single key event read from the terminal by the interaction loop.
///
/// `Char` carries a printable character; control keys get their own
/// variants. Anything the engine does not react to arrives as `Other`.
#[derive(Clone, Copy, PartialEq, Eq, Structural, Debug)]
pub enum KeyEvent {
    Char(char),
    Enter,
    Escape,
    Backspace,
    ArrowUp,
    ArrowDown,
    ArrowLeft,
    ArrowRight,
    Tab,
    CtrlC,
    Other,
}

/// The classification of a prompt's state: `Active` is the only
/// non-terminal state; `Submitted` and `Cancelled` are terminal.
#[derive(Clone, Copy, PartialEq, Eq, Structural, Debug)]
pub enum Outcome {
    Active,
    Submitted,
    Cancelled,
}

} // verus!
