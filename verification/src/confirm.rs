use vstd::prelude::*;

use crate::key::KeyEvent;
use crate::key::Outcome;
verus! {

/// True when the key is one of Confirm's immediate yes/no answers.
pub open spec fn spec_is_confirm_shortcut(key: KeyEvent) -> bool {
    key == KeyEvent::Char('y') || key == KeyEvent::Char('Y') || key == KeyEvent::Char('n')
        || key == KeyEvent::Char('N')
}

/// A yes/no prompt over a boolean.
///
/// `y`/`Y` and `n`/`N` answer and submit in one keystroke, without Enter;
/// the arrow keys and Tab toggle; Enter submits the current value. Confirm
/// has no validation step: a submission request always succeeds.
pub struct Confirm {
    prompt: String,
    value: bool,
    outcome: Outcome,
}

impl Confirm {
    /// The current candidate answer.
    pub closed spec fn spec_value(&self) -> bool {
        self.value
    }

    /// The prompt's outcome.
    pub closed spec fn spec_outcome(&self) -> Outcome {
        self.outcome
    }

    /// The label shown beside the choice.
    pub closed spec fn spec_prompt(&self) -> Seq<char> {
        self.prompt@
    }

    /// A fresh, active prompt under the given label, defaulting to yes.
    pub fn new(prompt: &str) -> (r: Self)
        ensures
            r.spec_value() == true,
            r.spec_outcome() == Outcome::Active,
            r.spec_prompt() == prompt@,
    {
        Confirm { prompt: prompt.to_owned(), value: true, outcome: Outcome::Active }
    }

    /// Sets the answer the prompt starts on.
    pub fn initial_value(self, value: bool) -> (r: Self)
        ensures
            r.spec_value() == value,
            r.spec_outcome() == self.spec_outcome(),
            r.spec_prompt() == self.spec_prompt(),
    {
        Confirm { value, ..self }
    }

    /// Applies one key event while the prompt is active.
    ///
    /// `y`/`Y` submits `true` and `n`/`N` submits `false` immediately, no
    /// Enter needed. `ArrowLeft`, `ArrowRight` and `Tab` toggle the answer.
    /// `Enter` submits the current answer. `Escape` cancels. Every other
    /// key is ignored.
    pub fn handle_key(&mut self, key: KeyEvent)
        requires
            old(self).spec_outcome() == Outcome::Active,
        ensures
            final(self).spec_prompt() == old(self).spec_prompt(),
            (key == KeyEvent::Char('y') || key == KeyEvent::Char('Y')) ==> {
                &&& final(self).spec_value() == true
                &&& final(self).spec_outcome() == Outcome::Submitted
            },
            (key == KeyEvent::Char('n') || key == KeyEvent::Char('N')) ==> {
                &&& final(self).spec_value() == false
                &&& final(self).spec_outcome() == Outcome::Submitted
            },
            (key == KeyEvent::ArrowLeft || key == KeyEvent::ArrowRight || key == KeyEvent::Tab)
                ==> {
                &&& final(self).spec_value() == !old(self).spec_value()
                &&& final(self).spec_outcome() == Outcome::Active
            },
            key == KeyEvent::Enter ==> {
                &&& final(self).spec_value() == old(self).spec_value()
                &&& final(self).spec_outcome() == Outcome::Submitted
            },
            key == KeyEvent::Escape ==> {
                &&& final(self).spec_value() == old(self).spec_value()
                &&& final(self).spec_outcome() == Outcome::Cancelled
            },
            (!spec_is_confirm_shortcut(key) && key != KeyEvent::ArrowLeft && key
                != KeyEvent::ArrowRight && key != KeyEvent::Tab && key != KeyEvent::Enter && key
                != KeyEvent::Escape) ==> *final(self) == *old(self),
    {
        match key {
            KeyEvent::Char(c) => {
                if c == 'y' || c == 'Y' {
                    self.value = true;
                    self.outcome = Outcome::Submitted;
                } else if c == 'n' || c == 'N' {
                    self.value = false;
                    self.outcome = Outcome::Submitted;
                }
            },
            KeyEvent::ArrowLeft | KeyEvent::ArrowRight | KeyEvent::Tab => {
                self.value = !self.value;
            },
            KeyEvent::Enter => {
                self.outcome = Outcome::Submitted;
            },
            KeyEvent::Escape => {
                self.outcome = Outcome::Cancelled;
            },
            _ => {},
        }
    }

    /// The current candidate answer, for rendering and for the result.
    pub fn value(&self) -> (r: bool)
        ensures
            r == self.spec_value(),
    {
        self.value
    }

    /// The prompt label for rendering.
    pub fn prompt_text(&self) -> (r: &str)
        ensures
            r@ == self.spec_prompt(),
    {
        self.prompt.as_str()
    }

    /// The current outcome.
    pub fn outcome(&self) -> (r: Outcome)
        ensures
            r == self.spec_outcome(),
    {
        self.outcome
    }
}

} // verus!
