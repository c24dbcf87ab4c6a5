use vstd::prelude::*;

use crate::key::KeyEvent;
use crate::key::Outcome;
use crate::line_edit::LineEdit;
use crate::line_edit::edit_step;

verus! {

/// A single-line text prompt.
///
/// The prompt holds no terminal handle: an interaction loop feeds it one
/// `KeyEvent` per iteration through [`Input::handle_key`] and redraws from
/// the accessors. When `handle_key` reports a submission request, the loop
/// runs its validator (and parse step, if any) over [`Input::value`] and
/// hands the verdict to [`Input::apply_verdict`], which either records the
/// rejection message and stays active, or submits.
pub struct Input {
    prompt: String,
    placeholder: String,
    edit: LineEdit,
    outcome: Outcome,
    error: Option<String>,
}

impl Input {
    /// The cursor stays inside the buffer, and the error message exists
    /// only while the prompt is still active.
    pub closed spec fn wf(&self) -> bool {
        &&& self.edit.wf()
        &&& (self.outcome != Outcome::Active ==> self.error is None)
    }

    /// The characters currently in the buffer.
    pub closed spec fn chars(&self) -> Seq<char> {
        self.edit.chars()
    }

    /// The cursor position, as a character offset in `[0, buffer length]`.
    pub closed spec fn cursor_at(&self) -> int {
        self.edit.cursor_at()
    }

    /// The prompt's outcome: `Active` until a submission passes validation
    /// (`Submitted`) or the prompt is cancelled (`Cancelled`).
    pub closed spec fn spec_outcome(&self) -> Outcome {
        self.outcome
    }

    /// The last validation failure message, if any.
    pub closed spec fn spec_error(&self) -> Option<Seq<char>> {
        match self.error {
            Some(e) => Some(e@),
            None => None,
        }
    }

    /// A fresh, active, empty prompt under the given label.
    pub fn new(prompt: &str) -> (r: Self)
        ensures
            r.wf(),
            r.chars() == Seq::<char>::empty(),
            r.cursor_at() == 0,
            r.spec_outcome() == Outcome::Active,
            r.spec_error() is None,
            r.spec_prompt() == prompt@,
            r.spec_placeholder() == Seq::<char>::empty(),
    {
        Input {
            prompt: prompt.to_owned(),
            placeholder: String::new(),
            edit: LineEdit::new(),
            outcome: Outcome::Active,
            error: None,
        }
    }

    /// The label shown above the buffer.
    pub closed spec fn spec_prompt(&self) -> Seq<char> {
        self.prompt@
    }

    /// The hint shown in place of an empty buffer; never part of the value.
    pub closed spec fn spec_placeholder(&self) -> Seq<char> {
        self.placeholder@
    }

    /// Sets the placeholder text.
    pub fn placeholder(self, text: &str) -> (r: Self)
        ensures
            r.spec_placeholder() == text@,
            r.spec_prompt() == self.spec_prompt(),
            r.chars() == self.chars(),
            r.cursor_at() == self.cursor_at(),
            r.spec_outcome() == self.spec_outcome(),
            r.spec_error() == self.spec_error(),
            self.wf() ==> r.wf(),
    {
        Input { placeholder: text.to_owned(), ..self }
    }

    /// Applies one key event while the prompt is active.
    ///
    /// Editing keys act as [`edit_step`] says and clear a stale error
    /// message exactly when the buffer changes. `Enter` requests
    /// submission and changes nothing by itself. `Escape` cancels at once,
    /// without requesting submission, so a validator is never consulted on
    /// cancellation. Every other key is ignored.
    pub fn handle_key(&mut self, key: KeyEvent) -> (submit: bool)
        requires
            old(self).wf(),
            old(self).spec_outcome() == Outcome::Active,
        ensures
            final(self).wf(),
            final(self).spec_prompt() == old(self).spec_prompt(),
            final(self).spec_placeholder() == old(self).spec_placeholder(),
            submit == (key == KeyEvent::Enter),
            key == KeyEvent::Escape ==> {
                &&& final(self).spec_outcome() == Outcome::Cancelled
                &&& final(self).chars() == old(self).chars()
                &&& final(self).cursor_at() == old(self).cursor_at()
            },
            key != KeyEvent::Escape ==> {
                &&& final(self).spec_outcome() == Outcome::Active
                &&& (final(self).chars(), final(self).cursor_at()) == edit_step(
                    old(self).chars(),
                    old(self).cursor_at(),
                    key,
                )
                &&& final(self).spec_error() == if final(self).chars() != old(self).chars() {
                    None::<Seq<char>>
                } else {
                    old(self).spec_error()
                }
            },
    {
        match key {
            KeyEvent::Enter => true,
            KeyEvent::Escape => {
                self.outcome = Outcome::Cancelled;
                self.error = None;
                false
            },
            _ => {
                let edited = self.edit.edit_key(key);
                if edited {
                    self.error = None;
                }
                false
            },
        }
    }

    /// Applies a validation verdict to a requested submission.
    ///
    /// A rejection message leaves the buffer, cursor and outcome exactly
    /// as they were and records the message; acceptance clears any message
    /// and submits. Submitting again after a rejection therefore behaves
    /// as if the rejection had never happened.
    pub fn apply_verdict(&mut self, verdict: Option<String>)
        requires
            old(self).wf(),
            old(self).spec_outcome() == Outcome::Active,
        ensures
            final(self).wf(),
            final(self).spec_prompt() == old(self).spec_prompt(),
            final(self).spec_placeholder() == old(self).spec_placeholder(),
            final(self).chars() == old(self).chars(),
            final(self).cursor_at() == old(self).cursor_at(),
            match verdict {
                Some(message) => {
                    &&& final(self).spec_outcome() == Outcome::Active
                    &&& final(self).spec_error() == Some(message@)
                },
                None => {
                    &&& final(self).spec_outcome() == Outcome::Submitted
                    &&& final(self).spec_error() is None
                },
            },
    {
        match verdict {
            Some(message) => {
                self.error = Some(message);
            },
            None => {
                self.error = None;
                self.outcome = Outcome::Submitted;
            },
        }
    }

    /// The candidate value: the buffer as a `String`.
    pub fn value(&self) -> (r: String)
        ensures
            r@ == self.chars(),
    {
        self.edit.to_text()
    }

    /// The cursor position for rendering.
    pub fn cursor(&self) -> (r: usize)
        ensures
            r == self.cursor_at(),
    {
        self.edit.cursor()
    }

    /// The prompt label for rendering.
    pub fn prompt_text(&self) -> (r: &str)
        ensures
            r@ == self.spec_prompt(),
    {
        self.prompt.as_str()
    }

    /// The placeholder for rendering; shown only while the buffer is empty.
    pub fn placeholder_text(&self) -> (r: &str)
        ensures
            r@ == self.spec_placeholder(),
    {
        self.placeholder.as_str()
    }

    /// The current outcome.
    pub fn outcome(&self) -> (r: Outcome)
        ensures
            r == self.spec_outcome(),
    {
        self.outcome
    }

    /// The last validation failure message, if any.
    pub fn error_text(&self) -> (r: Option<&str>)
        ensures
            match r {
                Some(e) => self.spec_error() == Some(e@),
                None => self.spec_error() is None,
            },
    {
        match &self.error {
            Some(e) => Some(e.as_str()),
            None => None,
        }
    }
}

} // verus!
