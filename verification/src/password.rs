use vstd::prelude::*;

use crate::key::KeyEvent;
use crate::key::Outcome;
use crate::line_edit::LineEdit;
use crate::line_edit::edit_step;

verus! {

/// A masked single-line text prompt.
///
/// Editing, submission and cancellation behave exactly as on [`crate::Input`];
/// only rendering differs: [`Password::masked_value`] substitutes each
/// buffered character with the configured mask glyph, while the underlying
/// buffer itself is never masked.
pub struct Password {
    prompt: String,
    mask: char,
    edit: LineEdit,
    outcome: Outcome,
    error: Option<String>,
}

impl Password {
    /// The cursor stays inside the buffer, and the error message exists
    /// only while the prompt is still active.
    pub closed spec fn wf(&self) -> bool {
        &&& self.edit.wf()
        &&& (self.outcome != Outcome::Active ==> self.error is None)
    }

    /// The characters currently in the buffer.
    pub closed spec fn chars(&self) -> Seq<char> {
        self.edit.chars()
    }

    /// The cursor position, as a character offset in `[0, buffer length]`.
    pub closed spec fn cursor_at(&self) -> int {
        self.edit.cursor_at()
    }

    /// The prompt's outcome.
    pub closed spec fn spec_outcome(&self) -> Outcome {
        self.outcome
    }

    /// The last validation failure message, if any.
    pub closed spec fn spec_error(&self) -> Option<Seq<char>> {
        match self.error {
            Some(e) => Some(e@),
            None => None,
        }
    }

    /// The label shown above the masked buffer.
    pub closed spec fn spec_prompt(&self) -> Seq<char> {
        self.prompt@
    }

    /// The glyph shown in place of each buffered character.
    pub closed spec fn spec_mask(&self) -> char {
        self.mask
    }

    /// A fresh, active, empty prompt under the given label, masking with
    /// a round bullet.
    pub fn new(prompt: &str) -> (r: Self)
        ensures
            r.wf(),
            r.chars() == Seq::<char>::empty(),
            r.cursor_at() == 0,
            r.spec_outcome() == Outcome::Active,
            r.spec_error() is None,
            r.spec_prompt() == prompt@,
            r.spec_mask() == '\u{25cf}',
    {
        Password {
            prompt: prompt.to_owned(),
            mask: '\u{25cf}',
            edit: LineEdit::new(),
            outcome: Outcome::Active,
            error: None,
        }
    }

    /// Sets the mask glyph.
    pub fn mask(self, mask: char) -> (r: Self)
        ensures
            r.spec_mask() == mask,
            r.spec_prompt() == self.spec_prompt(),
            r.chars() == self.chars(),
            r.cursor_at() == self.cursor_at(),
            r.spec_outcome() == self.spec_outcome(),
            r.spec_error() == self.spec_error(),
            self.wf() ==> r.wf(),
    {
        Password { mask, ..self }
    }

    /// Applies one key event while the prompt is active; identical in
    /// behaviour to [`crate::Input::handle_key`]: editing keys act as
    /// [`edit_step`] says and clear a stale error exactly when the buffer
    /// changes, `Enter` requests submission, `Escape` cancels at once
    /// without requesting submission, everything else is ignored.
    pub fn handle_key(&mut self, key: KeyEvent) -> (submit: bool)
        requires
            old(self).wf(),
            old(self).spec_outcome() == Outcome::Active,
        ensures
            final(self).wf(),
            final(self).spec_prompt() == old(self).spec_prompt(),
            final(self).spec_mask() == old(self).spec_mask(),
            submit == (key == KeyEvent::Enter),
            key == KeyEvent::Escape ==> {
                &&& final(self).spec_outcome() == Outcome::Cancelled
                &&& final(self).chars() == old(self).chars()
                &&& final(self).cursor_at() == old(self).cursor_at()
            },
            key != KeyEvent::Escape ==> {
                &&& final(self).spec_outcome() == Outcome::Active
                &&& (final(self).chars(), final(self).cursor_at()) == edit_step(
                    old(self).chars(),
                    old(self).cursor_at(),
                    key,
                )
                &&& final(self).spec_error() == if final(self).chars() != old(self).chars() {
                    None::<Seq<char>>
                } else {
                    old(self).spec_error()
                }
            },
    {
        match key {
            KeyEvent::Enter => true,
            KeyEvent::Escape => {
                self.outcome = Outcome::Cancelled;
                self.error = None;
                false
            },
            _ => {
                let edited = self.edit.edit_key(key);
                if edited {
                    self.error = None;
                }
                false
            },
        }
    }

    /// Applies a validation verdict to a requested submission, exactly as
    /// [`crate::Input::apply_verdict`] does.
    pub fn apply_verdict(&mut self, verdict: Option<String>)
        requires
            old(self).wf(),
            old(self).spec_outcome() == Outcome::Active,
        ensures
            final(self).wf(),
            final(self).spec_prompt() == old(self).spec_prompt(),
            final(self).spec_mask() == old(self).spec_mask(),
            final(self).chars() == old(self).chars(),
            final(self).cursor_at() == old(self).cursor_at(),
            match verdict {
                Some(message) => {
                    &&& final(self).spec_outcome() == Outcome::Active
                    &&& final(self).spec_error() == Some(message@)
                },
                None => {
                    &&& final(self).spec_outcome() == Outcome::Submitted
                    &&& final(self).spec_error() is None
                },
            },
    {
        match verdict {
            Some(message) => {
                self.error = Some(message);
            },
            None => {
                self.error = None;
                self.outcome = Outcome::Submitted;
            },
        }
    }

    /// The candidate value: the buffer as a `String`, unmasked.
    pub fn value(&self) -> (r: String)
        ensures
            r@ == self.chars(),
    {
        self.edit.to_text()
    }

    /// What rendering shows: one mask glyph per buffered character.
    pub fn masked_value(&self) -> (r: String)
        ensures
            r@.len() == self.chars().len(),
            forall|i: int| 0 <= i < r@.len() ==> r@[i] == self.spec_mask(),
    {
        self.edit.to_masked_text(self.mask)
    }

    /// The cursor position for rendering.
    pub fn cursor(&self) -> (r: usize)
        ensures
            r == self.cursor_at(),
    {
        self.edit.cursor()
    }

    /// The prompt label for rendering.
    pub fn prompt_text(&self) -> (r: &str)
        ensures
            r@ == self.spec_prompt(),
    {
        self.prompt.as_str()
    }

    /// The current outcome.
    pub fn outcome(&self) -> (r: Outcome)
        ensures
            r == self.spec_outcome(),
    {
        self.outcome
    }

    /// The last validation failure message, if any.
    pub fn error_text(&self) -> (r: Option<&str>)
        ensures
            match r {
                Some(e) => self.spec_error() == Some(e@),
                None => self.spec_error() is None,
            },
    {
        match &self.error {
            Some(e) => Some(e.as_str()),
            None => None,
        }
    }
}

} // verus!
