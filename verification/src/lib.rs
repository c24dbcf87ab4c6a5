//! Minimal, opinionated command-line prompts: text input, masked password,
//! yes/no confirmation, single- and multi-choice selection, and an
//! indeterminate spinner, all driven by a shared per-keystroke state machine.
//!
//! The prompt types in this crate hold no terminal handle. Each one exposes
//! a `handle_key` step function together with accessors for rendering, so a
//! thin interaction loop (read a key, step the state, redraw, and on a
//! submission request run the validator and apply its verdict) can drive any
//! of them to a terminal outcome: submitted or cancelled. `Esc` cancels
//! immediately and bypasses validation; `Ctrl+C` is left to the terminal
//! layer. The formatting functions below produce the fixed session header,
//! footer and log-line frames as plain text for that same loop to write.

mod confirm;
mod input;
mod key;
mod line_edit;
mod multiselect;
mod password;
mod select;
mod spinner;
mod text;
mod theme;

pub mod log;

use vstd::prelude::*;

pub use confirm::Confirm;
pub use confirm::spec_is_confirm_shortcut;
pub use input::Input;
pub use key::KeyEvent;
pub use key::Outcome;
pub use line_edit::LineEdit;
pub use line_edit::edit_step;
pub use line_edit::edit_steps;
pub use line_edit::lemma_edit_step_bounds;
pub use line_edit::lemma_edit_steps_bounds;
pub use multiselect::MultiSelect;
pub use multiselect::apply_toggles;
pub use multiselect::lemma_apply_toggles_len;
pub use multiselect::lemma_toggle_commutes;
pub use multiselect::lemma_toggle_order_irrelevant;
pub use multiselect::lemma_toggles_count_only;
pub use multiselect::spec_selected;
pub use multiselect::toggle;
pub use multiselect::toggled_odd;
pub use password::Password;
pub use select::ListItem;
pub use select::Select;
pub use select::lemma_list_steps_bounds;
pub use select::list_step;
pub use select::list_steps;
pub use spinner::Spinner;
pub use spinner::SpinnerState;
pub use spinner::lemma_tick_changes_frame;
pub use spinner::next_frame;
pub use text::line_count;

verus! {

/// The header frame of a prompt sequence.
pub fn intro(title: &str) -> (r: String)
    ensures
        r@ == "\u{250c}  "@ + title@ + "\n"@,
{
    theme::format_intro(title)
}

/// The footer frame of a prompt sequence.
pub fn outro(message: &str) -> (r: String)
    ensures
        r@ == "\u{2502}\n\u{2514}  "@ + message@ + "\n\n"@,
{
    theme::format_outro(message)
}

/// The footer frame of a prompt sequence, in a failure style.
pub fn outro_cancel(message: &str) -> (r: String)
    ensures
        r@ == "\u{2502}\n\u{25a0}  "@ + message@ + "\n\n"@,
{
    theme::format_cancel(message)
}

/// A note frame: a headline with a message block under it.
pub fn note(prompt: &str, message: &str) -> (r: String)
    ensures
        r@ == "\u{2502}\n\u{25c7}  "@ + prompt@ + "\n\u{2502}  "@ + message@ + "\n"@,
{
    theme::format_note(prompt, message)
}

/// Constructs a new [`Input`] prompt under the given label.
pub fn input(prompt: &str) -> (r: Input)
    ensures
        r.wf(),
        r.chars() == Seq::<char>::empty(),
        r.cursor_at() == 0,
        r.spec_outcome() == Outcome::Active,
        r.spec_error() is None,
        r.spec_prompt() == prompt@,
        r.spec_placeholder() == Seq::<char>::empty(),
{
    Input::new(prompt)
}

/// Constructs a new [`Password`] prompt under the given label.
pub fn password(prompt: &str) -> (r: Password)
    ensures
        r.wf(),
        r.chars() == Seq::<char>::empty(),
        r.cursor_at() == 0,
        r.spec_outcome() == Outcome::Active,
        r.spec_error() is None,
        r.spec_prompt() == prompt@,
{
    Password::new(prompt)
}

/// Constructs a new [`Select`] prompt under the given label, with no
/// items yet.
pub fn select<T>(prompt: &str) -> (r: Select<T>)
    ensures
        r.wf(),
        r.spec_items() == Seq::<ListItem<T>>::empty(),
        r.cursor_at() == 0,
        r.spec_outcome() == Outcome::Active,
        r.spec_prompt() == prompt@,
{
    Select::new(prompt)
}

/// Constructs a new [`MultiSelect`] prompt under the given label, with no
/// items yet and nothing checked.
pub fn multiselect<T>(prompt: &str) -> (r: MultiSelect<T>)
    ensures
        r.wf(),
        r.spec_items() == Seq::<ListItem<T>>::empty(),
        r.spec_checked() == Seq::<bool>::empty(),
        r.cursor_at() == 0,
        r.spec_outcome() == Outcome::Active,
        r.spec_required() == false,
        r.spec_error() is None,
        r.spec_prompt() == prompt@,
{
    MultiSelect::new(prompt)
}

/// Constructs a new [`Confirm`] prompt under the given label, defaulting
/// to yes.
pub fn confirm(prompt: &str) -> (r: Confirm)
    ensures
        r.spec_value() == true,
        r.spec_outcome() == Outcome::Active,
        r.spec_prompt() == prompt@,
{
    Confirm::new(prompt)
}

/// Constructs a new, stopped [`Spinner`].
pub fn spinner() -> (r: Spinner)
    ensures
        r.wf(),
        r.frame_at() == 0,
        r.spec_message() == Seq::<char>::empty(),
        r.spec_state() == SpinnerState::Stopped,
{
    Spinner::new()
}

} // verus!
