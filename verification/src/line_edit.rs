use vstd::prelude::*;

use crate::key::KeyEvent;
use crate::text::chars_to_string;
use crate::text::masked_string;

verus! {

/// What one editing key does to a line buffer and its cursor.
///
/// `Char` inserts at the cursor and advances it; `Backspace` deletes the
/// character before the cursor, if any; `ArrowLeft` / `ArrowRight` move the
/// cursor within `[0, buffer length]`. Every other key leaves both alone.
pub open spec fn edit_step(buf: Seq<char>, cur: int, key: KeyEvent) -> (Seq<char>, int) {
    match key {
        KeyEvent::Char(c) => (buf.insert(cur, c), cur + 1),
        KeyEvent::Backspace => if cur > 0 {
            (buf.remove(cur - 1), cur - 1)
        } else {
            (buf, cur)
        },
        KeyEvent::ArrowLeft => (buf, if cur > 0 {
            cur - 1
        } else {
            0
        }),
        KeyEvent::ArrowRight => (buf, if cur < buf.len() {
            cur + 1
        } else {
            cur
        }),
        _ => (buf, cur),
    }
}

/// The buffer and cursor after a whole sequence of editing keys.
pub open spec fn edit_steps(buf: Seq<char>, cur: int, keys: Seq<KeyEvent>) -> (Seq<char>, int)
    decreases keys.len(),
{
    if keys.len() == 0 {
        (buf, cur)
    } else {
        let next = edit_step(buf, cur, keys[0]);
        edit_steps(next.0, next.1, keys.skip(1))
    }
}

/// Cursor bounds: one editing step keeps the cursor inside
/// `[0, buffer length]`.
pub proof fn lemma_edit_step_bounds(buf: Seq<char>, cur: int, key: KeyEvent)
    requires
        0 <= cur <= buf.len(),
    ensures
        0 <= edit_step(buf, cur, key).1 <= edit_step(buf, cur, key).0.len(),
{
}

/// Cursor bounds: every sequence of editing keys keeps the cursor inside
/// `[0, buffer length]`; by induction this holds at every intermediate
/// step as well.
pub proof fn lemma_edit_steps_bounds(buf: Seq<char>, cur: int, keys: Seq<KeyEvent>)
    requires
        0 <= cur <= buf.len(),
    ensures
        0 <= edit_steps(buf, cur, keys).1 <= edit_steps(buf, cur, keys).0.len(),
    decreases keys.len(),
{
    if keys.len() > 0 {
        let next = edit_step(buf, cur, keys[0]);
        lemma_edit_step_bounds(buf, cur, keys[0]);
        lemma_edit_steps_bounds(next.0, next.1, keys.skip(1));
    }
}

/// A UTF-8-safe line buffer with a cursor at character granularity.
pub struct LineEdit {
    buf: Vec<char>,
    cursor: usize,
}

impl LineEdit {
    /// The cursor never leaves `[0, buffer length]`.
    pub closed spec fn wf(&self) -> bool {
        self.cursor <= self.buf@.len()
    }

    /// The characters currently in the buffer.
    pub closed spec fn chars(&self) -> Seq<char> {
        self.buf@
    }

    /// The cursor position, as a character offset.
    pub closed spec fn cursor_at(&self) -> int {
        self.cursor as int
    }

    /// An empty buffer with the cursor at its start.
    pub fn new() -> (r: Self)
        ensures
            r.wf(),
            r.chars() == Seq::<char>::empty(),
            r.cursor_at() == 0,
    {
        LineEdit { buf: Vec::new(), cursor: 0 }
    }

    /// Applies one editing key; reports whether the buffer changed, so a
    /// caller can clear a stale validation message exactly on edits.
    pub fn edit_key(&mut self, key: KeyEvent) -> (edited: bool)
        requires
            old(self).wf(),
        ensures
            final(self).wf(),
            (final(self).chars(), final(self).cursor_at()) == edit_step(
                old(self).chars(),
                old(self).cursor_at(),
                key,
            ),
            edited == (final(self).chars() != old(self).chars()),
    {
        match key {
            KeyEvent::Char(c) => {
                self.buf.insert(self.cursor, c);
                let n = self.buf.len();
                proof {
                    assert(self.cursor < n);
                }
                self.cursor = self.cursor + 1;
                proof {
                    assert(self.buf@.len() == old(self).buf@.len() + 1);
                    assert(self.buf@[old(self).cursor as int] == c);
                    assert(self.buf@ != old(self).buf@);
                }
                true
            },
            KeyEvent::Backspace => {
                if self.cursor > 0 {
                    self.buf.remove(self.cursor - 1);
                    self.cursor = self.cursor - 1;
                    proof {
                        assert(self.buf@.len() != old(self).buf@.len());
                    }
                    true
                } else {
                    false
                }
            },
            KeyEvent::ArrowLeft => {
                if self.cursor > 0 {
                    self.cursor = self.cursor - 1;
                }
                false
            },
            KeyEvent::ArrowRight => {
                if self.cursor < self.buf.len() {
                    self.cursor = self.cursor + 1;
                }
                false
            },
            _ => false,
        }
    }

    /// The number of characters in the buffer.
    pub fn len(&self) -> (r: usize)
        ensures
            r == self.chars().len(),
    {
        self.buf.len()
    }

    /// The cursor position for rendering.
    pub fn cursor(&self) -> (r: usize)
        ensures
            r == self.cursor_at(),
    {
        self.cursor
    }

    /// The buffer as a `String`, for rendering and for submission.
    pub fn to_text(&self) -> (r: String)
        ensures
            r@ == self.chars(),
    {
        chars_to_string(&self.buf)
    }

    /// The buffer masked for password rendering: one `mask` glyph per
    /// character, never the characters themselves.
    pub fn to_masked_text(&self, mask: char) -> (r: String)
        ensures
            r@.len() == self.chars().len(),
            forall|i: int| 0 <= i < r@.len() ==> r@[i] == mask,
    {
        masked_string(self.buf.len(), mask)
    }
}

} // verus!
