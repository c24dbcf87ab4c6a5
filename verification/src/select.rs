use vstd::prelude::*;

use crate::key::KeyEvent;
use crate::key::Outcome;

use vstd::std_specs::cmp::PartialEqSpec;

verus! {

/// One entry of a list prompt: an opaque value to hand back on submission,
/// a label to show, and a hint shown only while the entry is highlighted.
/// Identity is by position in the backing sequence; the value type needs
/// no ordering or hashing, and equality only where a default value is
/// matched against the items.
pub struct ListItem<T> {
    pub value: T,
    pub label: String,
    pub hint: String,
}

/// What one navigation key does to the active index of a list of `len`
/// items: `ArrowUp` and `ArrowDown` move by one, clamped at `0` and
/// `len - 1` without wrapping, so a move past either end is a no-op.
/// Every other key leaves the index alone.
pub open spec fn list_step(cur: int, len: int, key: KeyEvent) -> int {
    match key {
        KeyEvent::ArrowUp => if cur > 0 {
            cur - 1
        } else {
            cur
        },
        KeyEvent::ArrowDown => if cur + 1 < len {
            cur + 1
        } else {
            cur
        },
        _ => cur,
    }
}

/// The active index after a whole sequence of navigation keys.
pub open spec fn list_steps(cur: int, len: int, keys: Seq<KeyEvent>) -> int
    decreases keys.len(),
{
    if keys.len() == 0 {
        cur
    } else {
        list_steps(list_step(cur, len, keys[0]), len, keys.skip(1))
    }
}

/// List clamp: every sequence of navigation keys keeps the active index
/// inside `[0, len - 1]`; by induction this holds at every intermediate
/// step as well.
pub proof fn lemma_list_steps_bounds(cur: int, len: int, keys: Seq<KeyEvent>)
    requires
        0 <= cur < len,
    ensures
        0 <= list_steps(cur, len, keys) < len,
    decreases keys.len(),
{
    if keys.len() > 0 {
        lemma_list_steps_bounds(list_step(cur, len, keys[0]), len, keys.skip(1));
    }
}

/// A single-choice prompt over an ordered list of items.
///
/// An interaction loop feeds it key events through
/// [`Select::handle_key`]; on submission, [`Select::into_value`] hands
/// back the value of the item under the active index. A select prompt has
/// no validation step. Constructing one with no items is a configuration
/// error; [`Select::is_configured`] reports it before the first render.
pub struct Select<T> {
    prompt: String,
    items: Vec<ListItem<T>>,
    cursor: usize,
    outcome: Outcome,
}

impl<T> Select<T> {
    /// The active index stays inside the item list (and is zero while the
    /// list is still empty during configuration).
    pub closed spec fn wf(&self) -> bool {
        if self.items@.len() == 0 {
            self.cursor == 0
        } else {
            self.cursor < self.items@.len()
        }
    }

    /// The configured items, in order.
    pub closed spec fn spec_items(&self) -> Seq<ListItem<T>> {
        self.items@
    }

    /// The active (highlighted) index.
    pub closed spec fn cursor_at(&self) -> int {
        self.cursor as int
    }

    /// The prompt's outcome.
    pub closed spec fn spec_outcome(&self) -> Outcome {
        self.outcome
    }

    /// The label shown above the list.
    pub closed spec fn spec_prompt(&self) -> Seq<char> {
        self.prompt@
    }

    /// A fresh, active prompt with no items yet.
    pub fn new(prompt: &str) -> (r: Self)
        ensures
            r.wf(),
            r.spec_items() == Seq::<ListItem<T>>::empty(),
            r.cursor_at() == 0,
            r.spec_outcome() == Outcome::Active,
            r.spec_prompt() == prompt@,
    {
        Select { prompt: prompt.to_owned(), items: Vec::new(), cursor: 0, outcome: Outcome::Active }
    }

    /// Appends one item to the list.
    pub fn item(self, value: T, label: &str, hint: &str) -> (r: Self)
        ensures
            r.spec_items().len() == self.spec_items().len() + 1,
            r.spec_items().drop_last() == self.spec_items(),
            r.spec_items().last().value == value,
            r.spec_items().last().label@ == label@,
            r.spec_items().last().hint@ == hint@,
            r.cursor_at() == self.cursor_at(),
            r.spec_outcome() == self.spec_outcome(),
            r.spec_prompt() == self.spec_prompt(),
            self.wf() ==> r.wf(),
    {
        let mut items = self.items;
        items.push(ListItem { value, label: label.to_owned(), hint: hint.to_owned() });
        proof {
            assert(items@.drop_last() =~= self.items@);
        }
        Select { items, ..self }
    }

    /// Sets the initially highlighted item by matching a default value
    /// against the item values already configured: the first match wins,
    /// and with no match the highlight returns to the first item. Exact
    /// only for value types whose `==` obeys its specification.
    pub fn initial_value(self, value: &T) -> (r: Self) where T: PartialEq
        ensures
            r.wf(),
            r.spec_items() == self.spec_items(),
            r.spec_outcome() == self.spec_outcome(),
            r.spec_prompt() == self.spec_prompt(),
            T::obeys_eq_spec() ==> if exists|i: int|
                0 <= i < self.spec_items().len() && #[trigger] self.spec_items()[i].value.eq_spec(
                    value,
                ) {
                &&& 0 <= r.cursor_at() < self.spec_items().len()
                &&& self.spec_items()[r.cursor_at()].value.eq_spec(value)
                &&& forall|j: int|
                    0 <= j < r.cursor_at() ==> !(#[trigger] self.spec_items()[j].value.eq_spec(
                        value,
                    ))
            } else {
                r.cursor_at() == 0
            },
    {
        let n = self.items.len();
        let mut i: usize = 0;
        while i < n
            invariant
                n == self.items@.len(),
                i <= n,
                T::obeys_eq_spec() ==> forall|j: int|
                    0 <= j < i ==> !(#[trigger] self.items@[j].value.eq_spec(value)),
            decreases n - i,
        {
            if self.items[i].value == *value {
                return Select { cursor: i, ..self };
            }
            i = i + 1;
        }
        Select { cursor: 0, ..self }
    }

    /// Sets the initially highlighted index; an index past the end of the
    /// current item list is ignored.
    pub fn initial_index(self, index: usize) -> (r: Self)
        ensures
            r.cursor_at() == if index < self.spec_items().len() {
                index as int
            } else {
                self.cursor_at()
            },
            r.spec_items() == self.spec_items(),
            r.spec_outcome() == self.spec_outcome(),
            r.spec_prompt() == self.spec_prompt(),
            self.wf() ==> r.wf(),
    {
        if index < self.items.len() {
            Select { cursor: index, ..self }
        } else {
            self
        }
    }

    /// True when the prompt has at least one item and may be interacted
    /// with; a prompt without items is a configuration error.
    pub fn is_configured(&self) -> (r: bool)
        ensures
            r == (self.spec_items().len() > 0),
    {
        self.items.len() > 0
    }

    /// Applies one key event while the prompt is active.
    ///
    /// `ArrowUp` and `ArrowDown` move the highlight as [`list_step`] says:
    /// clamped, never wrapping. `Enter` submits the highlighted item.
    /// `Escape` cancels. Every other key is ignored.
    pub fn handle_key(&mut self, key: KeyEvent)
        requires
            old(self).wf(),
            old(self).spec_items().len() > 0,
            old(self).spec_outcome() == Outcome::Active,
        ensures
            final(self).wf(),
            final(self).spec_prompt() == old(self).spec_prompt(),
            final(self).spec_items() == old(self).spec_items(),
            final(self).cursor_at() == list_step(
                old(self).cursor_at(),
                old(self).spec_items().len() as int,
                key,
            ),
            final(self).spec_outcome() == match key {
                KeyEvent::Enter => Outcome::Submitted,
                KeyEvent::Escape => Outcome::Cancelled,
                _ => Outcome::Active,
            },
    {
        match key {
            KeyEvent::ArrowUp => {
                if self.cursor > 0 {
                    self.cursor = self.cursor - 1;
                }
            },
            KeyEvent::ArrowDown => {
                let n = self.items.len();
                if self.cursor < n - 1 {
                    self.cursor = self.cursor + 1;
                }
            },
            KeyEvent::Enter => {
                self.outcome = Outcome::Submitted;
            },
            KeyEvent::Escape => {
                self.outcome = Outcome::Cancelled;
            },
            _ => {},
        }
    }

    /// The submitted result: the value of the item under the active index.
    pub fn into_value(self) -> (r: T)
        requires
            self.wf(),
            self.spec_items().len() > 0,
        ensures
            r == self.spec_items()[self.cursor_at()].value,
    {
        let mut items = self.items;
        let item = items.remove(self.cursor);
        item.value
    }

    /// The number of items.
    pub fn len(&self) -> (r: usize)
        ensures
            r == self.spec_items().len(),
    {
        self.items.len()
    }

    /// The label of the item at `index`, for rendering.
    pub fn label_at(&self, index: usize) -> (r: &str)
        requires
            index < self.spec_items().len(),
        ensures
            r@ == self.spec_items()[index as int].label@,
    {
        self.items[index].label.as_str()
    }

    /// The hint of the item at `index`; rendering shows it only for the
    /// highlighted item.
    pub fn hint_at(&self, index: usize) -> (r: &str)
        requires
            index < self.spec_items().len(),
        ensures
            r@ == self.spec_items()[index as int].hint@,
    {
        self.items[index].hint.as_str()
    }

    /// The active index for rendering.
    pub fn cursor(&self) -> (r: usize)
        ensures
            r == self.cursor_at(),
    {
        self.cursor
    }

    /// The prompt label for rendering.
    pub fn prompt_text(&self) -> (r: &str)
        ensures
            r@ == self.spec_prompt(),
    {
        self.prompt.as_str()
    }

    /// The current outcome.
    pub fn outcome(&self) -> (r: Outcome)
        ensures
            r == self.spec_outcome(),
    {
        self.outcome
    }
}

} // verus!
