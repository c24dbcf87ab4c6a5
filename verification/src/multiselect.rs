use vstd::prelude::*;

use crate::key::KeyEvent;
use crate::key::Outcome;
use crate::select::ListItem;
use crate::select::list_step;

verus! {

/// Toggling membership of index `i` in the checked set, kept as one flag
/// per item position.
pub open spec fn toggle(checked: Seq<bool>, i: int) -> Seq<bool> {
    checked.update(i, !checked[i])
}

/// Toggles at distinct positions commute: the checked set that results
/// from a sequence of toggles does not depend on the order they were made
/// in, only on how often each position was toggled.
pub proof fn lemma_toggle_commutes(checked: Seq<bool>, i: int, j: int)
    requires
        0 <= i < checked.len(),
        0 <= j < checked.len(),
        i != j,
    ensures
        toggle(toggle(checked, i), j) == toggle(toggle(checked, j), i),
{
    assert(toggle(toggle(checked, i), j) =~= toggle(toggle(checked, j), i));
}

/// The checked set after a whole sequence of toggles, each given by the
/// item position it was made at.
pub open spec fn apply_toggles(checked: Seq<bool>, positions: Seq<int>) -> Seq<bool>
    decreases positions.len(),
{
    if positions.len() == 0 {
        checked
    } else {
        apply_toggles(toggle(checked, positions[0]), positions.skip(1))
    }
}

/// True when position `i` occurs an odd number of times in `positions`.
pub open spec fn toggled_odd(positions: Seq<int>, i: int) -> bool
    decreases positions.len(),
{
    if positions.len() == 0 {
        false
    } else {
        (positions[0] == i) != toggled_odd(positions.skip(1), i)
    }
}

/// A toggle never changes how many items there are to check.
pub proof fn lemma_apply_toggles_len(checked: Seq<bool>, positions: Seq<int>)
    requires
        forall|k: int| 0 <= k < positions.len() ==> 0 <= #[trigger] positions[k] < checked.len(),
    ensures
        apply_toggles(checked, positions).len() == checked.len(),
    decreases positions.len(),
{
    if positions.len() > 0 {
        assert(forall|k: int|
            0 <= k < positions.skip(1).len() ==> #[trigger] positions.skip(1)[k] == positions[k
                + 1]);
        lemma_apply_toggles_len(toggle(checked, positions[0]), positions.skip(1));
    }
}

/// After any sequence of toggles, whether an item ends up checked depends
/// only on how often its position was toggled — never on where in the
/// sequence those toggles happened.
pub proof fn lemma_toggles_count_only(checked: Seq<bool>, positions: Seq<int>, i: int)
    requires
        0 <= i < checked.len(),
        forall|k: int| 0 <= k < positions.len() ==> 0 <= #[trigger] positions[k] < checked.len(),
    ensures
        apply_toggles(checked, positions).len() == checked.len(),
        apply_toggles(checked, positions)[i] == (checked[i] != toggled_odd(positions, i)),
    decreases positions.len(),
{
    if positions.len() > 0 {
        assert(forall|k: int|
            0 <= k < positions.skip(1).len() ==> #[trigger] positions.skip(1)[k] == positions[k
                + 1]);
        lemma_toggles_count_only(toggle(checked, positions[0]), positions.skip(1), i);
    }
}

/// Order preservation, order-independence half: two toggle sequences that
/// touch every position equally often (up to parity) leave the checked
/// set — and with it the submitted result — identical, whatever order the
/// toggles were made in. The other half, that the result lists checked
/// values in the order the items were configured in, is how
/// [`spec_selected`] is built.
pub proof fn lemma_toggle_order_irrelevant(
    checked: Seq<bool>,
    positions1: Seq<int>,
    positions2: Seq<int>,
)
    requires
        forall|k: int| 0 <= k < positions1.len() ==> 0 <= #[trigger] positions1[k] < checked.len(),
        forall|k: int| 0 <= k < positions2.len() ==> 0 <= #[trigger] positions2[k] < checked.len(),
        forall|i: int| 0 <= i < checked.len() ==> toggled_odd(positions1, i) == toggled_odd(
            positions2,
            i,
        ),
    ensures
        apply_toggles(checked, positions1) == apply_toggles(checked, positions2),
{
    lemma_apply_toggles_len(checked, positions1);
    lemma_apply_toggles_len(checked, positions2);
    assert forall|i: int| 0 <= i < checked.len() implies apply_toggles(checked, positions1)[i]
        == apply_toggles(checked, positions2)[i] by {
        lemma_toggles_count_only(checked, positions1, i);
        lemma_toggles_count_only(checked, positions2, i);
    }
    assert(apply_toggles(checked, positions1) =~= apply_toggles(checked, positions2));
}

/// The submitted result of a multi-select: the values of the checked
/// items, in the order the items were configured in — never in toggle
/// order.
pub open spec fn spec_selected<T>(items: Seq<ListItem<T>>, checked: Seq<bool>) -> Seq<T>
    decreases items.len(),
{
    if items.len() == 0 {
        Seq::empty()
    } else {
        let rest = spec_selected(items.skip(1), checked.skip(1));
        if checked.len() > 0 && checked[0] {
            seq![items[0].value] + rest
        } else {
            rest
        }
    }
}

/// A multiple-choice prompt over an ordered list of items.
///
/// Navigation clamps exactly as on [`crate::Select`]; `Space` toggles the
/// highlighted item in the checked set. Submission hands back the checked
/// values in item order. When the prompt is configured to require at
/// least one checked item, `Enter` over an empty checked set is a
/// validation failure with a fixed message and the prompt stays active.
pub struct MultiSelect<T> {
    prompt: String,
    items: Vec<ListItem<T>>,
    checked: Vec<bool>,
    cursor: usize,
    outcome: Outcome,
    required: bool,
    error: Option<String>,
}

impl<T> MultiSelect<T> {
    /// One checked flag per item, the active index inside the list, and
    /// the error message only while the prompt is still active.
    pub closed spec fn wf(&self) -> bool {
        &&& self.checked@.len() == self.items@.len()
        &&& if self.items@.len() == 0 {
            self.cursor == 0
        } else {
            self.cursor < self.items@.len()
        }
        &&& (self.outcome != Outcome::Active ==> self.error is None)
    }

    /// The configured items, in order.
    pub closed spec fn spec_items(&self) -> Seq<ListItem<T>> {
        self.items@
    }

    /// The checked set, as one flag per item position.
    pub closed spec fn spec_checked(&self) -> Seq<bool> {
        self.checked@
    }

    /// The active (highlighted) index.
    pub closed spec fn cursor_at(&self) -> int {
        self.cursor as int
    }

    /// The prompt's outcome.
    pub closed spec fn spec_outcome(&self) -> Outcome {
        self.outcome
    }

    /// Whether submitting an empty checked set is rejected.
    pub closed spec fn spec_required(&self) -> bool {
        self.required
    }

    /// The last validation failure message, if any.
    pub closed spec fn spec_error(&self) -> Option<Seq<char>> {
        match self.error {
            Some(e) => Some(e@),
            None => None,
        }
    }

    /// The label shown above the list.
    pub closed spec fn spec_prompt(&self) -> Seq<char> {
        self.prompt@
    }

    /// A fresh, active prompt with no items yet and nothing checked.
    pub fn new(prompt: &str) -> (r: Self)
        ensures
            r.wf(),
            r.spec_items() == Seq::<ListItem<T>>::empty(),
            r.spec_checked() == Seq::<bool>::empty(),
            r.cursor_at() == 0,
            r.spec_outcome() == Outcome::Active,
            r.spec_required() == false,
            r.spec_error() is None,
            r.spec_prompt() == prompt@,
    {
        MultiSelect {
            prompt: prompt.to_owned(),
            items: Vec::new(),
            checked: Vec::new(),
            cursor: 0,
            outcome: Outcome::Active,
            required: false,
            error: None,
        }
    }

    /// Appends one item, unchecked.
    pub fn item(self, value: T, label: &str, hint: &str) -> (r: Self)
        ensures
            r.spec_items().len() == self.spec_items().len() + 1,
            r.spec_items().drop_last() == self.spec_items(),
            r.spec_items().last().value == value,
            r.spec_items().last().label@ == label@,
            r.spec_items().last().hint@ == hint@,
            r.spec_checked() == self.spec_checked().push(false),
            r.cursor_at() == self.cursor_at(),
            r.spec_outcome() == self.spec_outcome(),
            r.spec_required() == self.spec_required(),
            r.spec_error() == self.spec_error(),
            r.spec_prompt() == self.spec_prompt(),
            self.wf() ==> r.wf(),
    {
        let mut items = self.items;
        let mut checked = self.checked;
        items.push(ListItem { value, label: label.to_owned(), hint: hint.to_owned() });
        checked.push(false);
        proof {
            assert(items@.drop_last() =~= self.items@);
        }
        MultiSelect { items, checked, ..self }
    }

    /// Appends one item that starts checked.
    pub fn item_checked(self, value: T, label: &str, hint: &str) -> (r: Self)
        ensures
            r.spec_items().len() == self.spec_items().len() + 1,
            r.spec_items().drop_last() == self.spec_items(),
            r.spec_items().last().value == value,
            r.spec_items().last().label@ == label@,
            r.spec_items().last().hint@ == hint@,
            r.spec_checked() == self.spec_checked().push(true),
            r.cursor_at() == self.cursor_at(),
            r.spec_outcome() == self.spec_outcome(),
            r.spec_required() == self.spec_required(),
            r.spec_error() == self.spec_error(),
            r.spec_prompt() == self.spec_prompt(),
            self.wf() ==> r.wf(),
    {
        let mut items = self.items;
        let mut checked = self.checked;
        items.push(ListItem { value, label: label.to_owned(), hint: hint.to_owned() });
        checked.push(true);
        proof {
            assert(items@.drop_last() =~= self.items@);
        }
        MultiSelect { items, checked, ..self }
    }

    /// Requires at least one checked item for a submission to succeed.
    pub fn required(self, required: bool) -> (r: Self)
        ensures
            r.spec_required() == required,
            r.spec_items() == self.spec_items(),
            r.spec_checked() == self.spec_checked(),
            r.cursor_at() == self.cursor_at(),
            r.spec_outcome() == self.spec_outcome(),
            r.spec_error() == self.spec_error(),
            r.spec_prompt() == self.spec_prompt(),
            self.wf() ==> r.wf(),
    {
        MultiSelect { required, ..self }
    }

    /// True when the prompt has at least one item and may be interacted
    /// with; a prompt without items is a configuration error.
    pub fn is_configured(&self) -> (r: bool)
        ensures
            r == (self.spec_items().len() > 0),
    {
        self.items.len() > 0
    }

    /// True when some item is checked.
    pub fn any_checked(&self) -> (r: bool)
        ensures
            r == exists|i: int| 0 <= i < self.spec_checked().len() && self.spec_checked()[i],
    {
        let mut i: usize = 0;
        let n = self.checked.len();
        while i < n
            invariant
                n == self.checked@.len(),
                i <= n,
                forall|j: int| 0 <= j < i ==> !self.spec_checked()[j],
            decreases n - i,
        {
            if self.checked[i] {
                proof {
                    assert(self.spec_checked()[i as int]);
                }
                return true;
            }
            i = i + 1;
        }
        false
    }

    /// Applies one key event while the prompt is active.
    ///
    /// `ArrowUp` and `ArrowDown` move the highlight as [`list_step`] says:
    /// clamped, never wrapping. `Space` toggles the highlighted item in
    /// the checked set and clears a stale error message. `Enter` submits
    /// the checked set, unless at least one checked item is required and
    /// none is: then it records a fixed rejection message and the prompt
    /// stays active, with the checked set untouched. `Escape` cancels,
    /// bypassing that rule. Every other key is ignored.
    pub fn handle_key(&mut self, key: KeyEvent)
        requires
            old(self).wf(),
            old(self).spec_items().len() > 0,
            old(self).spec_outcome() == Outcome::Active,
        ensures
            final(self).wf(),
            final(self).spec_prompt() == old(self).spec_prompt(),
            final(self).spec_items() == old(self).spec_items(),
            final(self).spec_required() == old(self).spec_required(),
            final(self).cursor_at() == list_step(
                old(self).cursor_at(),
                old(self).spec_items().len() as int,
                key,
            ),
            final(self).spec_checked() == if key == KeyEvent::Char(' ') {
                toggle(old(self).spec_checked(), old(self).cursor_at())
            } else {
                old(self).spec_checked()
            },
            final(self).spec_outcome() == match key {
                KeyEvent::Enter => if old(self).spec_required() && !(exists|i: int|
                    0 <= i < old(self).spec_checked().len() && old(self).spec_checked()[i]) {
                    Outcome::Active
                } else {
                    Outcome::Submitted
                },
                KeyEvent::Escape => Outcome::Cancelled,
                _ => Outcome::Active,
            },
            final(self).spec_error() == match key {
                KeyEvent::Char(c) => if c == ' ' {
                    None::<Seq<char>>
                } else {
                    old(self).spec_error()
                },
                KeyEvent::Enter => if old(self).spec_required() && !(exists|i: int|
                    0 <= i < old(self).spec_checked().len() && old(self).spec_checked()[i]) {
                    Some("Please select at least one option."@)
                } else {
                    None::<Seq<char>>
                },
                KeyEvent::Escape => None::<Seq<char>>,
                _ => old(self).spec_error(),
            },
    {
        match key {
            KeyEvent::ArrowUp => {
                if self.cursor > 0 {
                    self.cursor = self.cursor - 1;
                }
            },
            KeyEvent::ArrowDown => {
                let n = self.items.len();
                if self.cursor < n - 1 {
                    self.cursor = self.cursor + 1;
                }
            },
            KeyEvent::Char(c) => {
                if c == ' ' {
                    let was = self.checked[self.cursor];
                    self.checked.set(self.cursor, !was);
                    self.error = None;
                }
            },
            KeyEvent::Enter => {
                if self.required && !self.any_checked() {
                    self.error = Some("Please select at least one option.".to_owned());
                } else {
                    self.error = None;
                    self.outcome = Outcome::Submitted;
                }
            },
            KeyEvent::Escape => {
                self.error = None;
                self.outcome = Outcome::Cancelled;
            },
            _ => {},
        }
    }

    /// The submitted result: the checked values, in item order.
    pub fn into_selection(self) -> (r: Vec<T>)
        requires
            self.wf(),
        ensures
            r@ == spec_selected(self.spec_items(), self.spec_checked()),
    {
        let ghost orig_items = self.items@;
        let ghost orig_checked = self.checked@;
        let mut items = self.items;
        let checked = self.checked;
        let mut r: Vec<T> = Vec::new();
        let n = checked.len();
        let mut k: usize = 0;
        proof {
            assert(orig_items.skip(0) =~= orig_items);
            assert(orig_checked.skip(0) =~= orig_checked);
            assert(r@ + spec_selected(orig_items, orig_checked) =~= spec_selected(
                orig_items,
                orig_checked,
            ));
        }
        while k < n
            invariant
                n == orig_checked.len(),
                orig_items.len() == n,
                checked@ == orig_checked,
                k <= n,
                items@ == orig_items.skip(k as int),
                spec_selected(orig_items, orig_checked) == r@ + spec_selected(
                    orig_items.skip(k as int),
                    orig_checked.skip(k as int),
                ),
            decreases n - k,
        {
            let item = items.remove(0);
            proof {
                assert(item == orig_items[k as int]);
                assert(items@ =~= orig_items.skip(k + 1 as int));
                assert(orig_items.skip(k as int).skip(1) =~= orig_items.skip(k + 1 as int));
                assert(orig_checked.skip(k as int).skip(1) =~= orig_checked.skip(k + 1 as int));
                assert(orig_checked.skip(k as int)[0] == orig_checked[k as int]);
                assert(spec_selected(orig_items.skip(k as int), orig_checked.skip(k as int))
                    == if orig_checked[k as int] {
                    seq![orig_items[k as int].value] + spec_selected(
                        orig_items.skip(k + 1 as int),
                        orig_checked.skip(k + 1 as int),
                    )
                } else {
                    spec_selected(orig_items.skip(k + 1 as int), orig_checked.skip(k + 1 as int))
                });
            }
            if checked[k] {
                let ghost prev = r@;
                r.push(item.value);
                proof {
                    assert(r@ + spec_selected(
                        orig_items.skip(k + 1 as int),
                        orig_checked.skip(k + 1 as int),
                    ) =~= prev + spec_selected(
                        orig_items.skip(k as int),
                        orig_checked.skip(k as int),
                    ));
                }
            }
            k = k + 1;
        }
        proof {
            assert(orig_items.skip(n as int).len() == 0);
            assert(r@ + spec_selected(orig_items.skip(n as int), orig_checked.skip(n as int))
                =~= r@);
        }
        r
    }

    /// Whether the item at `index` is checked, for rendering.
    pub fn is_checked(&self, index: usize) -> (r: bool)
        requires
            self.wf(),
            index < self.spec_items().len(),
        ensures
            r == self.spec_checked()[index as int],
    {
        self.checked[index]
    }

    /// The number of items.
    pub fn len(&self) -> (r: usize)
        ensures
            r == self.spec_items().len(),
    {
        self.items.len()
    }

    /// The label of the item at `index`, for rendering.
    pub fn label_at(&self, index: usize) -> (r: &str)
        requires
            index < self.spec_items().len(),
        ensures
            r@ == self.spec_items()[index as int].label@,
    {
        self.items[index].label.as_str()
    }

    /// The hint of the item at `index`; rendering shows it only for the
    /// highlighted item.
    pub fn hint_at(&self, index: usize) -> (r: &str)
        requires
            index < self.spec_items().len(),
        ensures
            r@ == self.spec_items()[index as int].hint@,
    {
        self.items[index].hint.as_str()
    }

    /// The active index for rendering.
    pub fn cursor(&self) -> (r: usize)
        ensures
            r == self.cursor_at(),
    {
        self.cursor
    }

    /// The prompt label for rendering.
    pub fn prompt_text(&self) -> (r: &str)
        ensures
            r@ == self.spec_prompt(),
    {
        self.prompt.as_str()
    }

    /// The current outcome.
    pub fn outcome(&self) -> (r: Outcome)
        ensures
            r == self.spec_outcome(),
    {
        self.outcome
    }

    /// The last validation failure message, if any.
    pub fn error_text(&self) -> (r: Option<&str>)
        ensures
            match r {
                Some(e) => self.spec_error() == Some(e@),
                None => self.spec_error() is None,
            },
    {
        match &self.error {
            Some(e) => Some(e.as_str()),
            None => None,
        }
    }
}

} // verus!
