use vstd::prelude::*;

verus! {

/// The last `n` entries of `s`, or all of `s` when it has no more than `n`.
pub open spec fn keep_last(s: Seq<Seq<char>>, n: nat) -> Seq<Seq<char>> {
    if s.len() > n {
        s.skip(s.len() - n)
    } else {
        s
    }
}

/// The abstract state of a [`TextHistory`].
pub ghost struct HistoryModel {
    /// The live value.
    pub current: Seq<char>,
    /// Values that `undo` brings back, the most recent last.
    pub undo: Seq<Seq<char>>,
    /// Values that `redo` brings back, the most recent last.
    pub redo: Seq<Seq<char>>,
    /// How many values the undo stack keeps.
    pub capacity: nat,
}

impl HistoryModel {
    /// The undo stack never holds more than the capacity.
    pub open spec fn wf(self) -> bool {
        self.undo.len() <= self.capacity
    }

    /// A history over `initial` with nothing to undo or redo.
    pub open spec fn fresh(initial: Seq<char>, capacity: nat) -> HistoryModel {
        HistoryModel { current: initial, undo: Seq::empty(), redo: Seq::empty(), capacity }
    }

    /// The state after an edit to `v`: an edit to the current value changes
    /// nothing; any other edit saves the current value on the undo stack,
    /// dropping its oldest entry when it is full, and forgets what could be redone.
    pub open spec fn after_push(self, v: Seq<char>) -> HistoryModel {
        if v == self.current {
            self
        } else {
            HistoryModel {
                current: v,
                undo: keep_last(self.undo.push(self.current), self.capacity),
                redo: Seq::empty(),
                capacity: self.capacity,
            }
        }
    }

    /// The state after an undo: the latest saved value becomes current and the
    /// replaced one can be redone. With nothing to undo, nothing changes.
    pub open spec fn after_undo(self) -> HistoryModel {
        if self.undo.len() == 0 {
            self
        } else {
            HistoryModel {
                current: self.undo.last(),
                undo: self.undo.drop_last(),
                redo: self.redo.push(self.current),
                capacity: self.capacity,
            }
        }
    }

    /// The state after a redo: the latest undone value becomes current and the
    /// replaced one goes back on the undo stack. With nothing to redo, nothing changes.
    pub open spec fn after_redo(self) -> HistoryModel {
        if self.redo.len() == 0 {
            self
        } else {
            HistoryModel {
                current: self.redo.last(),
                undo: keep_last(self.undo.push(self.current), self.capacity),
                redo: self.redo.drop_last(),
                capacity: self.capacity,
            }
        }
    }
}

/// The history after each edit of `values` in turn.
pub open spec fn push_all(h: HistoryModel, values: Seq<Seq<char>>) -> HistoryModel
    decreases values.len(),
{
    if values.len() == 0 {
        h
    } else {
        push_all(h, values.drop_last()).after_push(values.last())
    }
}

/// Each of `values` differs from the one before it, and the first from `first`.
pub open spec fn each_differs(first: Seq<char>, values: Seq<Seq<char>>) -> bool {
    &&& values.len() > 0 ==> values[0] != first
    &&& forall|i: int| 0 < i < values.len() ==> #[trigger] values[i] != values[i - 1]
}

proof fn lemma_keep_last_push(s: Seq<Seq<char>>, v: Seq<char>, n: nat)
    ensures
        keep_last(keep_last(s, n).push(v), n) == keep_last(s.push(v), n),
{
    if s.len() > n {
        let k = s.skip(s.len() - n);
        assert(k.push(v).skip(1) =~= s.push(v).skip(s.len() + 1 - n));
    }
}

proof fn lemma_keep_last_len(s: Seq<Seq<char>>, n: nat)
    ensures
        keep_last(s, n).len() == if s.len() > n {
            n
        } else {
            s.len()
        },
{
}

/// An edit, an undo and a redo each keep the undo stack within its capacity.
pub proof fn lemma_steps_keep_wf(h: HistoryModel, v: Seq<char>)
    requires
        h.wf(),
    ensures
        h.after_push(v).wf(),
        h.after_undo().wf(),
        h.after_redo().wf(),
{
    lemma_keep_last_len(h.undo.push(h.current), h.capacity);
}

/// Undoing an edit brings back the value it replaced, and redoing it then
/// restores the state right after the edit, edited value included.
pub proof fn lemma_undo_redo_round_trip(h: HistoryModel, v: Seq<char>)
    requires
        h.wf(),
        h.capacity > 0,
        v != h.current,
    ensures
        h.after_push(v).undo.len() > 0,
        h.after_push(v).after_undo().current == h.current,
        h.after_push(v).after_undo().redo.len() > 0,
        h.after_push(v).after_undo().after_redo() == h.after_push(v),
        h.after_push(v).after_undo().after_redo().current == v,
{
    let pushed = h.undo.push(h.current);
    let k = keep_last(pushed, h.capacity);
    lemma_keep_last_len(pushed, h.capacity);
    if pushed.len() > h.capacity {
        assert(k.last() == pushed.last());
    }
    assert(k.drop_last().push(h.current) =~= k);
    let h1 = h.after_push(v);
    let h3 = h1.after_undo().after_redo();
    assert(h3.redo =~= h1.redo);
    assert(h3.undo =~= h1.undo);
}

/// An edit to the value that is already current changes nothing.
pub proof fn lemma_push_current_changes_nothing(h: HistoryModel)
    ensures
        h.after_push(h.current) == h,
        h.after_push(h.current).undo.len() == h.undo.len(),
{
}

/// Starting from a fresh history, a run of edits that each change the value
/// leaves on the undo stack the most recent replaced values, as many as the
/// capacity allows, oldest first: older ones are dropped first.
pub proof fn lemma_undo_keeps_most_recent(
    initial: Seq<char>,
    capacity: nat,
    values: Seq<Seq<char>>,
)
    requires
        each_differs(initial, values),
    ensures
        push_all(HistoryModel::fresh(initial, capacity), values).capacity == capacity,
        push_all(HistoryModel::fresh(initial, capacity), values).current == seq![initial].add(
            values,
        ).last(),
        push_all(HistoryModel::fresh(initial, capacity), values).undo == keep_last(
            seq![initial].add(values).drop_last(),
            capacity,
        ),
        values.len() >= capacity ==> push_all(
            HistoryModel::fresh(initial, capacity),
            values,
        ).undo.len() == capacity,
    decreases values.len(),
{
    let all = seq![initial].add(values);
    let h0 = HistoryModel::fresh(initial, capacity);
    if values.len() == 0 {
        assert(all.drop_last() =~= Seq::<Seq<char>>::empty());
    } else {
        let n = values.len();
        let ws = values.drop_last();
        assert forall|i: int| 0 < i < ws.len() implies #[trigger] ws[i] != ws[i - 1] by {
            assert(values[i] != values[i - 1]);
        }
        lemma_undo_keeps_most_recent(initial, capacity, ws);
        let hw = push_all(h0, ws);
        let before = seq![initial].add(ws);
        assert(hw.current == before.last());
        if n == 1 {
            assert(before.last() == initial);
        } else {
            assert(before.last() == values[n - 2]);
            assert(values[n - 1] != values[n - 2]);
        }
        assert(values.last() != hw.current);
        assert(before.drop_last().push(before.last()) =~= all.drop_last());
        lemma_keep_last_push(before.drop_last(), before.last(), capacity);
        assert(all.last() == values.last());
    }
    lemma_keep_last_len(all.drop_last(), capacity);
}

/// An edit made after an undo leaves nothing to redo.
pub proof fn lemma_edit_after_undo_clears_redo(h: HistoryModel, v: Seq<char>)
    requires
        v != h.after_undo().current,
    ensures
        h.after_undo().after_push(v).redo.len() == 0,
        h.after_undo().after_push(v).after_redo() == h.after_undo().after_push(v),
{
}

/// A text value with a bounded undo stack and a redo stack.
pub struct TextHistory {
    current: String,
    undo_stack: Vec<String>,
    redo_stack: Vec<String>,
    capacity: usize,
}

/// The characters of each string in `v`.
pub open spec fn texts(v: Seq<String>) -> Seq<Seq<char>> {
    v.map_values(|s: String| s@)
}

impl View for TextHistory {
    type V = HistoryModel;

    closed spec fn view(&self) -> HistoryModel {
        HistoryModel {
            current: self.current@,
            undo: texts(self.undo_stack@),
            redo: texts(self.redo_stack@),
            capacity: self.capacity as nat,
        }
    }
}

/// A copy of each string of `v`, in order.
fn copy_texts(v: &Vec<String>) -> (r: Vec<String>)
    ensures
        texts(r@) == texts(v@),
{
    let mut r: Vec<String> = Vec::new();
    let mut i: usize = 0;
    while i < v.len()
        invariant
            i <= v@.len(),
            r@.len() == i,
            forall|k: int| 0 <= k < i ==> r@[k]@ == v@[k]@,
        decreases v@.len() - i,
    {
        r.push(v[i].clone());
        i = i + 1;
    }
    assert(texts(r@) =~= texts(v@));
    r
}

impl TextHistory {
    /// The history invariant holds.
    pub open spec fn wf(&self) -> bool {
        self@.wf()
    }

    /// A history over `initial` that keeps up to `capacity` values to undo.
    pub fn new(initial: &str, capacity: usize) -> (r: Self)
        ensures
            r.wf(),
            r@ == HistoryModel::fresh(initial@, capacity as nat),
    {
        let r = TextHistory {
            current: initial.to_owned(),
            undo_stack: Vec::new(),
            redo_stack: Vec::new(),
            capacity,
        };
        assert(r@.undo =~= Seq::<Seq<char>>::empty());
        assert(r@.redo =~= Seq::<Seq<char>>::empty());
        r
    }

    /// Saves `value` on the undo stack, dropping the oldest entry when it is full.
    fn save_for_undo(&mut self, value: String)
        requires
            old(self).wf(),
        ensures
            final(self).wf(),
            final(self).current == old(self).current,
            final(self).redo_stack == old(self).redo_stack,
            final(self).capacity == old(self).capacity,
            final(self)@.undo == keep_last(old(self)@.undo.push(value@), old(self)@.capacity),
    {
        let ghost pushed = old(self)@.undo.push(value@);
        if self.capacity == 0 {
            assert(keep_last(pushed, 0) =~= Seq::<Seq<char>>::empty());
            assert(self@.undo =~= Seq::<Seq<char>>::empty());
            return;
        }
        if self.undo_stack.len() >= self.capacity {
            self.undo_stack.remove(0);
            self.undo_stack.push(value);
            assert(self@.undo =~= pushed.skip(1));
        } else {
            self.undo_stack.push(value);
            assert(self@.undo =~= pushed);
        }
    }

    /// Records an edit of the value to `value`. An edit to the current value
    /// changes nothing; any other one can be undone and clears the redo stack.
    pub fn push(&mut self, value: &str)
        requires
            old(self).wf(),
        ensures
            final(self).wf(),
            final(self)@ == old(self)@.after_push(value@),
    {
        let v = value.to_owned();
        if v == self.current {
            return;
        }
        let prev = self.current.clone();
        self.save_for_undo(prev);
        self.current = v;
        self.redo_stack.clear();
        assert(self@.redo =~= Seq::<Seq<char>>::empty());
    }

    /// Steps back to the latest saved value and returns it; returns nothing
    /// and changes nothing when there is nothing to undo.
    pub fn undo(&mut self) -> (r: Option<String>)
        requires
            old(self).wf(),
        ensures
            final(self).wf(),
            final(self)@ == old(self)@.after_undo(),
            r is Some <==> old(self)@.undo.len() > 0,
            r matches Some(s) ==> s@ == final(self)@.current,
    {
        match self.undo_stack.pop() {
            None => None,
            Some(prev) => {
                let replaced = self.current.clone();
                self.current = prev;
                self.redo_stack.push(replaced);
                assert(self@.undo =~= old(self)@.undo.drop_last());
                assert(self@.redo =~= old(self)@.redo.push(old(self)@.current));
                Some(self.current.clone())
            },
        }
    }

    /// Steps forward to the latest undone value and returns it; returns nothing
    /// and changes nothing when there is nothing to redo.
    pub fn redo(&mut self) -> (r: Option<String>)
        requires
            old(self).wf(),
        ensures
            final(self).wf(),
            final(self)@ == old(self)@.after_redo(),
            r is Some <==> old(self)@.redo.len() > 0,
            r matches Some(s) ==> s@ == final(self)@.current,
    {
        match self.redo_stack.pop() {
            None => None,
            Some(next) => {
                assert(self@.redo =~= old(self)@.redo.drop_last());
                let replaced = self.current.clone();
                self.save_for_undo(replaced);
                self.current = next;
                Some(self.current.clone())
            },
        }
    }

    /// The live value.
    pub fn current(&self) -> (r: &String)
        ensures
            r@ == self@.current,
    {
        &self.current
    }

    /// How many values the undo stack keeps.
    pub fn capacity(&self) -> (r: usize)
        ensures
            r == self@.capacity,
    {
        self.capacity
    }

    /// The values that can be undone, the most recent last.
    pub fn undo_stack(&self) -> (r: Vec<String>)
        ensures
            texts(r@) == self@.undo,
    {
        copy_texts(&self.undo_stack)
    }

    /// The values that can be redone, the most recent last.
    pub fn redo_stack(&self) -> (r: Vec<String>)
        ensures
            texts(r@) == self@.redo,
    {
        copy_texts(&self.redo_stack)
    }
}

} // verus!
