use vstd::prelude::*;

use crate::redirect::{
    with_field, RedirectEditActionField, RedirectError, RedirectList, RedirectRule,
};
use crate::text_history::{lemma_steps_keep_wf, HistoryModel, TextHistory};

verus! {

/// How many earlier values each field of a row can undo.
pub const HISTORY_CAPACITY: usize = 100;

/// The edit history of one row: one history for each field.
pub struct RedirectEditorRow {
    pub source_text_history: TextHistory,
    pub target_text_history: TextHistory,
}

impl View for RedirectEditorRow {
    type V = (HistoryModel, HistoryModel);

    open spec fn view(&self) -> (HistoryModel, HistoryModel) {
        (self.source_text_history@, self.target_text_history@)
    }
}

impl RedirectEditorRow {
    /// A row whose histories start at the given values, with nothing to undo.
    pub fn new(initial_source: &str, initial_target: &str) -> (r: Self)
        ensures
            r@ == fresh_row((initial_source@, initial_target@)),
    {
        RedirectEditorRow {
            source_text_history: TextHistory::new(initial_source, HISTORY_CAPACITY),
            target_text_history: TextHistory::new(initial_target, HISTORY_CAPACITY),
        }
    }
}

/// The histories of a row just made for `rule`.
pub open spec fn fresh_row(rule: (Seq<char>, Seq<char>)) -> (HistoryModel, HistoryModel) {
    (
        HistoryModel::fresh(rule.0, HISTORY_CAPACITY as nat),
        HistoryModel::fresh(rule.1, HISTORY_CAPACITY as nat),
    )
}

/// `row` after an edit of `field` to `value`.
pub open spec fn row_after_push(
    row: (HistoryModel, HistoryModel),
    field: RedirectEditActionField,
    value: Seq<char>,
) -> (HistoryModel, HistoryModel) {
    match field {
        RedirectEditActionField::Source => (row.0.after_push(value), row.1),
        RedirectEditActionField::Target => (row.0, row.1.after_push(value)),
    }
}

/// Both histories of `row` are well formed and show the fields of `rule`.
pub open spec fn row_tracks(row: (HistoryModel, HistoryModel), rule: (Seq<char>, Seq<char>)) -> bool {
    &&& row.0.wf()
    &&& row.1.wf()
    &&& row.0.current == rule.0
    &&& row.1.current == rule.1
}

/// An edit of the redirect list, addressed by row index.
#[derive(Clone, Debug)]
pub enum EditAction {
    /// Appends an empty rule.
    Add,
    /// Sets a field of the rule at an index.
    Change(usize, RedirectEditActionField, String),
    /// Removes the rule at an index.
    Remove(usize),
}

/// The abstract form of an [`EditAction`].
pub ghost enum ActionModel {
    Add,
    Change(usize, RedirectEditActionField, Seq<char>),
    Remove(usize),
}

impl View for EditAction {
    type V = ActionModel;

    open spec fn view(&self) -> ActionModel {
        match self {
            EditAction::Add => ActionModel::Add,
            EditAction::Change(i, f, v) => ActionModel::Change(*i, *f, v@),
            EditAction::Remove(i) => ActionModel::Remove(*i),
        }
    }
}

/// The abstract state of a [`RedirectEditor`]: the rules and, at the same
/// index, the histories of each rule's fields.
pub ghost struct EditorModel {
    pub rules: Seq<(Seq<char>, Seq<char>)>,
    pub rows: Seq<(HistoryModel, HistoryModel)>,
}

impl EditorModel {
    /// There is one row for each rule, and each row's histories show its rule.
    pub open spec fn wf(self) -> bool {
        &&& self.rows.len() == self.rules.len()
        &&& forall|i: int| 0 <= i < self.rows.len() ==> row_tracks(self.rows[i], self.rules[i])
    }

    /// The state after `a`, and its outcome. An action on a missing index is
    /// rejected and changes nothing.
    pub open spec fn apply(self, a: ActionModel) -> (EditorModel, Result<(), RedirectError>) {
        match a {
            ActionModel::Add => {
                let rule = (Seq::<char>::empty(), Seq::<char>::empty());
                (
                    EditorModel {
                        rules: self.rules.push(rule),
                        rows: self.rows.push(fresh_row(rule)),
                    },
                    Ok(()),
                )
            },
            ActionModel::Remove(i) => {
                if i < self.rules.len() {
                    (
                        EditorModel {
                            rules: self.rules.remove(i as int),
                            rows: self.rows.remove(i as int),
                        },
                        Ok(()),
                    )
                } else {
                    (self, Err(RedirectError::IndexOutOfRange))
                }
            },
            ActionModel::Change(i, f, v) => {
                if i < self.rules.len() {
                    (
                        EditorModel {
                            rules: self.rules.update(i as int, with_field(self.rules[i as int], f, v)),
                            rows: self.rows.update(i as int, row_after_push(self.rows[i as int], f, v)),
                        },
                        Ok(()),
                    )
                } else {
                    (self, Err(RedirectError::IndexOutOfRange))
                }
            },
        }
    }

    /// The history of `field` in the row at `i`.
    pub open spec fn history(self, i: int, field: RedirectEditActionField) -> HistoryModel {
        match field {
            RedirectEditActionField::Source => self.rows[i].0,
            RedirectEditActionField::Target => self.rows[i].1,
        }
    }

    /// The state in which the history of `field` in the row at `i` is `h`,
    /// and that field of the rule at `i` is the current value of `h`.
    pub open spec fn with_history(
        self,
        i: int,
        field: RedirectEditActionField,
        h: HistoryModel,
    ) -> EditorModel {
        EditorModel {
            rules: self.rules.update(i, with_field(self.rules[i], field, h.current)),
            rows: self.rows.update(
                i,
                match field {
                    RedirectEditActionField::Source => (h, self.rows[i].1),
                    RedirectEditActionField::Target => (self.rows[i].0, h),
                },
            ),
        }
    }
}

/// The state after each action of `actions` in turn.
pub open spec fn apply_all(m: EditorModel, actions: Seq<ActionModel>) -> EditorModel
    decreases actions.len(),
{
    if actions.len() == 0 {
        m
    } else {
        apply_all(m, actions.drop_last()).apply(actions.last()).0
    }
}

/// Every action keeps one row for each rule, each row showing its rule.
pub proof fn lemma_apply_keeps_rows_aligned(m: EditorModel, a: ActionModel)
    requires
        m.wf(),
    ensures
        m.apply(a).0.wf(),
        m.apply(a).0.rules.len() == m.apply(a).0.rows.len(),
{
    let next = m.apply(a).0;
    match a {
        ActionModel::Add => {
            assert forall|i: int| 0 <= i < next.rows.len() implies row_tracks(
                #[trigger] next.rows[i],
                next.rules[i],
            ) by {
                if i < m.rows.len() {
                    assert(next.rows[i] == m.rows[i]);
                }
            }
        },
        ActionModel::Remove(k) => {
            if k < m.rules.len() {
                assert forall|i: int| 0 <= i < next.rows.len() implies row_tracks(
                    #[trigger] next.rows[i],
                    next.rules[i],
                ) by {
                    if i < k {
                        assert(next.rows[i] == m.rows[i]);
                    } else {
                        assert(next.rows[i] == m.rows[i + 1]);
                    }
                }
            }
        },
        ActionModel::Change(k, f, v) => {
            if k < m.rules.len() {
                let row = m.rows[k as int];
                assert(row_tracks(row, m.rules[k as int]));
                lemma_steps_keep_wf(row.0, v);
                lemma_steps_keep_wf(row.1, v);
                assert forall|i: int| 0 <= i < next.rows.len() implies row_tracks(
                    #[trigger] next.rows[i],
                    next.rules[i],
                ) by {
                    if i != k {
                        assert(next.rows[i] == m.rows[i]);
                    }
                }
            }
        },
    }
}

/// After any run of actions the list and the histories have the same length,
/// and each row's histories show the fields of the rule at its index.
pub proof fn lemma_actions_keep_rows_aligned(m: EditorModel, actions: Seq<ActionModel>)
    requires
        m.wf(),
    ensures
        apply_all(m, actions).wf(),
        apply_all(m, actions).rules.len() == apply_all(m, actions).rows.len(),
    decreases actions.len(),
{
    if actions.len() > 0 {
        lemma_actions_keep_rows_aligned(m, actions.drop_last());
        lemma_apply_keeps_rows_aligned(apply_all(m, actions.drop_last()), actions.last());
    }
}

/// Removing at an index past the end fails with `IndexOutOfRange` and leaves
/// both the list and the histories as they were.
pub proof fn lemma_remove_past_end_changes_nothing(m: EditorModel, i: usize)
    requires
        i >= m.rules.len(),
    ensures
        m.apply(ActionModel::Remove(i)) == (m, Err::<(), RedirectError>(
            RedirectError::IndexOutOfRange,
        )),
{
}

/// The redirect list together with the edit histories of its rows, changed
/// only through [`EditAction`]s so that the two never fall out of step.
pub struct RedirectEditor {
    redirects: RedirectList,
    rows: Vec<RedirectEditorRow>,
}

/// The views of the rows in `v`.
pub open spec fn row_views(v: Seq<RedirectEditorRow>) -> Seq<(HistoryModel, HistoryModel)> {
    v.map_values(|r: RedirectEditorRow| r@)
}

impl View for RedirectEditor {
    type V = EditorModel;

    closed spec fn view(&self) -> EditorModel {
        EditorModel { rules: self.redirects@, rows: row_views(self.rows@) }
    }
}

impl RedirectEditor {
    /// The editor invariant holds.
    pub open spec fn wf(&self) -> bool {
        self@.wf()
    }

    /// An editor without rules.
    pub fn new() -> (r: Self)
        ensures
            r.wf(),
            r@.rules.len() == 0,
    {
        let r = RedirectEditor { redirects: RedirectList::new(), rows: Vec::new() };
        assert(r@.rows =~= Seq::<(HistoryModel, HistoryModel)>::empty());
        r
    }

    /// An editor over `redirects`, each row's histories starting at its rule.
    pub fn from_list(redirects: RedirectList) -> (r: Self)
        ensures
            r.wf(),
            r@.rules == redirects@,
            r@.rows == redirects@.map_values(|rule: (Seq<char>, Seq<char>)| fresh_row(rule)),
    {
        let mut rows: Vec<RedirectEditorRow> = Vec::new();
        let n = redirects.len();
        let mut i: usize = 0;
        while i < n
            invariant
                n == redirects@.len(),
                i <= n,
                rows@.len() == i,
                forall|k: int| 0 <= k < i ==> rows@[k]@ == fresh_row(redirects@[k]),
            decreases n - i,
        {
            let rule = redirects.get(i).unwrap();
            rows.push(RedirectEditorRow::new(rule.source.as_str(), rule.target.as_str()));
            i = i + 1;
        }
        let r = RedirectEditor { redirects, rows };
        assert(r@.rows =~= r@.rules.map_values(|rule: (Seq<char>, Seq<char>)| fresh_row(rule)));
        r
    }

    /// The redirect rules.
    pub fn redirects(&self) -> (r: &RedirectList)
        ensures
            r@ == self@.rules,
    {
        &self.redirects
    }

    /// The number of rows.
    pub fn len(&self) -> (r: usize)
        requires
            self.wf(),
        ensures
            r == self@.rows.len(),
            r == self@.rules.len(),
    {
        self.rows.len()
    }

    /// The histories of the row at `index`, if there is one.
    pub fn row(&self, index: usize) -> (r: Option<&RedirectEditorRow>)
        ensures
            r is Some <==> index < self@.rows.len(),
            r matches Some(row) ==> row@ == self@.rows[index as int],
    {
        if index < self.rows.len() {
            Some(&self.rows[index])
        } else {
            None
        }
    }

    /// Applies `action` to the list and to the histories together. An action
    /// on a missing index fails with `IndexOutOfRange` and changes neither.
    pub fn apply(&mut self, action: EditAction) -> (r: Result<(), RedirectError>)
        requires
            old(self).wf(),
        ensures
            final(self).wf(),
            (final(self)@, r) == old(self)@.apply(action@),
    {
        let ghost m = old(self)@;
        match action {
            EditAction::Add => {
                self.redirects.add(RedirectRule::empty());
                let empty = String::new();
                self.rows.push(RedirectEditorRow::new(empty.as_str(), empty.as_str()));
                assert(self@.rows =~= m.rows.push(
                    fresh_row((Seq::<char>::empty(), Seq::<char>::empty())),
                ));
                Ok(())
            },
            EditAction::Remove(index) => {
                if index >= self.rows.len() {
                    return Err(RedirectError::IndexOutOfRange);
                }
                let removed = self.redirects.remove(index);
                self.rows.remove(index);
                assert(self@.rows =~= m.rows.remove(index as int));
                removed
            },
            EditAction::Change(index, field, value) => {
                if index >= self.rows.len() {
                    return Err(RedirectError::IndexOutOfRange);
                }
                let changed = self.redirects.change(index, field, value.as_str());
                match field {
                    RedirectEditActionField::Source => {
                        self.rows[index].source_text_history.push(value.as_str());
                    },
                    RedirectEditActionField::Target => {
                        self.rows[index].target_text_history.push(value.as_str());
                    },
                }
                assert(self@.rows =~= m.rows.update(
                    index as int,
                    row_after_push(m.rows[index as int], field, value@),
                ));
                changed
            },
        }
    }
    /// Steps the history of `field` in the row at `index` back, and sets that
    /// field of the rule to the value it brings back. Returns that value, or
    /// nothing when there is nothing to undo; fails with `IndexOutOfRange`,
    /// changing nothing, when there is no such row.
    pub fn undo(&mut self, index: usize, field: RedirectEditActionField) -> (r: Result<
        Option<String>,
        RedirectError,
    >)
        requires
            old(self).wf(),
        ensures
            final(self).wf(),
            index >= old(self)@.rules.len() ==> r == Err::<Option<String>, RedirectError>(
                RedirectError::IndexOutOfRange,
            ) && final(self)@ == old(self)@,
            index < old(self)@.rules.len() ==> {
                let h = old(self)@.history(index as int, field);
                &&& final(self)@ == old(self)@.with_history(index as int, field, h.after_undo())
                &&& r matches Ok(o)
                &&& (o is Some <==> h.undo.len() > 0)
                &&& (o matches Some(s) ==> s@ == h.after_undo().current)
            },
    {
        self.step(index, field, true)
    }

    /// Steps the history of `field` in the row at `index` forward, and sets
    /// that field of the rule to the value it brings back. Returns that value,
    /// or nothing when there is nothing to redo; fails with `IndexOutOfRange`,
    /// changing nothing, when there is no such row.
    pub fn redo(&mut self, index: usize, field: RedirectEditActionField) -> (r: Result<
        Option<String>,
        RedirectError,
    >)
        requires
            old(self).wf(),
        ensures
            final(self).wf(),
            index >= old(self)@.rules.len() ==> r == Err::<Option<String>, RedirectError>(
                RedirectError::IndexOutOfRange,
            ) && final(self)@ == old(self)@,
            index < old(self)@.rules.len() ==> {
                let h = old(self)@.history(index as int, field);
                &&& final(self)@ == old(self)@.with_history(index as int, field, h.after_redo())
                &&& r matches Ok(o)
                &&& (o is Some <==> h.redo.len() > 0)
                &&& (o matches Some(s) ==> s@ == h.after_redo().current)
            },
    {
        self.step(index, field, false)
    }

    /// An undo (`back`) or a redo of `field` in the row at `index`.
    fn step(&mut self, index: usize, field: RedirectEditActionField, back: bool) -> (r: Result<
        Option<String>,
        RedirectError,
    >)
        requires
            old(self).wf(),
        ensures
            final(self).wf(),
            index >= old(self)@.rules.len() ==> r == Err::<Option<String>, RedirectError>(
                RedirectError::IndexOutOfRange,
            ) && final(self)@ == old(self)@,
            index < old(self)@.rules.len() ==> {
                let h = old(self)@.history(index as int, field);
                let next = if back {
                    h.after_undo()
                } else {
                    h.after_redo()
                };
                &&& final(self)@ == old(self)@.with_history(index as int, field, next)
                &&& r matches Ok(o)
                &&& (o is Some <==> if back {
                    h.undo.len() > 0
                } else {
                    h.redo.len() > 0
                })
                &&& (o matches Some(s) ==> s@ == next.current)
            },
    {
        let ghost m = old(self)@;
        if index >= self.rows.len() {
            return Err(RedirectError::IndexOutOfRange);
        }
        let ghost h = m.history(index as int, field);
        proof {
            assert(row_tracks(m.rows[index as int], m.rules[index as int]));
            lemma_steps_keep_wf(h, h.current);
        }
        let stepped = match field {
            RedirectEditActionField::Source => {
                if back {
                    self.rows[index].source_text_history.undo()
                } else {
                    self.rows[index].source_text_history.redo()
                }
            },
            RedirectEditActionField::Target => {
                if back {
                    self.rows[index].target_text_history.undo()
                } else {
                    self.rows[index].target_text_history.redo()
                }
            },
        };
        let ghost next = if back {
            h.after_undo()
        } else {
            h.after_redo()
        };
        match &stepped {
            Some(text) => {
                let _ = self.redirects.change(index, field, text.as_str());
            },
            None => {
                assert(with_field(m.rules[index as int], field, next.current) == m.rules[index as int]);
                assert(m.rules.update(index as int, m.rules[index as int]) =~= m.rules);
            },
        }
        assert(self@.rows =~= m.with_history(index as int, field, next).rows);
        assert(self@.rules =~= m.with_history(index as int, field, next).rules);
        proof {
            let n = self@;
            assert forall|i: int| 0 <= i < n.rows.len() implies row_tracks(
                #[trigger] n.rows[i],
                n.rules[i],
            ) by {
                if i != index {
                    assert(n.rows[i] == m.rows[i]);
                }
            }
        }
        Ok(stepped)
    }
}

} // verus!
