//! Undo/redo history with coalesced typing runs and a bounded depth.
use vstd::prelude::*;

use crate::text::copy_chars;

verus! {

/// What an editor looks like at one point in time: every field's value, the
/// current field and the cursor.
pub struct CheckpointView {
    pub values: Seq<Seq<char>>,
    pub field: nat,
    pub cursor: nat,
}

/// A stored editor state.
pub struct Checkpoint {
    values: Vec<Vec<char>>,
    field: usize,
    cursor: usize,
}

impl View for Checkpoint {
    type V = CheckpointView;

    closed spec fn view(&self) -> CheckpointView {
        CheckpointView {
            values: self.values@.map_values(|v: Vec<char>| v@),
            field: self.field as nat,
            cursor: self.cursor as nat,
        }
    }
}

/// Copies every field value.
pub fn copy_values(values: &Vec<Vec<char>>) -> (res: Vec<Vec<char>>)
    ensures
        res@.map_values(|v: Vec<char>| v@) == values@.map_values(|v: Vec<char>| v@),
{
    let mut out: Vec<Vec<char>> = Vec::new();
    let mut i: usize = 0;
    while i < values.len()
        invariant
            i <= values@.len(),
            out@.len() == i,
            forall|k: int| 0 <= k < i ==> (#[trigger] out@[k])@ == values@[k]@,
        decreases values@.len() - i,
    {
        out.push(copy_chars(&values[i]));
        i += 1;
    }
    proof {
        assert(out@.map_values(|v: Vec<char>| v@) =~= values@.map_values(|v: Vec<char>| v@));
    }
    out
}

impl Checkpoint {
    /// A checkpoint of the given state.
    pub fn new(values: &Vec<Vec<char>>, field: usize, cursor: usize) -> (res: Self)
        ensures
            res@ == (CheckpointView {
                values: values@.map_values(|v: Vec<char>| v@),
                field: field as nat,
                cursor: cursor as nat,
            }),
    {
        Checkpoint { values: copy_values(values), field, cursor }
    }

    /// Takes the checkpoint apart into its values, field and cursor.
    pub fn into_parts(self) -> (res: (Vec<Vec<char>>, usize, usize))
        ensures
            res.0@.map_values(|v: Vec<char>| v@) == self@.values,
            res.1 == self@.field,
            res.2 == self@.cursor,
    {
        (self.values, self.field, self.cursor)
    }
}

/// The kind of the latest recorded edit; consecutive `Insert` edits, and
/// consecutive `Delete` edits, share one undo step.
#[derive(Debug, Clone, Copy, PartialEq, Eq, Structural)]
pub enum EditKind {
    /// No typing run is open.
    Idle,
    /// A run of character insertions.
    Insert,
    /// A run of character deletions.
    Delete,
    /// Any other change; never coalesced.
    Other,
}

/// Default number of undo steps kept.
pub const DEFAULT_HISTORY_LIMIT: usize = 100;

/// `s` with `x` appended, dropping the oldest element when that exceeds
/// `limit` elements.
pub open spec fn push_bounded<T>(s: Seq<T>, x: T, limit: nat) -> Seq<T> {
    if s.len() + 1 > limit {
        s.push(x).drop_first()
    } else {
        s.push(x)
    }
}

/// The newest `limit` elements of `s`.
pub open spec fn keep_newest<T>(s: Seq<T>, limit: nat) -> Seq<T> {
    if s.len() > limit {
        s.subrange(s.len() - limit, s.len() as int)
    } else {
        s
    }
}

/// Undo and redo stacks of checkpoints.
pub struct EditHistory {
    undo: Vec<Checkpoint>,
    redo: Vec<Checkpoint>,
    limit: usize,
    last: EditKind,
}

impl EditHistory {
    /// The undo stack, oldest first.
    pub closed spec fn undo_view(self) -> Seq<CheckpointView> {
        self.undo@.map_values(|c: Checkpoint| c@)
    }

    /// The redo stack, oldest first.
    pub closed spec fn redo_view(self) -> Seq<CheckpointView> {
        self.redo@.map_values(|c: Checkpoint| c@)
    }

    /// The maximum number of undo steps.
    pub closed spec fn limit_view(self) -> nat {
        self.limit as nat
    }

    /// The kind of the open typing run.
    pub closed spec fn last_view(self) -> EditKind {
        self.last
    }

    /// The undo stack never holds more steps than the limit.
    pub open spec fn wf(self) -> bool {
        self.undo_view().len() <= self.limit_view()
    }

    /// Whether recording an edit of kind `kind` extends the open run.
    pub open spec fn coalesces(self, kind: EditKind) -> bool {
        (kind == EditKind::Insert || kind == EditKind::Delete) && self.last_view() == kind
    }

    /// An empty history with the default limit.
    pub fn new() -> (res: Self)
        ensures
            res.wf(),
            res.undo_view().len() == 0,
            res.redo_view().len() == 0,
            res.limit_view() == DEFAULT_HISTORY_LIMIT,
            res.last_view() == EditKind::Idle,
    {
        EditHistory { undo: Vec::new(), redo: Vec::new(), limit: DEFAULT_HISTORY_LIMIT, last: EditKind::Idle }
    }

    /// Whether a step can be undone.
    pub fn can_undo(&self) -> (res: bool)
        ensures
            res == (self.undo_view().len() > 0),
    {
        self.undo.len() > 0
    }

    /// Whether a step can be redone.
    pub fn can_redo(&self) -> (res: bool)
        ensures
            res == (self.redo_view().len() > 0),
    {
        self.redo.len() > 0
    }

    fn push_undo(&mut self, cp: Checkpoint)
        requires
            old(self).wf(),
        ensures
            final(self).wf(),
            final(self).undo_view() == push_bounded(old(self).undo_view(), cp@, old(self).limit_view()),
            final(self).redo_view() == old(self).redo_view(),
            final(self).limit_view() == old(self).limit_view(),
            final(self).last_view() == old(self).last_view(),
    {
        let ghost before = self.undo_view();
        self.undo.push(cp);
        proof {
            assert(self.undo_view() =~= before.push(cp@));
        }
        if self.undo.len() > self.limit {
            let ghost pushed = self.undo_view();
            let _ = self.undo.remove(0);
            proof {
                assert(self.undo_view() =~= pushed.drop_first());
            }
        }
    }

    /// Records that an edit of kind `kind` is about to change the state
    /// `before`: a new undo step unless the edit extends the open run;
    /// clears the redo stack.
    pub fn record(&mut self, kind: EditKind, before: Checkpoint)
        requires
            old(self).wf(),
        ensures
            final(self).wf(),
            final(self).limit_view() == old(self).limit_view(),
            final(self).last_view() == kind,
            old(self).coalesces(kind) ==> final(self).undo_view() == old(self).undo_view(),
            !old(self).coalesces(kind) ==> final(self).undo_view() == push_bounded(
                old(self).undo_view(),
                before@,
                old(self).limit_view(),
            ),
            final(self).redo_view().len() == 0,
    {
        let coalesce = (kind == EditKind::Insert || kind == EditKind::Delete) && self.last == kind;
        if !coalesce {
            self.push_undo(before);
        }
        self.redo.clear();
        proof {
            assert(self.redo_view() =~= Seq::<CheckpointView>::empty());
        }
        self.last = kind;
    }

    /// Closes the open typing run, so the next edit starts a new step.
    pub fn break_run(&mut self)
        ensures
            final(self).undo_view() == old(self).undo_view(),
            final(self).redo_view() == old(self).redo_view(),
            final(self).limit_view() == old(self).limit_view(),
            final(self).last_view() == EditKind::Idle,
    {
        self.last = EditKind::Idle;
    }

    /// Steps back: returns the newest undo checkpoint and stores `current`
    /// for redo; `None`, with nothing changed, when there is nothing to undo.
    pub fn undo(&mut self, current: Checkpoint) -> (res: Option<Checkpoint>)
        requires
            old(self).wf(),
        ensures
            final(self).wf(),
            final(self).limit_view() == old(self).limit_view(),
            old(self).undo_view().len() == 0 ==> res is None && final(self).undo_view()
                == old(self).undo_view() && final(self).redo_view() == old(self).redo_view()
                && final(self).last_view() == old(self).last_view(),
            old(self).undo_view().len() > 0 ==> (res matches Some(cp) && cp@ == old(self).undo_view().last()
                && final(self).undo_view() == old(self).undo_view().drop_last()
                && final(self).redo_view() == old(self).redo_view().push(current@)
                && final(self).last_view() == EditKind::Idle),
    {
        if self.undo.len() == 0 {
            return None;
        }
        let ghost u = self.undo_view();
        let ghost r = self.redo_view();
        let cp = self.undo.pop().unwrap();
        self.redo.push(current);
        self.last = EditKind::Idle;
        proof {
            assert(self.undo_view() =~= u.drop_last());
            assert(self.redo_view() =~= r.push(current@));
        }
        Some(cp)
    }

    /// Steps forward: returns the newest redo checkpoint and stores
    /// `current` for undo; `None`, with nothing changed, when there is
    /// nothing to redo.
    pub fn redo(&mut self, current: Checkpoint) -> (res: Option<Checkpoint>)
        requires
            old(self).wf(),
        ensures
            final(self).wf(),
            final(self).limit_view() == old(self).limit_view(),
            old(self).redo_view().len() == 0 ==> res is None && final(self).undo_view()
                == old(self).undo_view() && final(self).redo_view() == old(self).redo_view()
                && final(self).last_view() == old(self).last_view(),
            old(self).redo_view().len() > 0 ==> (res matches Some(cp) && cp@ == old(self).redo_view().last()
                && final(self).redo_view() == old(self).redo_view().drop_last()
                && final(self).undo_view() == push_bounded(
                old(self).undo_view(),
                current@,
                old(self).limit_view(),
            ) && final(self).last_view() == EditKind::Idle),
    {
        if self.redo.len() == 0 {
            return None;
        }
        let ghost r = self.redo_view();
        let cp = self.redo.pop().unwrap();
        proof {
            assert(self.redo_view() =~= r.drop_last());
        }
        self.push_undo(current);
        self.last = EditKind::Idle;
        Some(cp)
    }

    /// Forgets every step.
    pub fn clear(&mut self)
        ensures
            final(self).wf(),
            final(self).undo_view().len() == 0,
            final(self).redo_view().len() == 0,
            final(self).limit_view() == old(self).limit_view(),
            final(self).last_view() == EditKind::Idle,
    {
        self.undo.clear();
        self.redo.clear();
        self.last = EditKind::Idle;
        proof {
            assert(self.undo_view() =~= Seq::<CheckpointView>::empty());
            assert(self.redo_view() =~= Seq::<CheckpointView>::empty());
        }
    }

    /// Sets the maximum number of undo steps, dropping the oldest steps
    /// beyond it.
    pub fn set_limit(&mut self, limit: usize)
        requires
            old(self).wf(),
        ensures
            final(self).wf(),
            final(self).limit_view() == limit,
            final(self).undo_view() == keep_newest(old(self).undo_view(), limit as nat),
            final(self).redo_view() == old(self).redo_view(),
            final(self).last_view() == old(self).last_view(),
    {
        let ghost u = self.undo_view();
        let ghost r = self.redo_view();
        let ghost l = self.last;
        self.limit = limit;
        let ghost mut dropped: int = 0;
        while self.undo.len() > limit
            invariant
                self.limit == limit,
                self.redo_view() == r,
                self.last == l,
                0 <= dropped <= u.len(),
                self.undo_view() == u.subrange(dropped, u.len() as int),
                u.len() > limit ==> dropped <= u.len() - limit,
                u.len() <= limit ==> dropped == 0,
            decreases self.undo@.len(),
        {
            let ghost before = self.undo_view();
            let _ = self.undo.remove(0);
            proof {
                assert(self.undo_view() =~= before.drop_first());
                assert(before.drop_first() =~= u.subrange(dropped + 1, u.len() as int));
                dropped = dropped + 1;
            }
        }
        proof {
            if u.len() > limit {
                assert(dropped == u.len() - limit);
            }
            assert(self.undo_view() =~= keep_newest(u, limit as nat));
        }
    }
}

} // verus!
