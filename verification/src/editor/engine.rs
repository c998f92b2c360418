//! The editing engine shared by every widget: a fixed list of single-line
//! fields, a cursor, a mode, an undo history and per-field validation.
use vstd::prelude::*;

use crate::data_provider::DataProvider;
use crate::editor::behavior::{
    register_lines, EditError, KeybindingParadigm, PendingOperator, SelectionState, YankRegister,
};
use crate::editor::history::{
    Checkpoint, CheckpointView, EditHistory, EditKind, DEFAULT_HISTORY_LIMIT, push_bounded,
    keep_newest,
};
use crate::editor::words::{WordTarget, word_motion, word_motion_target};
use crate::modes::AppMode;
use crate::text::{chars_of, copy_chars, splice_chars, string_of, take_chars};
use crate::validation::config::ValidationConfig;
use crate::validation::mask::masked_display;
use crate::validation::result::{ExternalValidationState, ValidationResult};

verus! {

/// The largest cursor column in a field of `len` characters: past the last
/// character in insert mode, on it otherwise.
pub open spec fn max_cursor(len: nat, mode: AppMode) -> nat {
    if mode == AppMode::Ins || len == 0 {
        len
    } else {
        (len - 1) as nat
    }
}

/// Whether a checkpoint describes a valid state of an editor with `n` fields.
pub open spec fn valid_checkpoint(cp: CheckpointView, n: nat) -> bool {
    &&& cp.values.len() == n
    &&& (n > 0 ==> cp.field < n && cp.cursor <= cp.values[cp.field as int].len())
    &&& (n == 0 ==> cp.field == 0 && cp.cursor == 0)
}

/// Whether every checkpoint of `s` is valid for `n` fields.
pub open spec fn all_valid(s: Seq<CheckpointView>, n: nat) -> bool {
    forall|i: int| 0 <= i < s.len() ==> valid_checkpoint(#[trigger] s[i], n)
}

/// `push_bounded` keeps every checkpoint valid.
pub proof fn lemma_push_bounded_valid(s: Seq<CheckpointView>, x: CheckpointView, limit: nat, n: nat)
    requires
        all_valid(s, n),
        valid_checkpoint(x, n),
    ensures
        all_valid(push_bounded(s, x, limit), n),
{
    let t = s.push(x);
    assert(all_valid(t, n)) by {
        assert forall|i: int| 0 <= i < t.len() implies valid_checkpoint(#[trigger] t[i], n) by {
            if i < s.len() {
                assert(t[i] == s[i]);
            }
        }
    }
    if s.len() + 1 > limit {
        assert forall|i: int| 0 <= i < t.drop_first().len() implies valid_checkpoint(
            #[trigger] t.drop_first()[i],
            n,
        ) by {
            assert(t.drop_first()[i] == t[i + 1]);
        }
    }
}

/// The editing engine over a data provider `D`.
pub struct EditorCore<D: DataProvider> {
    provider: D,
    fields: Vec<Vec<char>>,
    texts: Vec<String>,
    current_field: usize,
    cursor: usize,
    mode: AppMode,
    history: EditHistory,
    register: Option<YankRegister>,
    selection: SelectionState,
    paradigm: Option<KeybindingParadigm>,
    validation_enabled: bool,
    validations: Vec<Option<ValidationConfig>>,
    results: Vec<Option<ValidationResult>>,
    external: Vec<ExternalValidationState>,
    last_switch_block: Option<String>,
    pending: Option<PendingOperator>,
}

impl<D: DataProvider> EditorCore<D> {
    /// The values of all fields.
    pub closed spec fn values(self) -> Seq<Seq<char>> {
        self.fields@.map_values(|v: Vec<char>| v@)
    }

    /// The index of the current field.
    pub closed spec fn field_idx(self) -> nat {
        self.current_field as nat
    }

    /// The cursor column within the current field.
    pub closed spec fn cursor_at(self) -> nat {
        self.cursor as nat
    }

    /// The mode.
    pub closed spec fn mode_of(self) -> AppMode {
        self.mode
    }

    /// The undo/redo history.
    pub closed spec fn history(self) -> EditHistory {
        self.history
    }

    /// The selection.
    pub closed spec fn selection_of(self) -> SelectionState {
        self.selection
    }

    /// The yank register.
    pub closed spec fn register_of(self) -> Option<YankRegister> {
        self.register
    }

    /// The keybinding paradigm, if one was chosen.
    pub closed spec fn paradigm_of(self) -> Option<KeybindingParadigm> {
        self.paradigm
    }

    /// Whether validation is enabled.
    pub closed spec fn validation_on(self) -> bool {
        self.validation_enabled
    }

    /// The validation configuration of each field.
    pub closed spec fn configs(self) -> Seq<Option<ValidationConfig>> {
        self.validations@
    }

    /// The latest validation result of each field.
    pub closed spec fn results(self) -> Seq<Option<ValidationResult>> {
        self.results@
    }

    /// The external validation state of each field.
    pub closed spec fn externals(self) -> Seq<ExternalValidationState> {
        self.external@
    }

    /// Why the latest attempt to leave a field was blocked, if it was.
    pub closed spec fn switch_block(self) -> Option<Seq<char>> {
        match self.last_switch_block {
            Some(s) => Some(s@),
            None => None,
        }
    }

    /// The vim operator waiting for its motion, if any.
    pub closed spec fn pending_of(self) -> Option<PendingOperator> {
        self.pending
    }

    /// Number of fields.
    pub open spec fn count(self) -> nat {
        self.values().len()
    }

    /// The value of the current field (empty without fields).
    pub open spec fn cur_text(self) -> Seq<char> {
        if self.count() > 0 {
            self.values()[self.field_idx() as int]
        } else {
            Seq::empty()
        }
    }

    /// The state an undo step restores to.
    pub open spec fn checkpoint(self) -> CheckpointView {
        CheckpointView { values: self.values(), field: self.field_idx(), cursor: self.cursor_at() }
    }

    /// For a provider that meets the `DataProvider` specifications, its
    /// field names are the same in `self` and `other`.
    pub open spec fn names_kept(self, other: Self) -> bool {
        D::obeys_provider_spec() ==> forall|j: int|
            #[trigger] self.provider_of().spec_field_name(j) == other.provider_of().spec_field_name(j)
    }

    /// Everything but the text, the current field, the cursor and the mode
    /// is the same in `self` and `other`.
    pub open spec fn same_aux(self, other: Self) -> bool {
        &&& self.names_kept(other)
        &&& self.history() == other.history()
        &&& self.selection_of() == other.selection_of()
        &&& self.register_of() == other.register_of()
        &&& self.paradigm_of() == other.paradigm_of()
        &&& self.validation_on() == other.validation_on()
        &&& self.configs() == other.configs()
        &&& self.results() == other.results()
        &&& self.externals() == other.externals()
        &&& self.switch_block() == other.switch_block()
        &&& self.pending_of() == other.pending_of()
    }

    /// Everything but the history is the same in `self` and `other`.
    pub open spec fn same_but_history(self, other: Self) -> bool {
        &&& self.values() == other.values()
        &&& self.field_idx() == other.field_idx()
        &&& self.cursor_at() == other.cursor_at()
        &&& self.mode_of() == other.mode_of()
        &&& self.selection_of() == other.selection_of()
        &&& self.register_of() == other.register_of()
        &&& self.paradigm_of() == other.paradigm_of()
        &&& self.validation_on() == other.validation_on()
        &&& self.configs() == other.configs()
        &&& self.results() == other.results()
        &&& self.externals() == other.externals()
        &&& self.switch_block() == other.switch_block()
        &&& self.pending_of() == other.pending_of()
    }

    /// The storage invariants: the kept strings match the field values,
    /// per-field tables have one entry per field, and every stored
    /// checkpoint is valid.
    pub closed spec fn storage_ok(self) -> bool {
        &&& self.texts@.len() == self.fields@.len()
        &&& forall|i: int| 0 <= i < self.fields@.len() ==> (#[trigger] self.texts@[i])@ == self.fields@[i]@
        &&& self.validations@.len() == self.fields@.len()
        &&& self.results@.len() == self.fields@.len()
        &&& self.external@.len() == self.fields@.len()
        &&& self.history.wf()
        &&& all_valid(self.history.undo_view(), self.fields@.len() as nat)
        &&& all_valid(self.history.redo_view(), self.fields@.len() as nat)
        &&& self.provider_mirrors()
    }

    /// For a provider that meets the `DataProvider` specifications: it has
    /// as many fields as the editor, and each holds the editor's value of
    /// that field in the provider's stored form.
    pub open spec fn provider_mirrors(self) -> bool {
        D::obeys_provider_spec() ==> {
            &&& self.provider_of().spec_field_count() == self.count()
            &&& forall|i: int|
                0 <= i < self.count() ==> self.provider_of().spec_field_value(i) == D::spec_stored_value(
                    #[trigger] self.values()[i],
                )
        }
    }

    /// Well-formedness: storage invariants, and the current field and the
    /// cursor lie within the text.
    pub open spec fn wf(self) -> bool {
        &&& self.storage_ok()
        &&& valid_checkpoint(self.checkpoint(), self.count())
        &&& self.configs().len() == self.count()
        &&& self.results().len() == self.count()
        &&& self.externals().len() == self.count()
        &&& self.history().wf()
        &&& self.provider_mirrors()
    }

    proof fn lemma_wf_parts(self)
        requires
            self.storage_ok(),
        ensures
            self.configs().len() == self.count(),
            self.results().len() == self.count(),
            self.externals().len() == self.count(),
            self.history().wf(),
            self.count() == self.fields@.len(),
            forall|i: int| 0 <= i < self.count() ==> self.values()[i] == #[trigger] self.fields@[i]@,
    {
    }

    /// `self` is a new editor over `provider`: it holds the provider and
    /// (for a provider that meets the `DataProvider` specifications) one
    /// field per provider field with the provider's value; normal mode,
    /// the cursor at the start of the first field, empty history, no
    /// selection, register, paradigm, pending operator or switch block,
    /// validation on with no configurations or results.
    pub open spec fn fresh(self, provider: D) -> bool {
        &&& self.wf()
        &&& self.field_idx() == 0
        &&& self.cursor_at() == 0
        &&& self.mode_of() == AppMode::Nor
        &&& self.history().undo_view().len() == 0
        &&& self.history().redo_view().len() == 0
        &&& self.history().last_view() == EditKind::Idle
        &&& self.history().limit_view() == DEFAULT_HISTORY_LIMIT
        &&& self.selection_of() == SelectionState::Inactive
        &&& self.register_of() is None
        &&& self.paradigm_of() is None
        &&& self.validation_on()
        &&& (forall|i: int| 0 <= i < self.count() ==> (#[trigger] self.configs()[i]) is None)
        &&& (forall|i: int| 0 <= i < self.count() ==> (#[trigger] self.results()[i]) is None)
        &&& (forall|i: int|
            0 <= i < self.count() ==> (#[trigger] self.externals()[i])
                == ExternalValidationState::NotValidated)
        &&& self.switch_block() is None
        &&& self.pending_of() is None
        &&& self.provider_of() == provider
        &&& (D::obeys_provider_spec() ==> self.count() == provider.spec_field_count())
        &&& (D::obeys_provider_spec() ==> forall|i: int|
            0 <= i < self.count() ==> #[trigger] self.values()[i] == provider.spec_field_value(i))
    }

    /// An editor over `provider`, holding copies of its field values, in
    /// normal mode with the cursor at the start of the first field.
    pub fn new(provider: D) -> (res: Self)
        ensures
            res.fresh(provider),
            res.wf(),
            res.field_idx() == 0,
            res.cursor_at() == 0,
            res.mode_of() == AppMode::Nor,
            res.history().undo_view().len() == 0,
            res.history().redo_view().len() == 0,
            res.history().last_view() == EditKind::Idle,
            res.history().limit_view() == DEFAULT_HISTORY_LIMIT,
            res.selection_of() == SelectionState::Inactive,
            res.register_of() is None,
            res.paradigm_of() is None,
            res.validation_on(),
            forall|i: int| 0 <= i < res.count() ==> (#[trigger] res.configs()[i]) is None,
            forall|i: int| 0 <= i < res.count() ==> (#[trigger] res.results()[i]) is None,
            forall|i: int|
                0 <= i < res.count() ==> (#[trigger] res.externals()[i])
                    == ExternalValidationState::NotValidated,
            res.switch_block() is None,
            res.pending_of() is None,
            res.provider_of() == provider,
            D::obeys_provider_spec() ==> res.count() == provider.spec_field_count(),
            D::obeys_provider_spec() ==> forall|i: int|
                0 <= i < res.count() ==> #[trigger] res.values()[i] == provider.spec_field_value(i),
    {
        let n = provider.field_count();
        let mut fields: Vec<Vec<char>> = Vec::new();
        let mut texts: Vec<String> = Vec::new();
        let mut validations: Vec<Option<ValidationConfig>> = Vec::new();
        let mut results: Vec<Option<ValidationResult>> = Vec::new();
        let mut external: Vec<ExternalValidationState> = Vec::new();
        let mut i: usize = 0;
        while i < n
            invariant
                i <= n,
                fields@.len() == i,
                texts@.len() == i,
                validations@.len() == i,
                results@.len() == i,
                external@.len() == i,
                forall|k: int| 0 <= k < i ==> (#[trigger] texts@[k])@ == fields@[k]@,
                forall|k: int| 0 <= k < i ==> (#[trigger] validations@[k]) is None,
                forall|k: int| 0 <= k < i ==> (#[trigger] results@[k]) is None,
                forall|k: int|
                    0 <= k < i ==> (#[trigger] external@[k]) == ExternalValidationState::NotValidated,
                D::obeys_provider_spec() ==> n == provider.spec_field_count(),
                D::obeys_provider_spec() ==> forall|k: int|
                    0 <= k < i ==> (#[trigger] fields@[k])@ == provider.spec_field_value(k),
                D::obeys_provider_spec() ==> forall|k: int|
                    0 <= k < i ==> D::spec_stored_value((#[trigger] fields@[k])@) == fields@[k]@,
            decreases n - i,
        {
            let value = provider.field_value(i);
            fields.push(chars_of(value));
            texts.push(value.to_owned());
            validations.push(None);
            results.push(None);
            external.push(ExternalValidationState::NotValidated);
            i += 1;
        }
        let res = EditorCore {
            provider,
            fields,
            texts,
            current_field: 0,
            cursor: 0,
            mode: AppMode::Nor,
            history: EditHistory::new(),
            register: None,
            selection: SelectionState::Inactive,
            paradigm: None,
            validation_enabled: true,
            validations,
            results,
            external,
            last_switch_block: None,
            pending: None,
        };
        proof {
            assert(res.history.undo_view().len() == 0);
            if D::obeys_provider_spec() {
                assert forall|k: int| 0 <= k < res.count() implies res.provider_of().spec_field_value(k)
                    == D::spec_stored_value(#[trigger] res.values()[k]) by {
                    assert(res.values()[k] == res.fields@[k]@);
                }
            }
        }
        res
    }

    /// The data provider.
    pub fn data_provider(&self) -> (res: &D)
        ensures
            *res == self.provider_of(),
    {
        &self.provider
    }

    /// Number of fields.
    pub fn field_count(&self) -> (res: usize)
        requires
            self.wf(),
        ensures
            res == self.count(),
    {
        self.fields.len()
    }

    /// The index of the current field.
    pub fn current_field(&self) -> (res: usize)
        ensures
            res == self.field_idx(),
    {
        self.current_field
    }

    /// The cursor column within the current field.
    pub fn cursor_position(&self) -> (res: usize)
        ensures
            res == self.cursor_at(),
    {
        self.cursor
    }

    /// The mode.
    pub fn mode(&self) -> (res: AppMode)
        ensures
            res == self.mode_of(),
    {
        self.mode
    }

    /// The value of the current field (empty without fields).
    pub fn current_text(&self) -> (res: &str)
        requires
            self.wf(),
        ensures
            res@ == self.cur_text(),
    {
        proof {
            self.lemma_wf_parts();
        }
        if self.current_field < self.texts.len() {
            self.texts[self.current_field].as_str()
        } else {
            proof {
                reveal_strlit("");
            }
            ""
        }
    }

    /// The value of field `index` (empty when out of range).
    pub fn field_value(&self, index: usize) -> (res: &str)
        requires
            self.wf(),
        ensures
            index < self.count() ==> res@ == self.values()[index as int],
            index >= self.count() ==> res@.len() == 0,
    {
        if index < self.texts.len() {
            self.texts[index].as_str()
        } else {
            proof {
                reveal_strlit("");
            }
            ""
        }
    }

    fn max_cursor_exec(&self) -> (res: usize)
        requires
            self.wf(),
        ensures
            res == max_cursor(self.cur_text().len(), self.mode_of()),
    {
        let len = self.cur_len();
        if self.mode == AppMode::Ins || len == 0 {
            len
        } else {
            len - 1
        }
    }

    fn cur_len(&self) -> (res: usize)
        requires
            self.wf(),
        ensures
            res == self.cur_text().len(),
    {
        if self.current_field < self.fields.len() {
            self.fields[self.current_field].len()
        } else {
            0
        }
    }

    /// Writes field `i`: the model, the kept string and the provider.
    fn store_field(&mut self, i: usize, v: Vec<char>)
        requires
            old(self).storage_ok(),
            i < old(self).fields@.len(),
        ensures
            final(self).storage_ok(),
            final(self).values() == old(self).values().update(i as int, v@),
            final(self).field_idx() == old(self).field_idx(),
            final(self).cursor_at() == old(self).cursor_at(),
            final(self).mode_of() == old(self).mode_of(),
            final(self).same_aux(*old(self)),
    {
        let s = string_of(v.as_slice());
        let s2 = s.clone();
        self.provider.set_field_value(i, s2);
        self.texts.set(i, s);
        self.fields.set(i, v);
        proof {
            assert(self.values() =~= old(self).values().update(i as int, v@));
            if D::obeys_provider_spec() {
                assert forall|k: int| 0 <= k < self.count() implies self.provider_of().spec_field_value(k)
                    == D::spec_stored_value(#[trigger] self.values()[k]) by {
                    if k != i {
                        assert(old(self).provider_of().spec_field_value(k) == D::spec_stored_value(
                            old(self).values()[k],
                        ));
                    }
                }
            }
        }
    }

    /// The current state as a checkpoint.
    fn snapshot(&self) -> (res: Checkpoint)
        ensures
            res@ == self.checkpoint(),
    {
        Checkpoint::new(&self.fields, self.current_field, self.cursor)
    }

    /// Moves the cursor to column `col` of the current field (no checks).
    fn put_cursor(&mut self, col: usize)
        ensures
            final(self).values() == old(self).values(),
            final(self).field_idx() == old(self).field_idx(),
            final(self).cursor_at() == col,
            final(self).mode_of() == old(self).mode_of(),
            final(self).same_aux(*old(self)),
            final(self).storage_ok() == old(self).storage_ok(),
    {
        self.cursor = col;
    }

    /// Closes the open typing run after a cursor move.
    fn end_run(&mut self)
        requires
            old(self).wf(),
        ensures
            final(self).wf(),
            final(self).values() == old(self).values(),
            final(self).field_idx() == old(self).field_idx(),
            final(self).cursor_at() == old(self).cursor_at(),
            final(self).mode_of() == old(self).mode_of(),
            final(self).history().undo_view() == old(self).history().undo_view(),
            final(self).history().redo_view() == old(self).history().redo_view(),
            final(self).history().limit_view() == old(self).history().limit_view(),
            final(self).history().last_view() == EditKind::Idle,
            final(self).selection_of() == old(self).selection_of(),
            final(self).register_of() == old(self).register_of(),
            final(self).paradigm_of() == old(self).paradigm_of(),
            final(self).validation_on() == old(self).validation_on(),
            final(self).configs() == old(self).configs(),
            final(self).results() == old(self).results(),
            final(self).externals() == old(self).externals(),
            final(self).switch_block() == old(self).switch_block(),
            final(self).pending_of() == old(self).pending_of(),
            final(self).provider_of() == old(self).provider_of(),
    {
        self.history.break_run();
    }
}


impl<D: DataProvider> EditorCore<D> {
    /// The open typing run is closed and the undo/redo stacks are unchanged.
    pub open spec fn run_closed(self, old: Self) -> bool {
        &&& self.history().undo_view() == old.history().undo_view()
        &&& self.history().redo_view() == old.history().redo_view()
        &&& self.history().limit_view() == old.history().limit_view()
        &&& self.history().last_view() == EditKind::Idle
    }

    /// Selection, register, paradigm and validation state are unchanged.
    pub open spec fn same_settings(self, old: Self) -> bool {
        &&& self.names_kept(old)
        &&& self.selection_of() == old.selection_of()
        &&& self.register_of() == old.register_of()
        &&& self.paradigm_of() == old.paradigm_of()
        &&& self.validation_on() == old.validation_on()
        &&& self.configs() == old.configs()
        &&& self.results() == old.results()
        &&& self.externals() == old.externals()
        &&& self.switch_block() == old.switch_block()
        &&& self.pending_of() == old.pending_of()
    }

    /// `self` is `old` with the cursor moved to column `col` and the typing
    /// run closed.
    pub open spec fn cursor_moved(self, old: Self, col: nat) -> bool {
        &&& self.values() == old.values()
        &&& self.field_idx() == old.field_idx()
        &&& self.mode_of() == old.mode_of()
        &&& self.cursor_at() == col
        &&& self.run_closed(old)
        &&& self.same_settings(old)
    }

    /// The largest cursor column in the current field and mode.
    pub open spec fn cur_max(self) -> nat {
        max_cursor(self.cur_text().len(), self.mode_of())
    }

    fn move_cursor_to(&mut self, col: usize)
        requires
            old(self).wf(),
            col <= old(self).cur_text().len(),
        ensures
            final(self).wf(),
            final(self).cursor_moved(*old(self), col as nat),
    {
        self.put_cursor(col);
        self.end_run();
    }

    /// Moves the cursor one column left, if it is not at the start.
    pub fn move_left(&mut self) -> (res: Result<(), EditError>)
        requires
            old(self).wf(),
        ensures
            final(self).wf(),
            res is Ok,
            final(self).cursor_moved(
                *old(self),
                if old(self).cursor_at() > 0 {
                    (old(self).cursor_at() - 1) as nat
                } else {
                    old(self).cursor_at()
                },
            ),
    {
        let col = if self.cursor > 0 {
            self.cursor - 1
        } else {
            self.cursor
        };
        self.move_cursor_to(col);
        Ok(())
    }

    /// Moves the cursor one column right, if it is not at the largest
    /// column of the mode.
    pub fn move_right(&mut self) -> (res: Result<(), EditError>)
        requires
            old(self).wf(),
        ensures
            final(self).wf(),
            res is Ok,
            final(self).cursor_moved(
                *old(self),
                if old(self).cursor_at() < old(self).cur_max() {
                    old(self).cursor_at() + 1
                } else {
                    old(self).cursor_at()
                },
            ),
    {
        let max = self.max_cursor_exec();
        let col = if self.cursor < max {
            self.cursor + 1
        } else {
            self.cursor
        };
        self.move_cursor_to(col);
        Ok(())
    }

    /// Moves the cursor to the start of the field.
    pub fn move_line_start(&mut self)
        requires
            old(self).wf(),
        ensures
            final(self).wf(),
            final(self).cursor_moved(*old(self), 0),
    {
        self.move_cursor_to(0);
    }

    /// Moves the cursor to the largest column of the field in this mode.
    pub fn move_line_end(&mut self)
        requires
            old(self).wf(),
        ensures
            final(self).wf(),
            final(self).cursor_moved(*old(self), old(self).cur_max()),
    {
        let max = self.max_cursor_exec();
        self.move_cursor_to(max);
    }

    /// Moves the cursor to column `position`, clamped to the largest column
    /// of the mode.
    pub fn set_cursor_position(&mut self, position: usize)
        requires
            old(self).wf(),
        ensures
            final(self).wf(),
            final(self).cursor_moved(
                *old(self),
                if position <= old(self).cur_max() {
                    position as nat
                } else {
                    old(self).cur_max()
                },
            ),
    {
        let max = self.max_cursor_exec();
        let col = if position <= max {
            position
        } else {
            max
        };
        self.move_cursor_to(col);
    }

    /// Moves the cursor by a word motion, clamped to the largest column of
    /// the mode.
    pub fn move_word(&mut self, target: WordTarget, big: bool)
        requires
            old(self).wf(),
        ensures
            final(self).wf(),
            final(self).cursor_moved(*old(self), old(self).word_target(target, big)),
    {
        let max = self.max_cursor_exec();
        let col = if self.current_field < self.fields.len() {
            let t = word_motion(&self.fields[self.current_field], self.cursor, target, big, max);
            if t <= max {
                t
            } else {
                max
            }
        } else {
            0
        };
        proof {
            self.lemma_wf_parts();
        }
        self.move_cursor_to(col);
    }

    /// The column a word motion reaches, clamped to the largest column.
    pub open spec fn word_target(self, target: WordTarget, big: bool) -> nat {
        if self.count() == 0 {
            0
        } else {
            let t = word_motion_target(
                self.cur_text(),
                self.cursor_at() as int,
                target,
                big,
                self.cur_max() as int,
            );
            if t <= self.cur_max() {
                t as nat
            } else {
                self.cur_max()
            }
        }
    }

    /// Moves to the start of the next word.
    pub fn move_word_next(&mut self)
        requires
            old(self).wf(),
        ensures
            final(self).wf(),
            final(self).cursor_moved(
                *old(self),
                old(self).word_target(WordTarget::NextWordStart, false),
            ),
    {
        self.move_word(WordTarget::NextWordStart, false)
    }

    /// Moves to the start of the previous word.
    pub fn move_word_prev(&mut self)
        requires
            old(self).wf(),
        ensures
            final(self).wf(),
            final(self).cursor_moved(
                *old(self),
                old(self).word_target(WordTarget::PrevWordStart, false),
            ),
    {
        self.move_word(WordTarget::PrevWordStart, false)
    }

    /// Moves to the end of the current or next word.
    pub fn move_word_end(&mut self)
        requires
            old(self).wf(),
        ensures
            final(self).wf(),
            final(self).cursor_moved(*old(self), old(self).word_target(WordTarget::NextWordEnd, false)),
    {
        self.move_word(WordTarget::NextWordEnd, false)
    }

    /// Moves to the end of the previous word.
    pub fn move_word_end_prev(&mut self)
        requires
            old(self).wf(),
        ensures
            final(self).wf(),
            final(self).cursor_moved(*old(self), old(self).word_target(WordTarget::PrevWordEnd, false)),
    {
        self.move_word(WordTarget::PrevWordEnd, false)
    }

    /// Moves to the start of the next WORD.
    pub fn move_big_word_next(&mut self)
        requires
            old(self).wf(),
        ensures
            final(self).wf(),
            final(self).cursor_moved(
                *old(self),
                old(self).word_target(WordTarget::NextWordStart, true),
            ),
    {
        self.move_word(WordTarget::NextWordStart, true)
    }

    /// Moves to the start of the previous WORD.
    pub fn move_big_word_prev(&mut self)
        requires
            old(self).wf(),
        ensures
            final(self).wf(),
            final(self).cursor_moved(
                *old(self),
                old(self).word_target(WordTarget::PrevWordStart, true),
            ),
    {
        self.move_word(WordTarget::PrevWordStart, true)
    }

    /// Moves to the end of the current or next WORD.
    pub fn move_big_word_end(&mut self)
        requires
            old(self).wf(),
        ensures
            final(self).wf(),
            final(self).cursor_moved(*old(self), old(self).word_target(WordTarget::NextWordEnd, true)),
    {
        self.move_word(WordTarget::NextWordEnd, true)
    }

    /// Moves to the end of the previous WORD.
    pub fn move_big_word_end_prev(&mut self)
        requires
            old(self).wf(),
        ensures
            final(self).wf(),
            final(self).cursor_moved(*old(self), old(self).word_target(WordTarget::PrevWordEnd, true)),
    {
        self.move_word(WordTarget::PrevWordEnd, true)
    }

    /// Switches to insert mode.
    pub fn enter_edit_mode(&mut self)
        requires
            old(self).wf(),
        ensures
            final(self).wf(),
            final(self).mode_of() == AppMode::Ins,
            final(self).values() == old(self).values(),
            final(self).field_idx() == old(self).field_idx(),
            final(self).cursor_at() == old(self).cursor_at(),
            final(self).same_aux(*old(self)),
    {
        self.mode = AppMode::Ins;
    }

    /// Leaves insert (or select) mode for normal mode: the cursor is
    /// clamped onto the last character and the selection is dropped.
    pub fn exit_edit_mode(&mut self) -> (res: Result<(), EditError>)
        requires
            old(self).wf(),
        ensures
            final(self).provider_of() == old(self).provider_of(),
            final(self).wf(),
            res is Ok,
            final(self).mode_of() == AppMode::Nor,
            final(self).values() == old(self).values(),
            final(self).field_idx() == old(self).field_idx(),
            final(self).cursor_at() == if old(self).cursor_at() <= max_cursor(
                old(self).cur_text().len(),
                AppMode::Nor,
            ) {
                old(self).cursor_at()
            } else {
                max_cursor(old(self).cur_text().len(), AppMode::Nor)
            },
            final(self).selection_of() == SelectionState::Inactive,
            final(self).run_closed(*old(self)),
            final(self).register_of() == old(self).register_of(),
            final(self).paradigm_of() == old(self).paradigm_of(),
            final(self).validation_on() == old(self).validation_on(),
            final(self).configs() == old(self).configs(),
            final(self).results() == old(self).results(),
            final(self).externals() == old(self).externals(),
            final(self).switch_block() == old(self).switch_block(),
            final(self).pending_of() == old(self).pending_of(),
    {
        self.mode = AppMode::Nor;
        let max = self.max_cursor_exec();
        if self.cursor > max {
            self.cursor = max;
        }
        self.selection = SelectionState::Inactive;
        self.end_run();
        Ok(())
    }

    /// Enters insert mode with the cursor after the character under it
    /// (vim `a`).
    pub fn enter_append_mode(&mut self)
        requires
            old(self).wf(),
        ensures
            final(self).names_kept(*old(self)),
            final(self).wf(),
            final(self).mode_of() == AppMode::Ins,
            final(self).values() == old(self).values(),
            final(self).field_idx() == old(self).field_idx(),
            final(self).cursor_at() == if old(self).cursor_at() < old(self).cur_text().len() {
                old(self).cursor_at() + 1
            } else {
                old(self).cur_text().len()
            },
            final(self).run_closed(*old(self)),
            final(self).same_settings(*old(self)),
    {
        let len = self.cur_len();
        self.mode = AppMode::Ins;
        let col = if self.cursor < len {
            self.cursor + 1
        } else {
            len
        };
        self.move_cursor_to(col);
    }

    /// Enters select mode with a character selection anchored at the
    /// cursor.
    pub fn enter_highlight_mode(&mut self)
        requires
            old(self).wf(),
        ensures
            final(self).provider_of() == old(self).provider_of(),
            final(self).wf(),
            final(self).mode_of() == AppMode::Sel,
            final(self).selection_of() == (SelectionState::Characterwise {
                anchor: (old(self).field_idx() as usize, old(self).cursor_at() as usize),
            }),
            final(self).values() == old(self).values(),
            final(self).field_idx() == old(self).field_idx(),
            final(self).cursor_at() == old(self).cursor_at(),
            final(self).history() == old(self).history(),
            final(self).register_of() == old(self).register_of(),
            final(self).paradigm_of() == old(self).paradigm_of(),
            final(self).pending_of() == old(self).pending_of(),
            final(self).validation_on() == old(self).validation_on(),
            final(self).configs() == old(self).configs(),
            final(self).results() == old(self).results(),
            final(self).externals() == old(self).externals(),
            final(self).switch_block() == old(self).switch_block(),
    {
        self.mode = AppMode::Sel;
        self.selection = SelectionState::Characterwise { anchor: (self.current_field, self.cursor) };
    }
}


/// `s` with positions `start..end` replaced by `ins`.
pub open spec fn splice(s: Seq<char>, start: int, end: int, ins: Seq<char>) -> Seq<char> {
    s.subrange(0, start) + ins + s.subrange(end, s.len() as int)
}

/// The undo stack after recording an edit of kind `kind` over the state
/// `before`.
pub open spec fn recorded_undo(h: EditHistory, kind: EditKind, before: CheckpointView) -> Seq<
    CheckpointView,
> {
    if h.coalesces(kind) {
        h.undo_view()
    } else {
        push_bounded(h.undo_view(), before, h.limit_view())
    }
}

impl<D: DataProvider> EditorCore<D> {
    /// The maximum length configured for the current field, when
    /// validation is on.
    pub open spec fn insert_limit(self) -> Option<nat> {
        if self.validation_on() && self.count() > 0 {
            match self.configs()[self.field_idx() as int] {
                Some(c) => match c.character_limits {
                    Some(l) => match l.max_view() {
                        Some(m) => Some(m as nat),
                        None => None,
                    },
                    None => None,
                },
                None => None,
            }
        } else {
            None
        }
    }

    /// How many characters the current field still accepts (`None`: no
    /// limit).
    pub open spec fn insert_room(self) -> Option<nat> {
        match self.insert_limit() {
            Some(m) => Some(
                if self.cur_text().len() < m {
                    (m - self.cur_text().len()) as nat
                } else {
                    0nat
                },
            ),
            None => None,
        }
    }

    /// `self` is `old` after an edit of kind `kind` that left the values
    /// `values` and the cursor at `col`.
    pub open spec fn edited(self, old: Self, kind: EditKind, values: Seq<Seq<char>>, col: nat) -> bool {
        &&& self.values() == values
        &&& self.field_idx() == old.field_idx()
        &&& self.mode_of() == old.mode_of()
        &&& self.cursor_at() == col
        &&& self.same_settings(old)
        &&& self.history().limit_view() == old.history().limit_view()
        &&& self.history().last_view() == kind
        &&& self.history().undo_view() == recorded_undo(old.history(), kind, old.checkpoint())
        &&& self.history().redo_view().len() == 0
    }

    /// Records an edit of kind `kind` about to change the current state.
    fn record_edit(&mut self, kind: EditKind)
        requires
            old(self).wf(),
        ensures
            final(self).wf(),
            final(self).edited(*old(self), kind, old(self).values(), old(self).cursor_at()),
    {
        let cp = self.snapshot();
        proof {
            lemma_push_bounded_valid(
                self.history.undo_view(),
                cp@,
                self.history.limit_view(),
                self.fields@.len() as nat,
            );
        }
        self.history.record(kind, cp);
    }

    /// Writes the current field after a recorded edit and moves the cursor.
    fn finish_edit(&mut self, v: Vec<char>, col: usize)
        requires
            old(self).wf(),
            old(self).count() > 0,
            col <= v@.len(),
        ensures
            final(self).wf(),
            final(self).values() == old(self).values().update(old(self).field_idx() as int, v@),
            final(self).field_idx() == old(self).field_idx(),
            final(self).mode_of() == old(self).mode_of(),
            final(self).cursor_at() == col,
            final(self).same_aux(*old(self)),
    {
        let i = self.current_field;
        self.store_field(i, v);
        self.put_cursor(col);
    }

    /// Inserts `ch` at the cursor and moves the cursor after it; refused
    /// when the field has reached its maximum length.
    pub fn insert_char(&mut self, ch: char) -> (res: Result<(), EditError>)
        requires
            old(self).wf(),
        ensures
            final(self).wf(),
            old(self).count() == 0 ==> res == Err::<(), EditError>(EditError::NoField)
                && *final(self) == *old(self),
            old(self).count() > 0 && old(self).insert_room() == Some(0nat) ==> (res matches Err(
                EditError::InsertionRejected { message },
            ) && message@ == crate::validation::limits::limit_exceeded_message() && *final(self)
                == *old(self)),
            old(self).count() > 0 && old(self).insert_room() != Some(0nat) ==> res is Ok
                && final(self).edited(
                *old(self),
                EditKind::Insert,
                old(self).values().update(
                    old(self).field_idx() as int,
                    splice(
                        old(self).cur_text(),
                        old(self).cursor_at() as int,
                        old(self).cursor_at() as int,
                        seq![ch],
                    ),
                ),
                old(self).cursor_at() + 1,
            ),
    {
        if self.current_field >= self.fields.len() {
            return Err(EditError::NoField);
        }
        proof {
            self.lemma_wf_parts();
        }
        if self.validation_enabled {
            if let Some(cfg) = &self.validations[self.current_field] {
                let r = cfg.validate_char_insertion(
                    self.texts[self.current_field].as_str(),
                    self.cursor,
                    ch,
                );
                if !r.is_acceptable() {
                    return Err(EditError::InsertionRejected { message: "Character limit exceeded".to_owned() });
                }
            }
        }
        let c = self.cursor;
        let ins = [ch];
        let v = splice_chars(&self.fields[self.current_field], c, c, &ins);
        proof {
            assert(ins@ =~= seq![ch]);
        }
        let vl = v.len();
        assert(c + 1 <= vl);
        self.record_edit(EditKind::Insert);
        self.finish_edit(v, c + 1);
        Ok(())
    }

    /// The room left for insertion in the current field (`None`: no limit).
    fn room_exec(&self) -> (res: Option<usize>)
        requires
            self.wf(),
            self.count() > 0,
        ensures
            match self.insert_room() {
                Some(r) => res == Some(r as usize),
                None => res is None,
            },
    {
        proof {
            self.lemma_wf_parts();
        }
        if !self.validation_enabled {
            return None;
        }
        match &self.validations[self.current_field] {
            Some(cfg) => match &cfg.character_limits {
                Some(l) => match l.max_length() {
                    Some(m) => {
                        let len = self.fields[self.current_field].len();
                        if len < m {
                            Some(m - len)
                        } else {
                            Some(0)
                        }
                    },
                    None => None,
                },
                None => None,
            },
            None => None,
        }
    }

    /// Inserts the characters of `text` at the cursor as one typing step
    /// and moves the cursor after them. With a maximum length, only as many
    /// characters as still fit are inserted, and a shortfall is an error.
    pub fn insert_text(&mut self, text: &str) -> (res: Result<(), EditError>)
        requires
            old(self).wf(),
        ensures
            final(self).wf(),
            text@.len() == 0 ==> res is Ok && *final(self) == *old(self),
            text@.len() > 0 && old(self).count() == 0 ==> res == Err::<(), EditError>(
                EditError::NoField,
            ) && *final(self) == *old(self),
            text@.len() > 0 && old(self).count() > 0 ==> ({
                let k = match old(self).insert_room() {
                    Some(r) => if r < text@.len() {
                        r
                    } else {
                        text@.len()
                    },
                    None => text@.len(),
                };
                &&& (k == text@.len() <==> res is Ok)
                &&& (k < text@.len() ==> res is Err && res->Err_0 is InsertionRejected)
                &&& (k == 0 ==> *final(self) == *old(self))
                &&& (k > 0 ==> final(self).edited(
                    *old(self),
                    EditKind::Insert,
                    old(self).values().update(
                        old(self).field_idx() as int,
                        splice(
                            old(self).cur_text(),
                            old(self).cursor_at() as int,
                            old(self).cursor_at() as int,
                            text@.take(k as int),
                        ),
                    ),
                    old(self).cursor_at() + k,
                ))
            }),
    {
        let chars = chars_of(text);
        if chars.len() == 0 {
            return Ok(());
        }
        if self.current_field >= self.fields.len() {
            return Err(EditError::NoField);
        }
        proof {
            self.lemma_wf_parts();
        }
        let k = match self.room_exec() {
            Some(r) => if r < chars.len() {
                r
            } else {
                chars.len()
            },
            None => chars.len(),
        };
        if k == 0 {
            return Err(EditError::InsertionRejected { message: "Character limit exceeded".to_owned() });
        }
        let ins = take_chars(&chars, k);
        let c = self.cursor;
        let v = splice_chars(&self.fields[self.current_field], c, c, ins.as_slice());
        let vl = v.len();
        assert(c + k <= vl);
        self.record_edit(EditKind::Insert);
        self.finish_edit(v, c + k);
        if k < chars.len() {
            Err(EditError::InsertionRejected { message: "Character limit exceeded".to_owned() })
        } else {
            Ok(())
        }
    }

    /// Deletes the character before the cursor and moves the cursor onto
    /// its place; nothing happens at the start of the field.
    pub fn delete_backward(&mut self) -> (res: Result<(), EditError>)
        requires
            old(self).wf(),
        ensures
            final(self).wf(),
            res is Ok,
            old(self).count() == 0 || old(self).cursor_at() == 0 ==> *final(self) == *old(self),
            old(self).count() > 0 && old(self).cursor_at() > 0 ==> final(self).edited(
                *old(self),
                EditKind::Delete,
                old(self).values().update(
                    old(self).field_idx() as int,
                    splice(
                        old(self).cur_text(),
                        old(self).cursor_at() - 1,
                        old(self).cursor_at() as int,
                        Seq::empty(),
                    ),
                ),
                (old(self).cursor_at() - 1) as nat,
            ),
    {
        if self.current_field >= self.fields.len() || self.cursor == 0 {
            return Ok(());
        }
        proof {
            self.lemma_wf_parts();
        }
        let c = self.cursor;
        let empty: [char; 0] = [];
        let v = splice_chars(&self.fields[self.current_field], c - 1, c, &empty);
        proof {
            assert(empty@ =~= Seq::<char>::empty());
        }
        self.record_edit(EditKind::Delete);
        self.finish_edit(v, c - 1);
        Ok(())
    }

    /// Deletes the character under the cursor; the cursor stays, clamped to
    /// the largest column of the mode; nothing happens at the end of the
    /// field.
    pub fn delete_forward(&mut self) -> (res: Result<(), EditError>)
        requires
            old(self).wf(),
        ensures
            final(self).wf(),
            res is Ok,
            old(self).count() == 0 || old(self).cursor_at() >= old(self).cur_text().len()
                ==> *final(self) == *old(self),
            old(self).count() > 0 && old(self).cursor_at() < old(self).cur_text().len()
                ==> final(self).edited(
                *old(self),
                EditKind::Delete,
                old(self).values().update(
                    old(self).field_idx() as int,
                    splice(
                        old(self).cur_text(),
                        old(self).cursor_at() as int,
                        old(self).cursor_at() + 1int,
                        Seq::empty(),
                    ),
                ),
                if old(self).cursor_at() <= max_cursor(
                    (old(self).cur_text().len() - 1) as nat,
                    old(self).mode_of(),
                ) {
                    old(self).cursor_at()
                } else {
                    max_cursor((old(self).cur_text().len() - 1) as nat, old(self).mode_of())
                },
            ),
    {
        if self.current_field >= self.fields.len() {
            return Ok(());
        }
        proof {
            self.lemma_wf_parts();
        }
        let len = self.fields[self.current_field].len();
        if self.cursor >= len {
            return Ok(());
        }
        let c = self.cursor;
        let empty: [char; 0] = [];
        let v = splice_chars(&self.fields[self.current_field], c, c + 1, &empty);
        proof {
            assert(empty@ =~= Seq::<char>::empty());
        }
        let newlen = len - 1;
        let max = if self.mode == AppMode::Ins || newlen == 0 {
            newlen
        } else {
            newlen - 1
        };
        let col = if c <= max {
            c
        } else {
            max
        };
        self.record_edit(EditKind::Delete);
        self.finish_edit(v, col);
        Ok(())
    }

    /// Replaces the value of the current field as one undo step; the cursor
    /// is clamped to the new length.
    pub fn set_current_field_value(&mut self, value: String)
        requires
            old(self).wf(),
        ensures
            final(self).wf(),
            old(self).count() == 0 ==> *final(self) == *old(self),
            old(self).count() > 0 ==> final(self).edited(
                *old(self),
                EditKind::Other,
                old(self).values().update(old(self).field_idx() as int, value@),
                if old(self).cursor_at() <= value@.len() {
                    old(self).cursor_at()
                } else {
                    value@.len()
                },
            ),
    {
        if self.current_field >= self.fields.len() {
            return;
        }
        let v = chars_of(value.as_str());
        let col = if self.cursor <= v.len() {
            self.cursor
        } else {
            v.len()
        };
        self.record_edit(EditKind::Other);
        self.finish_edit(v, col);
    }

    /// Replaces the value of field `index` as one undo step; when it is the
    /// current field the cursor is clamped to the new length; out of range,
    /// nothing happens.
    pub fn set_field_value(&mut self, index: usize, value: String)
        requires
            old(self).wf(),
        ensures
            final(self).wf(),
            index >= old(self).count() ==> *final(self) == *old(self),
            index < old(self).count() ==> final(self).edited(
                *old(self),
                EditKind::Other,
                old(self).values().update(index as int, value@),
                if index != old(self).field_idx() || old(self).cursor_at() <= value@.len() {
                    old(self).cursor_at()
                } else {
                    value@.len()
                },
            ),
    {
        if index >= self.fields.len() {
            return;
        }
        let v = chars_of(value.as_str());
        let col = if index != self.current_field || self.cursor <= v.len() {
            self.cursor
        } else {
            v.len()
        };
        self.record_edit(EditKind::Other);
        self.store_field(index, v);
        self.put_cursor(col);
        proof {
            self.lemma_wf_parts();
        }
    }
}


/// Keeping the newest checkpoints keeps them valid.
pub proof fn lemma_keep_newest_valid(s: Seq<CheckpointView>, limit: nat, n: nat)
    requires
        all_valid(s, n),
    ensures
        all_valid(keep_newest(s, limit), n),
{
    if s.len() > limit {
        let t = keep_newest(s, limit);
        assert forall|i: int| 0 <= i < t.len() implies valid_checkpoint(#[trigger] t[i], n) by {
            assert(t[i] == s[s.len() - limit + i]);
        }
    }
}

impl<D: DataProvider> EditorCore<D> {
    /// Replaces every field value with `vals`.
    fn replace_all(&mut self, vals: Vec<Vec<char>>)
        requires
            old(self).storage_ok(),
            vals@.len() == old(self).fields@.len(),
        ensures
            final(self).storage_ok(),
            final(self).values() == vals@.map_values(|v: Vec<char>| v@),
            final(self).field_idx() == old(self).field_idx(),
            final(self).cursor_at() == old(self).cursor_at(),
            final(self).mode_of() == old(self).mode_of(),
            final(self).same_aux(*old(self)),
    {
        let n = vals.len();
        let mut i: usize = 0;
        while i < n
            invariant
                n == vals@.len(),
                n == self.fields@.len(),
                i <= n,
                self.storage_ok(),
                forall|k: int| 0 <= k < i ==> self.values()[k] == (#[trigger] vals@[k])@,
                forall|k: int| i <= k < n ==> self.values()[k] == old(self).values()[k],
                self.field_idx() == old(self).field_idx(),
                self.cursor_at() == old(self).cursor_at(),
                self.mode_of() == old(self).mode_of(),
                self.same_aux(*old(self)),
            decreases n - i,
        {
            let v = copy_chars(&vals[i]);
            self.store_field(i, v);
            i += 1;
        }
        proof {
            assert(self.values() =~= vals@.map_values(|v: Vec<char>| v@));
        }
    }

    /// Restores the state held by a checkpoint.
    fn restore(&mut self, cp: Checkpoint)
        requires
            old(self).storage_ok(),
            valid_checkpoint(cp@, old(self).fields@.len() as nat),
        ensures
            final(self).wf(),
            final(self).checkpoint() == cp@,
            final(self).mode_of() == old(self).mode_of(),
            final(self).same_aux(*old(self)),
    {
        let (vals, f, c) = cp.into_parts();
        proof {
            assert(vals@.len() == cp@.values.len());
        }
        self.replace_all(vals);
        self.current_field = f;
        self.cursor = c;
        proof {
            assert(self.values() == cp@.values);
        }
    }

    /// `self` is `old` after undoing its latest step: the state that step
    /// replaced is back, and `old`'s state is kept for redo.
    pub open spec fn undone(self, old: Self) -> bool {
        &&& old.history().undo_view().len() > 0
        &&& self.checkpoint() == old.history().undo_view().last()
        &&& self.history().undo_view() == old.history().undo_view().drop_last()
        &&& self.history().redo_view() == old.history().redo_view().push(old.checkpoint())
        &&& self.history().limit_view() == old.history().limit_view()
        &&& self.history().last_view() == EditKind::Idle
        &&& self.mode_of() == old.mode_of()
        &&& self.same_settings(old)
    }

    /// `self` is `old` after redoing its latest undone step: that state is
    /// back, and `old`'s state is kept for undo.
    pub open spec fn redone(self, old: Self) -> bool {
        &&& old.history().redo_view().len() > 0
        &&& self.checkpoint() == old.history().redo_view().last()
        &&& self.history().redo_view() == old.history().redo_view().drop_last()
        &&& self.history().undo_view() == push_bounded(
            old.history().undo_view(),
            old.checkpoint(),
            old.history().limit_view(),
        )
        &&& self.history().limit_view() == old.history().limit_view()
        &&& self.history().last_view() == EditKind::Idle
        &&& self.mode_of() == old.mode_of()
        &&& self.same_settings(old)
    }

    /// Undoes the latest step: restores the state before it and keeps the
    /// current state for redo. Returns whether there was a step to undo.
    pub fn undo(&mut self) -> (res: bool)
        requires
            old(self).wf(),
        ensures
            final(self).wf(),
            res == (old(self).history().undo_view().len() > 0),
            !res ==> *final(self) == *old(self),
            res ==> final(self).checkpoint() == old(self).history().undo_view().last(),
            final(self).count() == old(self).count(),
            res ==> final(self).undone(*old(self)),
            res ==> final(self).history().undo_view() == old(self).history().undo_view().drop_last(),
            res ==> final(self).history().redo_view() == old(self).history().redo_view().push(
                old(self).checkpoint(),
            ),
            res ==> final(self).history().limit_view() == old(self).history().limit_view(),
            res ==> final(self).history().last_view() == EditKind::Idle,
            res ==> final(self).mode_of() == old(self).mode_of(),
            res ==> final(self).same_settings(*old(self)),
    {
        if !self.history.can_undo() {
            return false;
        }
        let cur = self.snapshot();
        let ghost n = self.fields@.len() as nat;
        let ghost u = self.history.undo_view();
        let ghost r = self.history.redo_view();
        let cp = self.history.undo(cur).unwrap();
        proof {
            assert(valid_checkpoint(u[u.len() - 1], n));
            assert(all_valid(self.history.undo_view(), n)) by {
                assert forall|i: int| 0 <= i < self.history.undo_view().len() implies valid_checkpoint(
                    #[trigger] self.history.undo_view()[i],
                    n,
                ) by {
                    assert(self.history.undo_view()[i] == u[i]);
                }
            }
            assert(all_valid(self.history.redo_view(), n)) by {
                assert forall|i: int| 0 <= i < self.history.redo_view().len() implies valid_checkpoint(
                    #[trigger] self.history.redo_view()[i],
                    n,
                ) by {
                    if i < r.len() {
                        assert(self.history.redo_view()[i] == r[i]);
                    }
                }
            }
        }
        self.restore(cp);
        true
    }

    /// Redoes the latest undone step. Returns whether there was one.
    pub fn redo(&mut self) -> (res: bool)
        requires
            old(self).wf(),
        ensures
            final(self).wf(),
            res == (old(self).history().redo_view().len() > 0),
            !res ==> *final(self) == *old(self),
            res ==> final(self).checkpoint() == old(self).history().redo_view().last(),
            final(self).count() == old(self).count(),
            res ==> final(self).redone(*old(self)),
            res ==> final(self).history().redo_view() == old(self).history().redo_view().drop_last(),
            res ==> final(self).history().undo_view() == push_bounded(
                old(self).history().undo_view(),
                old(self).checkpoint(),
                old(self).history().limit_view(),
            ),
            res ==> final(self).history().limit_view() == old(self).history().limit_view(),
            res ==> final(self).history().last_view() == EditKind::Idle,
            res ==> final(self).mode_of() == old(self).mode_of(),
            res ==> final(self).same_settings(*old(self)),
    {
        if !self.history.can_redo() {
            return false;
        }
        let cur = self.snapshot();
        let ghost n = self.fields@.len() as nat;
        let ghost u = self.history.undo_view();
        let ghost r = self.history.redo_view();
        proof {
            lemma_push_bounded_valid(u, cur@, self.history.limit_view(), n);
        }
        let cp = self.history.redo(cur).unwrap();
        proof {
            assert(valid_checkpoint(r[r.len() - 1], n));
            assert(all_valid(self.history.redo_view(), n)) by {
                assert forall|i: int| 0 <= i < self.history.redo_view().len() implies valid_checkpoint(
                    #[trigger] self.history.redo_view()[i],
                    n,
                ) by {
                    assert(self.history.redo_view()[i] == r[i]);
                }
            }
        }
        self.restore(cp);
        true
    }

    /// Whether a step can be undone.
    pub fn can_undo(&self) -> (res: bool)
        ensures
            res == (self.history().undo_view().len() > 0),
    {
        self.history.can_undo()
    }

    /// Whether a step can be redone.
    pub fn can_redo(&self) -> (res: bool)
        ensures
            res == (self.history().redo_view().len() > 0),
    {
        self.history.can_redo()
    }

    /// Forgets all undo and redo steps.
    pub fn clear_history(&mut self)
        requires
            old(self).wf(),
        ensures
            final(self).wf(),
            final(self).history().undo_view().len() == 0,
            final(self).history().redo_view().len() == 0,
            final(self).history().limit_view() == old(self).history().limit_view(),
            final(self).history().last_view() == EditKind::Idle,
            final(self).values() == old(self).values(),
            final(self).field_idx() == old(self).field_idx(),
            final(self).cursor_at() == old(self).cursor_at(),
            final(self).mode_of() == old(self).mode_of(),
            final(self).same_settings(*old(self)),
    {
        self.history.clear();
    }

    /// Sets the maximum number of undo steps, dropping the oldest beyond it.
    pub fn set_history_limit(&mut self, limit: usize)
        requires
            old(self).wf(),
        ensures
            final(self).wf(),
            final(self).history().limit_view() == limit,
            final(self).history().undo_view() == keep_newest(
                old(self).history().undo_view(),
                limit as nat,
            ),
            final(self).history().redo_view() == old(self).history().redo_view(),
            final(self).history().last_view() == old(self).history().last_view(),
            final(self).values() == old(self).values(),
            final(self).field_idx() == old(self).field_idx(),
            final(self).cursor_at() == old(self).cursor_at(),
            final(self).mode_of() == old(self).mode_of(),
            final(self).same_settings(*old(self)),
    {
        proof {
            lemma_keep_newest_valid(self.history.undo_view(), limit as nat, self.fields@.len() as nat);
        }
        self.history.set_limit(limit);
    }
}


impl<D: DataProvider> EditorCore<D> {
    /// Whether validation keeps the cursor in the current field.
    pub open spec fn switch_blocked(self) -> bool {
        &&& self.validation_on()
        &&& self.count() > 0
        &&& self.configs()[self.field_idx() as int] matches Some(c)
        &&& !c.allows_field_switch_spec(self.cur_text())
    }

    /// `self` is `old` with field `i` current, the cursor clamped into it,
    /// the typing run closed and no switch block recorded.
    pub open spec fn switched_to(self, old: Self, i: nat) -> bool {
        &&& self.values() == old.values()
        &&& self.field_idx() == i
        &&& self.mode_of() == old.mode_of()
        &&& self.cursor_at() == (if old.cursor_at() <= max_cursor(
            old.values()[i as int].len(),
            old.mode_of(),
        ) {
            old.cursor_at()
        } else {
            max_cursor(old.values()[i as int].len(), old.mode_of())
        })
        &&& self.run_closed(old)
        &&& self.switch_block() is None
        &&& self.selection_of() == old.selection_of()
        &&& self.register_of() == old.register_of()
        &&& self.paradigm_of() == old.paradigm_of()
        &&& self.validation_on() == old.validation_on()
        &&& self.configs() == old.configs()
        &&& self.results() == old.results()
        &&& self.externals() == old.externals()
        &&& self.pending_of() == old.pending_of()
    }

    /// The reason validation blocks leaving the current field, if it does.
    pub fn field_switch_block_reason(&self) -> (res: Option<String>)
        requires
            self.wf(),
        ensures
            res is Some <==> self.switch_blocked(),
            res matches Some(m) ==> m@ == crate::validation::limits::below_minimum_message(),
    {
        proof {
            self.lemma_wf_parts();
        }
        if !self.validation_enabled || self.current_field >= self.fields.len() {
            return None;
        }
        match &self.validations[self.current_field] {
            Some(cfg) => cfg.field_switch_block_reason(self.texts[self.current_field].as_str()),
            None => None,
        }
    }

    /// Whether the cursor may leave the current field.
    pub fn can_switch_fields(&self) -> (res: bool)
        requires
            self.wf(),
        ensures
            res == !self.switch_blocked(),
    {
        self.field_switch_block_reason().is_none()
    }

    /// Why the latest attempt to leave a field was blocked, if it was.
    pub fn last_switch_block(&self) -> (res: Option<&str>)
        ensures
            match res {
                Some(s) => self.switch_block() == Some(s@),
                None => self.switch_block() is None,
            },
    {
        match &self.last_switch_block {
            Some(s) => Some(s.as_str()),
            None => None,
        }
    }

    /// Makes field `index` current; refused when it is out of range, or when
    /// validation blocks leaving the current field for another one (the
    /// reason is then recorded).
    pub fn transition_to_field(&mut self, index: usize) -> (res: Result<(), EditError>)
        requires
            old(self).wf(),
        ensures
            final(self).names_kept(*old(self)),
            final(self).wf(),
            final(self).mode_of() == old(self).mode_of(),
            final(self).selection_of() == old(self).selection_of(),
            final(self).register_of() == old(self).register_of(),
            final(self).paradigm_of() == old(self).paradigm_of(),
            final(self).pending_of() == old(self).pending_of(),
            final(self).validation_on() == old(self).validation_on(),
            final(self).configs() == old(self).configs(),
            final(self).results() == old(self).results(),
            final(self).externals() == old(self).externals(),
            index >= old(self).count() ==> res == Err::<(), EditError>(EditError::FieldOutOfRange)
                && *final(self) == *old(self),
            index < old(self).count() && index != old(self).field_idx() && old(self).switch_blocked()
                ==> (res matches Err(EditError::SwitchBlocked { reason }) && final(self).switch_block()
                == Some(reason@) && reason@ == crate::validation::limits::below_minimum_message()
                && final(self).values() == old(self).values() && final(self).field_idx()
                == old(self).field_idx() && final(self).cursor_at() == old(self).cursor_at()
                && final(self).mode_of() == old(self).mode_of() && final(self).history()
                == old(self).history()),
            index < old(self).count() && (index == old(self).field_idx() || !old(self).switch_blocked())
                ==> res is Ok && final(self).switched_to(*old(self), index as nat),
    {
        if index >= self.fields.len() {
            return Err(EditError::FieldOutOfRange);
        }
        if index != self.current_field {
            if let Some(reason) = self.field_switch_block_reason() {
                self.last_switch_block = Some(reason.clone());
                return Err(EditError::SwitchBlocked { reason });
            }
        }
        proof {
            self.lemma_wf_parts();
        }
        let len = self.fields[index].len();
        let max = if self.mode == AppMode::Ins || len == 0 {
            len
        } else {
            len - 1
        };
        self.current_field = index;
        if self.cursor > max {
            self.cursor = max;
        }
        self.last_switch_block = None;
        self.end_run();
        Ok(())
    }

    /// Moves to the next field; at the last field nothing happens.
    pub fn next_field(&mut self) -> (res: Result<(), EditError>)
        requires
            old(self).wf(),
        ensures
            final(self).names_kept(*old(self)),
            final(self).wf(),
            final(self).mode_of() == old(self).mode_of(),
            final(self).selection_of() == old(self).selection_of(),
            final(self).register_of() == old(self).register_of(),
            final(self).paradigm_of() == old(self).paradigm_of(),
            final(self).pending_of() == old(self).pending_of(),
            final(self).validation_on() == old(self).validation_on(),
            final(self).configs() == old(self).configs(),
            final(self).results() == old(self).results(),
            final(self).externals() == old(self).externals(),
            old(self).field_idx() + 1 >= old(self).count() ==> res is Ok && *final(self)
                == *old(self),
            old(self).field_idx() + 1 < old(self).count() && old(self).switch_blocked() ==> res is Err
                && final(self).values() == old(self).values() && final(self).field_idx()
                == old(self).field_idx() && final(self).cursor_at() == old(self).cursor_at(),
            old(self).field_idx() + 1 < old(self).count() && !old(self).switch_blocked() ==> res is Ok
                && final(self).switched_to(*old(self), old(self).field_idx() + 1),
    {
        if self.fields.len() == 0 || self.current_field >= self.fields.len() - 1 {
            return Ok(());
        }
        self.transition_to_field(self.current_field + 1)
    }

    /// Moves to the previous field; at the first field nothing happens.
    pub fn prev_field(&mut self) -> (res: Result<(), EditError>)
        requires
            old(self).wf(),
        ensures
            final(self).names_kept(*old(self)),
            final(self).wf(),
            final(self).mode_of() == old(self).mode_of(),
            final(self).selection_of() == old(self).selection_of(),
            final(self).register_of() == old(self).register_of(),
            final(self).paradigm_of() == old(self).paradigm_of(),
            final(self).pending_of() == old(self).pending_of(),
            final(self).validation_on() == old(self).validation_on(),
            final(self).configs() == old(self).configs(),
            final(self).results() == old(self).results(),
            final(self).externals() == old(self).externals(),
            old(self).field_idx() == 0 ==> res is Ok && *final(self) == *old(self),
            old(self).field_idx() > 0 && old(self).switch_blocked() ==> res is Err && final(self).values() == old(self).values() && final(self).field_idx() == old(self).field_idx()
                && final(self).cursor_at() == old(self).cursor_at(),
            old(self).field_idx() > 0 && !old(self).switch_blocked() ==> res is Ok && final(self).switched_to(*old(self), (old(self).field_idx() - 1) as nat),
    {
        if self.current_field == 0 {
            return Ok(());
        }
        self.transition_to_field(self.current_field - 1)
    }

    /// Turns validation on or off.
    pub fn set_validation_enabled(&mut self, enabled: bool)
        requires
            old(self).wf(),
        ensures
            final(self).provider_of() == old(self).provider_of(),
            final(self).wf(),
            final(self).validation_on() == enabled,
            final(self).values() == old(self).values(),
            final(self).field_idx() == old(self).field_idx(),
            final(self).cursor_at() == old(self).cursor_at(),
            final(self).mode_of() == old(self).mode_of(),
            final(self).history() == old(self).history(),
            final(self).configs() == old(self).configs(),
            final(self).results() == old(self).results(),
            final(self).externals() == old(self).externals(),
    {
        self.validation_enabled = enabled;
    }

    /// Whether validation is on.
    pub fn is_validation_enabled(&self) -> (res: bool)
        ensures
            res == self.validation_on(),
    {
        self.validation_enabled
    }

    /// Sets the validation configuration of field `index` (ignored out of
    /// range) and forgets its latest result.
    pub fn set_field_validation(&mut self, index: usize, config: ValidationConfig)
        requires
            old(self).wf(),
        ensures
            final(self).provider_of() == old(self).provider_of(),
            final(self).wf(),
            index < old(self).count() ==> final(self).configs() == old(self).configs().update(
                index as int,
                Some(config),
            ) && final(self).results() == old(self).results().update(index as int, None),
            index >= old(self).count() ==> final(self).configs() == old(self).configs()
                && final(self).results() == old(self).results(),
            final(self).values() == old(self).values(),
            final(self).field_idx() == old(self).field_idx(),
            final(self).cursor_at() == old(self).cursor_at(),
            final(self).mode_of() == old(self).mode_of(),
            final(self).history() == old(self).history(),
            final(self).validation_on() == old(self).validation_on(),
            final(self).externals() == old(self).externals(),
    {
        if index < self.validations.len() {
            self.validations.set(index, Some(config));
            self.results.set(index, None);
        }
    }

    /// Removes the validation configuration of field `index` (ignored out
    /// of range) and forgets its latest result.
    pub fn remove_field_validation(&mut self, index: usize)
        requires
            old(self).wf(),
        ensures
            final(self).provider_of() == old(self).provider_of(),
            final(self).wf(),
            index < old(self).count() ==> final(self).configs() == old(self).configs().update(
                index as int,
                None,
            ) && final(self).results() == old(self).results().update(index as int, None),
            index >= old(self).count() ==> final(self).configs() == old(self).configs()
                && final(self).results() == old(self).results(),
            final(self).values() == old(self).values(),
            final(self).field_idx() == old(self).field_idx(),
            final(self).cursor_at() == old(self).cursor_at(),
            final(self).mode_of() == old(self).mode_of(),
            final(self).history() == old(self).history(),
            final(self).validation_on() == old(self).validation_on(),
            final(self).externals() == old(self).externals(),
    {
        if index < self.validations.len() {
            self.validations.set(index, None);
            self.results.set(index, None);
        }
    }

    /// Whether `r` is the verdict of validating field `i` in this state.
    pub open spec fn is_field_result(self, i: int, r: ValidationResult) -> bool {
        if self.validation_on() && self.configs()[i] is Some {
            self.configs()[i]->Some_0.is_content_result(self.values()[i], r)
        } else {
            r is Valid
        }
    }

    /// Validates field `index` against its configuration (valid without
    /// one, or with validation off), records the result and returns it;
    /// `None` out of range.
    pub fn validate_field(&mut self, index: usize) -> (res: Option<ValidationResult>)
        requires
            old(self).wf(),
        ensures
            final(self).wf(),
            index >= old(self).count() ==> res is None && *final(self) == *old(self),
            index < old(self).count() ==> (res matches Some(r) && old(self).is_field_result(
                index as int,
                r,
            ) && final(self).results() == old(self).results().update(index as int, Some(r))),
            final(self).values() == old(self).values(),
            final(self).field_idx() == old(self).field_idx(),
            final(self).cursor_at() == old(self).cursor_at(),
            final(self).mode_of() == old(self).mode_of(),
            final(self).history() == old(self).history(),
            final(self).configs() == old(self).configs(),
            final(self).validation_on() == old(self).validation_on(),
            final(self).externals() == old(self).externals(),
    {
        if index >= self.fields.len() {
            return None;
        }
        proof {
            self.lemma_wf_parts();
        }
        let r = if self.validation_enabled {
            match &self.validations[index] {
                Some(cfg) => cfg.validate_content(self.texts[index].as_str()),
                None => ValidationResult::Valid,
            }
        } else {
            ValidationResult::Valid
        };
        self.results.set(index, Some(r.clone()));
        Some(r)
    }

    /// Validates the current field (valid without fields).
    pub fn validate_current_field(&mut self) -> (res: ValidationResult)
        requires
            old(self).wf(),
        ensures
            final(self).wf(),
            old(self).count() == 0 ==> res is Valid && *final(self) == *old(self),
            old(self).count() > 0 ==> old(self).is_field_result(old(self).field_idx() as int, res)
                && final(self).results() == old(self).results().update(
                old(self).field_idx() as int,
                Some(res),
            ),
            final(self).values() == old(self).values(),
            final(self).field_idx() == old(self).field_idx(),
            final(self).cursor_at() == old(self).cursor_at(),
            final(self).history() == old(self).history(),
    {
        let i = self.current_field;
        match self.validate_field(i) {
            Some(r) => r,
            None => ValidationResult::Valid,
        }
    }

    /// The latest recorded validation result of field `index`.
    pub fn validation_result(&self, index: usize) -> (res: Option<ValidationResult>)
        requires
            self.wf(),
        ensures
            index < self.count() ==> res == self.results()[index as int],
            index >= self.count() ==> res is None,
    {
        if index < self.results.len() {
            match &self.results[index] {
                Some(r) => Some(r.clone()),
                None => None,
            }
        } else {
            None
        }
    }

    /// Forgets every recorded validation result.
    pub fn clear_validation_results(&mut self)
        requires
            old(self).wf(),
        ensures
            final(self).provider_of() == old(self).provider_of(),
            final(self).wf(),
            final(self).results().len() == old(self).results().len(),
            forall|i: int| 0 <= i < final(self).results().len() ==> (#[trigger] final(self).results()[i]) is None,
            final(self).values() == old(self).values(),
            final(self).field_idx() == old(self).field_idx(),
            final(self).cursor_at() == old(self).cursor_at(),
            final(self).history() == old(self).history(),
            final(self).configs() == old(self).configs(),
            final(self).externals() == old(self).externals(),
    {
        let n = self.results.len();
        let mut i: usize = 0;
        while i < n
            invariant
                n == self.results@.len(),
                i <= n,
                self.storage_ok(),
                self.provider == old(self).provider,
                self.fields == old(self).fields,
                self.current_field == old(self).current_field,
                self.cursor == old(self).cursor,
                self.mode == old(self).mode,
                self.history == old(self).history,
                self.validations == old(self).validations,
                self.external == old(self).external,
                forall|k: int| 0 <= k < i ==> (#[trigger] self.results@[k]) is None,
            decreases n - i,
        {
            self.results.set(i, None);
            i += 1;
        }
    }

    /// The external validation state of field `index` (`NotValidated` out
    /// of range).
    pub fn external_validation_of(&self, index: usize) -> (res: ExternalValidationState)
        requires
            self.wf(),
        ensures
            index < self.count() ==> res == self.externals()[index as int],
            index >= self.count() ==> res == ExternalValidationState::NotValidated,
    {
        if index < self.external.len() {
            self.external[index].clone()
        } else {
            ExternalValidationState::NotValidated
        }
    }

    /// Sets the external validation state of field `index` (ignored out of
    /// range).
    pub fn set_external_validation(&mut self, index: usize, state: ExternalValidationState)
        requires
            old(self).wf(),
        ensures
            final(self).provider_of() == old(self).provider_of(),
            final(self).wf(),
            index < old(self).count() ==> final(self).externals() == old(self).externals().update(
                index as int,
                state,
            ),
            index >= old(self).count() ==> final(self).externals() == old(self).externals(),
            final(self).values() == old(self).values(),
            final(self).field_idx() == old(self).field_idx(),
            final(self).cursor_at() == old(self).cursor_at(),
            final(self).history() == old(self).history(),
            final(self).configs() == old(self).configs(),
            final(self).results() == old(self).results(),
    {
        if index < self.external.len() {
            self.external.set(index, state);
        }
    }

    /// Resets the external validation state of field `index` to
    /// `NotValidated`.
    pub fn clear_external_validation(&mut self, index: usize)
        requires
            old(self).wf(),
        ensures
            final(self).provider_of() == old(self).provider_of(),
            final(self).wf(),
            index < old(self).count() ==> final(self).externals() == old(self).externals().update(
                index as int,
                ExternalValidationState::NotValidated,
            ),
            index >= old(self).count() ==> final(self).externals() == old(self).externals(),
            final(self).values() == old(self).values(),
            final(self).field_idx() == old(self).field_idx(),
            final(self).cursor_at() == old(self).cursor_at(),
            final(self).history() == old(self).history(),
    {
        self.set_external_validation(index, ExternalValidationState::NotValidated);
    }

    /// Resets every field's external validation state to `NotValidated`.
    pub fn clear_all_external_validation(&mut self)
        requires
            old(self).wf(),
        ensures
            final(self).provider_of() == old(self).provider_of(),
            final(self).wf(),
            final(self).externals().len() == old(self).externals().len(),
            forall|i: int|
                0 <= i < final(self).externals().len() ==> #[trigger] final(self).externals()[i]
                    == ExternalValidationState::NotValidated,
            final(self).values() == old(self).values(),
            final(self).field_idx() == old(self).field_idx(),
            final(self).cursor_at() == old(self).cursor_at(),
            final(self).history() == old(self).history(),
            final(self).configs() == old(self).configs(),
    {
        let n = self.external.len();
        let mut i: usize = 0;
        while i < n
            invariant
                n == self.external@.len(),
                i <= n,
                self.storage_ok(),
                self.provider == old(self).provider,
                self.fields == old(self).fields,
                self.current_field == old(self).current_field,
                self.cursor == old(self).cursor,
                self.history == old(self).history,
                self.validations == old(self).validations,
                forall|k: int|
                    0 <= k < i ==> #[trigger] self.external@[k] == ExternalValidationState::NotValidated,
            decreases n - i,
        {
            self.external.set(i, ExternalValidationState::NotValidated);
            i += 1;
        }
    }

    /// The display mask of the current field, when validation is on and
    /// one is configured.
    pub open spec fn active_mask(self) -> Option<crate::validation::mask::DisplayMask> {
        if self.validation_on() && self.count() > 0 {
            match self.configs()[self.field_idx() as int] {
                Some(c) => c.display_mask,
                None => None,
            }
        } else {
            None
        }
    }

    /// The current field as displayed: through its display mask when one
    /// is active, the raw text otherwise.
    pub fn current_display_text(&self) -> (res: String)
        requires
            self.wf(),
        ensures
            res@ == match self.active_mask() {
                Some(m) => masked_display(
                    m.pattern_view(),
                    m.input_char_view(),
                    m.mode_view(),
                    self.cur_text(),
                ),
                None => self.cur_text(),
            },
    {
        proof {
            self.lemma_wf_parts();
        }
        if self.validation_enabled && self.current_field < self.fields.len() {
            if let Some(cfg) = &self.validations[self.current_field] {
                if let Some(mask) = &cfg.display_mask {
                    return mask.apply_to_display(self.texts[self.current_field].as_str());
                }
            }
        }
        self.current_text().to_owned()
    }

    /// The cursor in display coordinates: mapped through the active display
    /// mask, the raw cursor otherwise.
    pub fn display_cursor_position(&self) -> (res: usize)
        requires
            self.wf(),
        ensures
            match self.active_mask() {
                Some(m) => if self.cursor_at() + m.pattern_byte_len() <= usize::MAX {
                    (self.cursor_at() < m.input_count() ==> m.is_input_at(res as int)
                        && crate::validation::mask::count_inputs(
                        m.pattern_view(),
                        m.input_char_view(),
                        res as int,
                    ) == self.cursor_at()) && (self.cursor_at() >= m.input_count() ==> res
                        == m.pattern_byte_len() + self.cursor_at() - m.input_count())
                } else {
                    res == self.cursor_at()
                },
                None => res == self.cursor_at(),
            },
    {
        proof {
            self.lemma_wf_parts();
        }
        if self.validation_enabled && self.current_field < self.fields.len() {
            if let Some(cfg) = &self.validations[self.current_field] {
                if let Some(mask) = &cfg.display_mask {
                    let bytes = mask.pattern().len();
                    if self.cursor <= usize::MAX - bytes {
                        return mask.raw_pos_to_display_pos(self.cursor);
                    }
                }
            }
        }
        self.cursor
    }
}


impl<D: DataProvider> EditorCore<D> {
    /// `self` and `other` agree on everything the editor models.
    pub open spec fn same_model(self, other: Self) -> bool {
        &&& self.same_but_history(other)
        &&& self.history() == other.history()
    }

    /// The data provider the editor holds.
    pub closed spec fn provider_of(self) -> D {
        self.provider
    }

    /// `self` with its provider replaced by `p`.
    pub closed spec fn with_provider_value(self, p: D) -> Self {
        EditorCore { provider: p, ..self }
    }

    /// Replacing the provider changes nothing the editor models.
    pub proof fn lemma_with_provider_value(self, p: D)
        ensures
            self.with_provider_value(p).same_model(self),
            self.with_provider_value(p).provider_of() == p,
            self.wf() && self.with_provider_value(p).provider_mirrors() ==> self.with_provider_value(
                p,
            ).wf(),
    {
    }

    /// The data provider, mutably. The editor keeps its own copy of the
    /// field values: changes made through this reference reach the editor
    /// only through `reload_field`.
    pub fn data_provider_mut(&mut self) -> (res: &mut D)
        ensures
            *res == old(self).provider_of(),
            *final(self) == old(self).with_provider_value(*final(res)),
    {
        &mut self.provider
    }

    /// Replaces the value of field `index` without recording an undo step
    /// (out of range, nothing happens); the cursor is clamped to the new
    /// length when it is the current field.
    pub fn reload_field(&mut self, index: usize, value: String)
        requires
            old(self).wf(),
        ensures
            final(self).wf(),
            index >= old(self).count() ==> *final(self) == *old(self),
            index < old(self).count() ==> final(self).values() == old(self).values().update(
                index as int,
                value@,
            ) && final(self).cursor_at() == (if index != old(self).field_idx()
                || old(self).cursor_at() <= value@.len() {
                old(self).cursor_at()
            } else {
                value@.len()
            }),
            final(self).field_idx() == old(self).field_idx(),
            final(self).mode_of() == old(self).mode_of(),
            final(self).same_aux(*old(self)),
    {
        if index >= self.fields.len() {
            return;
        }
        let v = chars_of(value.as_str());
        let col = if index != self.current_field || self.cursor <= v.len() {
            self.cursor
        } else {
            v.len()
        };
        self.store_field(index, v);
        self.put_cursor(col);
        proof {
            self.lemma_wf_parts();
        }
    }

    /// Puts the cursor at column `col` of the current field, whatever the
    /// mode; the column must lie within the text.
    pub fn set_cursor_raw(&mut self, col: usize)
        requires
            old(self).wf(),
            col <= old(self).cur_text().len(),
        ensures
            final(self).wf(),
            final(self).cursor_moved(*old(self), col as nat),
    {
        self.move_cursor_to(col);
    }

    /// Selects the keybinding paradigm.
    pub fn set_paradigm(&mut self, paradigm: Option<KeybindingParadigm>)
        requires
            old(self).wf(),
        ensures
            final(self).provider_of() == old(self).provider_of(),
            final(self).wf(),
            final(self).paradigm_of() == paradigm,
            final(self).values() == old(self).values(),
            final(self).field_idx() == old(self).field_idx(),
            final(self).cursor_at() == old(self).cursor_at(),
            final(self).mode_of() == old(self).mode_of(),
            final(self).history() == old(self).history(),
            final(self).selection_of() == old(self).selection_of(),
            final(self).register_of() == old(self).register_of(),
            final(self).pending_of() == old(self).pending_of(),
            final(self).validation_on() == old(self).validation_on(),
            final(self).configs() == old(self).configs(),
            final(self).results() == old(self).results(),
            final(self).externals() == old(self).externals(),
            final(self).switch_block() == old(self).switch_block(),
    {
        self.paradigm = paradigm;
    }

    /// The keybinding paradigm, if one was chosen.
    pub fn keybinding_paradigm(&self) -> (res: Option<KeybindingParadigm>)
        ensures
            res == self.paradigm_of(),
    {
        self.paradigm
    }
}


impl<D: DataProvider> EditorCore<D> {
    /// Puts the cursor at column `col` of field `field`, bypassing
    /// validation and mode clamping.
    pub fn place_cursor(&mut self, field: usize, col: usize)
        requires
            old(self).wf(),
            field < old(self).count(),
            col <= old(self).values()[field as int].len(),
        ensures
            final(self).wf(),
            final(self).values() == old(self).values(),
            final(self).field_idx() == field,
            final(self).cursor_at() == col,
            final(self).mode_of() == old(self).mode_of(),
            final(self).run_closed(*old(self)),
            final(self).same_settings(*old(self)),
    {
        self.current_field = field;
        self.cursor = col;
        self.end_run();
    }
}


impl<D: DataProvider> EditorCore<D> {
    /// `self` is `old` after one recorded change that left the values
    /// `values`, field `field` current and the cursor at `col`.
    pub open spec fn committed(self, old: Self, values: Seq<Seq<char>>, field: nat, col: nat) -> bool {
        &&& self.values() == values
        &&& self.field_idx() == field
        &&& self.cursor_at() == col
        &&& self.mode_of() == old.mode_of()
        &&& self.same_settings(old)
        &&& self.history().limit_view() == old.history().limit_view()
        &&& self.history().last_view() == EditKind::Other
        &&& self.history().undo_view() == recorded_undo(
            old.history(),
            EditKind::Other,
            old.checkpoint(),
        )
        &&& self.history().redo_view().len() == 0
    }

    /// Copies of every field value.
    pub fn values_copy(&self) -> (res: Vec<Vec<char>>)
        ensures
            res@.map_values(|v: Vec<char>| v@) == self.values(),
    {
        crate::editor::history::copy_values(&self.fields)
    }

    /// Replaces every field value with `vals` as one undo step, making field
    /// `field` current with the cursor at `col`.
    pub fn commit_values(&mut self, vals: Vec<Vec<char>>, field: usize, col: usize)
        requires
            old(self).wf(),
            vals@.len() == old(self).count(),
            field < vals@.len(),
            col <= vals@[field as int]@.len(),
        ensures
            final(self).wf(),
            final(self).committed(
                *old(self),
                vals@.map_values(|v: Vec<char>| v@),
                field as nat,
                col as nat,
            ),
    {
        self.record_edit(EditKind::Other);
        proof {
            self.lemma_wf_parts();
        }
        self.replace_all(vals);
        self.current_field = field;
        self.cursor = col;
    }

    /// Replaces the yank register.
    pub fn set_register(&mut self, register: Option<YankRegister>)
        requires
            old(self).wf(),
        ensures
            final(self).provider_of() == old(self).provider_of(),
            final(self).wf(),
            final(self).register_of() == register,
            final(self).values() == old(self).values(),
            final(self).field_idx() == old(self).field_idx(),
            final(self).cursor_at() == old(self).cursor_at(),
            final(self).mode_of() == old(self).mode_of(),
            final(self).history() == old(self).history(),
            final(self).selection_of() == old(self).selection_of(),
            final(self).paradigm_of() == old(self).paradigm_of(),
            final(self).pending_of() == old(self).pending_of(),
            final(self).validation_on() == old(self).validation_on(),
            final(self).configs() == old(self).configs(),
            final(self).results() == old(self).results(),
            final(self).externals() == old(self).externals(),
            final(self).switch_block() == old(self).switch_block(),
    {
        self.register = register;
    }

    /// Whether the register holds whole lines, and a copy of its lines.
    pub fn register_copy(&self) -> (res: Option<(bool, Vec<Vec<char>>)>)
        ensures
            match self.register_of() {
                None => res is None,
                Some(r) => res matches Some((linewise, lines)) && linewise == (r is Lines)
                    && lines@.map_values(|v: Vec<char>| v@) == register_lines(r),
            },
    {
        match &self.register {
            None => None,
            Some(YankRegister::Lines(v)) => Some((true, crate::editor::history::copy_values(v))),
            Some(YankRegister::Text(v)) => Some((false, crate::editor::history::copy_values(v))),
        }
    }

    /// The selection.
    pub fn selection(&self) -> (res: SelectionState)
        ensures
            res == self.selection_of(),
    {
        self.selection
    }

    /// Replaces the selection.
    pub fn set_selection(&mut self, selection: SelectionState)
        requires
            old(self).wf(),
        ensures
            final(self).provider_of() == old(self).provider_of(),
            final(self).wf(),
            final(self).selection_of() == selection,
            final(self).values() == old(self).values(),
            final(self).field_idx() == old(self).field_idx(),
            final(self).cursor_at() == old(self).cursor_at(),
            final(self).mode_of() == old(self).mode_of(),
            final(self).history() == old(self).history(),
            final(self).register_of() == old(self).register_of(),
            final(self).paradigm_of() == old(self).paradigm_of(),
            final(self).pending_of() == old(self).pending_of(),
            final(self).validation_on() == old(self).validation_on(),
            final(self).configs() == old(self).configs(),
            final(self).results() == old(self).results(),
            final(self).externals() == old(self).externals(),
            final(self).switch_block() == old(self).switch_block(),
    {
        self.selection = selection;
    }

    /// The vim operator waiting for its motion, if any.
    pub fn pending_operator(&self) -> (res: Option<PendingOperator>)
        ensures
            res == self.pending_of(),
    {
        self.pending
    }

    /// Replaces the vim operator waiting for its motion.
    pub fn set_pending_operator(&mut self, pending: Option<PendingOperator>)
        requires
            old(self).wf(),
        ensures
            final(self).provider_of() == old(self).provider_of(),
            final(self).wf(),
            final(self).pending_of() == pending,
            final(self).values() == old(self).values(),
            final(self).field_idx() == old(self).field_idx(),
            final(self).cursor_at() == old(self).cursor_at(),
            final(self).mode_of() == old(self).mode_of(),
            final(self).history() == old(self).history(),
            final(self).selection_of() == old(self).selection_of(),
            final(self).register_of() == old(self).register_of(),
            final(self).paradigm_of() == old(self).paradigm_of(),
            final(self).validation_on() == old(self).validation_on(),
            final(self).configs() == old(self).configs(),
            final(self).results() == old(self).results(),
            final(self).externals() == old(self).externals(),
            final(self).switch_block() == old(self).switch_block(),
    {
        self.pending = pending;
    }

    /// Enters select mode with a selection of whole fields anchored at the
    /// current field.
    pub fn enter_highlight_mode_linewise(&mut self)
        requires
            old(self).wf(),
        ensures
            final(self).provider_of() == old(self).provider_of(),
            final(self).wf(),
            final(self).mode_of() == AppMode::Sel,
            final(self).selection_of() == (SelectionState::Linewise {
                anchor_field: old(self).field_idx() as usize,
            }),
            final(self).values() == old(self).values(),
            final(self).field_idx() == old(self).field_idx(),
            final(self).cursor_at() == old(self).cursor_at(),
            final(self).history() == old(self).history(),
            final(self).register_of() == old(self).register_of(),
            final(self).paradigm_of() == old(self).paradigm_of(),
            final(self).pending_of() == old(self).pending_of(),
            final(self).validation_on() == old(self).validation_on(),
            final(self).configs() == old(self).configs(),
            final(self).results() == old(self).results(),
            final(self).externals() == old(self).externals(),
            final(self).switch_block() == old(self).switch_block(),
    {
        self.mode = AppMode::Sel;
        self.selection = SelectionState::Linewise { anchor_field: self.current_field };
    }
}

impl<D: DataProvider> EditorCore<D> {
    /// Leaves select mode for normal mode; in the other modes nothing
    /// happens. The selection stays.
    pub fn leave_select_mode(&mut self)
        requires
            old(self).wf(),
        ensures
            final(self).provider_of() == old(self).provider_of(),
            final(self).wf(),
            final(self).mode_of() == if old(self).mode_of() == AppMode::Sel {
                AppMode::Nor
            } else {
                old(self).mode_of()
            },
            final(self).values() == old(self).values(),
            final(self).field_idx() == old(self).field_idx(),
            final(self).cursor_at() == old(self).cursor_at(),
            final(self).same_aux(*old(self)),
    {
        if self.mode == AppMode::Sel {
            self.mode = AppMode::Nor;
        }
    }
}

} // verus!
