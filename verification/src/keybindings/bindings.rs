//! Key bindings by mode: looking key sequences up, and binding, unbinding
//! and remapping keys at run time without clashes.
use vstd::prelude::*;

use crate::editor::behavior::KeybindingParadigm;
use crate::keybindings::action::{
    action_name, copy_action, known_action, lemma_name_round_trip, same_action_exec, CanvasKeyAction,
};
use crate::keybindings::key_sequence::{
    binding_text, display_binding, lemma_binding_has_strokes, normalize, normalize_binding, parsed_binding,
    parse_binding, try_parse_binding, KeyStroke, Parsed,
};
use crate::keybindings::preset::{
    all_issues, conflict_kind, conflict_of, entry_issues, flat_view, flat_views, issues_view, lemma_flat_len,
    maps_entries, maps_issues, preset_issues, readable, section_entries, starts_with, strokes_eq, strokes_of,
    CanvasKeybindingConflictKind, CanvasKeybindingPreset, Entry, CanvasKeybindingPresetError,
    CanvasKeybindingPresetIssue, IssueView,
};
use crate::modes::AppMode;

verus! {

/// What a binding holds: its action (by name, and whether the name is
/// unknown) and its keys.
pub struct BindingView {
    pub action: Seq<char>,
    pub unknown: bool,
    pub keys: Seq<KeyStroke>,
}

/// A binding of the action `a` to `keys`.
pub open spec fn bound(a: CanvasKeyAction, keys: Seq<KeyStroke>) -> BindingView {
    BindingView { action: action_name(a), unknown: a is Unknown, keys }
}

/// Whether the binding `b` is one of the action `a`.
pub open spec fn is_action(b: BindingView, a: CanvasKeyAction) -> bool {
    b.action == action_name(a) && b.unknown == (a is Unknown)
}

/// The modes that hold bindings: normal, insert and select.
pub open spec fn has_bindings(mode: AppMode) -> bool {
    mode == AppMode::Nor || mode == AppMode::Ins || mode == AppMode::Sel
}

/// The first binding, from `j` on, with exactly the keys `keys`.
pub open spec fn find_keys(bs: Seq<BindingView>, keys: Seq<KeyStroke>, j: int) -> Option<int>
    decreases bs.len() - j,
{
    if j < 0 || j >= bs.len() {
        None
    } else if bs[j].keys == keys {
        Some(j)
    } else {
        find_keys(bs, keys, j + 1)
    }
}

/// Whether the keys `keys` begin a longer binding.
pub open spec fn continued(bs: Seq<BindingView>, keys: Seq<KeyStroke>) -> bool {
    exists|i: int|
        0 <= i < bs.len() && keys.len() < (#[trigger] bs[i]).keys.len() && bs[i].keys.take(keys.len() as int)
            == keys
}

/// What looking up `keys` finds: the first binding with exactly those keys
/// (and no wait for more), or else no binding, and whether the keys begin
/// a longer one. Empty keys find nothing.
pub open spec fn lookup_in(bs: Seq<BindingView>, keys: Seq<KeyStroke>) -> (Option<int>, bool) {
    if keys.len() == 0 {
        (None, false)
    } else {
        match find_keys(bs, keys, 0) {
            Some(i) => (Some(i), false),
            None => (None, continued(bs, keys)),
        }
    }
}

/// The keys of the bindings of action `a`, in order.
pub open spec fn keys_of(bs: Seq<BindingView>, a: CanvasKeyAction) -> Seq<Seq<KeyStroke>>
    decreases bs.len(),
{
    if bs.len() == 0 {
        Seq::empty()
    } else if is_action(bs.last(), a) {
        keys_of(bs.drop_last(), a).push(bs.last().keys)
    } else {
        keys_of(bs.drop_last(), a)
    }
}

/// The keys of a binding given at run time: read, then each stroke
/// normalized; none when the binding cannot be read.
pub open spec fn runtime_keys(b: Seq<char>) -> Option<Seq<KeyStroke>> {
    match parsed_binding(b) {
        Parsed::Strokes(v) => Some(v.map_values(|k: KeyStroke| normalize(k))),
        _ => None,
    }
}

/// The name of the section of a mode.
pub open spec fn section_name(mode: AppMode) -> Seq<char> {
    match mode {
        AppMode::Nor => "nor"@,
        AppMode::Ins => "ins"@,
        AppMode::Sel => "sel"@,
        AppMode::General => "general"@,
        AppMode::Command => "command"@,
    }
}

/// The first binding, from `j` on, whose keys clash with `keys`: the same
/// keys, or keys that one of the two begins.
pub open spec fn first_conflict(bs: Seq<BindingView>, keys: Seq<KeyStroke>, j: int) -> Option<int>
    decreases bs.len() - j,
{
    if j < 0 || j >= bs.len() {
        None
    } else if conflict_of(keys, bs[j].keys) is Some {
        Some(j)
    } else {
        first_conflict(bs, keys, j + 1)
    }
}

/// The report of a binding that cannot be read.
pub open spec fn invalid_report(mode: AppMode, action: Seq<char>, binding: Seq<char>) -> Seq<IssueView> {
    seq![
        IssueView::Invalid { section: section_name(mode), action, binding, source: parsed_binding(binding) },
    ]
}

/// The report of keys `keys` for `action` that clash with the binding `b`.
pub open spec fn conflict_report(mode: AppMode, action: CanvasKeyAction, keys: Seq<KeyStroke>, b: BindingView) -> Seq<
    IssueView,
> {
    seq![
        IssueView::Conflict {
            section: section_name(mode),
            mode,
            binding: binding_text(keys),
            action: action_name(action),
            existing_binding: binding_text(b.keys),
            existing_action: b.action,
            kind: conflict_of(keys, b.keys)->0,
        },
    ]
}

/// Whether `r` is the error whose issues are reported by `report`.
pub open spec fn reports<T>(r: Result<T, CanvasKeybindingPresetError>, report: Seq<IssueView>) -> bool {
    r matches Err(CanvasKeybindingPresetError::Issues(v)) && issues_view(v@) == report
}

/// The bindings `bs` without those of action `a`.
pub open spec fn without_action(bs: Seq<BindingView>, a: CanvasKeyAction) -> Seq<BindingView>
    decreases bs.len(),
{
    if bs.len() == 0 {
        Seq::empty()
    } else if is_action(bs.last(), a) {
        without_action(bs.drop_last(), a)
    } else {
        without_action(bs.drop_last(), a).push(bs.last())
    }
}

/// The text of each binding.
pub open spec fn texts(v: Seq<String>) -> Seq<Seq<char>> {
    v.map_values(|s: String| s@)
}

/// The first binding of `bs`, from `j` on, that cannot be read or has the
/// keys of an earlier one.
pub open spec fn first_bad(bs: Seq<Seq<char>>, j: int) -> Option<int>
    decreases bs.len() - j,
{
    if j < 0 || j >= bs.len() {
        None
    } else if runtime_keys(bs[j]) is None || exists|i: int|
        0 <= i < j && #[trigger] runtime_keys(bs[i]) == runtime_keys(bs[j]) {
        Some(j)
    } else {
        first_bad(bs, j + 1)
    }
}

/// The keys of each binding.
pub open spec fn all_keys(bs: Seq<Seq<char>>) -> Seq<Seq<KeyStroke>> {
    bs.map_values(|b: Seq<char>| runtime_keys(b)->0)
}

/// The first pair `(l, r)`, `l < r`, in order from `(l, r)` on, of keys of
/// `ks` that clash.
pub open spec fn first_pair(ks: Seq<Seq<KeyStroke>>, l: int, r: int) -> Option<(int, int)>
    decreases ks.len() - l, ks.len() - r,
{
    if l < 0 || l >= ks.len() {
        None
    } else if r < 0 || r >= ks.len() {
        first_pair(ks, l + 1, l + 2)
    } else if conflict_of(ks[l], ks[r]) is Some {
        Some((l, r))
    } else {
        first_pair(ks, l, r + 1)
    }
}

/// The first keys of `ks`, from `k` on, that clash with a binding of
/// `rest`, with the first such binding.
pub open spec fn first_blocked(rest: Seq<BindingView>, ks: Seq<Seq<KeyStroke>>, k: int) -> Option<(int, int)>
    decreases ks.len() - k,
{
    if k < 0 || k >= ks.len() {
        None
    } else {
        match first_conflict(rest, ks[k], 0) {
            Some(j) => Some((k, j)),
            None => first_blocked(rest, ks, k + 1),
        }
    }
}

/// The bindings `rest`, then one of `a` for each of the keys `ks`.
pub open spec fn remapped(rest: Seq<BindingView>, a: CanvasKeyAction, ks: Seq<Seq<KeyStroke>>) -> Seq<
    BindingView,
> {
    rest + ks.map_values(|k: Seq<KeyStroke>| bound(a, k))
}

/// The binding an entry of a preset makes.
pub open spec fn entry_binding(e: Entry) -> BindingView {
    BindingView { action: e.action, unknown: e.unknown, keys: strokes_of(e) }
}

/// The bindings the entries `es` of mode `mode` make, in order.
pub open spec fn mode_entries(es: Seq<Entry>, mode: AppMode) -> Seq<BindingView>
    decreases es.len(),
{
    if es.len() == 0 {
        Seq::empty()
    } else if es.last().mode == mode {
        mode_entries(es.drop_last(), mode).push(entry_binding(es.last()))
    } else {
        mode_entries(es.drop_last(), mode)
    }
}

/// The bindings made by the readable keys `keys` of the action named
/// `name`, in order.
pub open spec fn readable_keys(name: Seq<char>, keys: Seq<String>) -> Seq<BindingView>
    decreases keys.len(),
{
    if keys.len() == 0 {
        Seq::empty()
    } else {
        let r = readable_keys(name, keys.drop_last());
        match parsed_binding(keys.last()@) {
            Parsed::Strokes(v) => r.push(BindingView { action: name, unknown: known_action(name) is None, keys: v }),
            _ => r,
        }
    }
}

/// The bindings a mode map makes when keys that cannot be read are left
/// out: each action in order, each of its readable keys in order.
pub open spec fn map_bindings(m: Seq<(String, Vec<String>)>) -> Seq<BindingView>
    decreases m.len(),
{
    if m.len() == 0 {
        Seq::empty()
    } else {
        map_bindings(m.drop_last()) + readable_keys(m.last().0@, m.last().1@)
    }
}

/// With no problem found among the first `n` entries, their keys can be
/// read.
pub proof fn lemma_no_issues_readable(es: Seq<Entry>, n: int)
    requires
        0 <= n <= es.len(),
        all_issues(es, n).len() == 0,
    ensures
        forall|i: int| 0 <= i < n ==> readable(#[trigger] es[i]),
    decreases n,
{
    if n > 0 {
        assert(all_issues(es, n) == all_issues(es, n - 1) + entry_issues(es, n - 1));
        lemma_no_issues_readable(es, n - 1);
        assert(readable(es[n - 1]));
    }
}

/// Whether no two bindings of `bs` clash: none has the keys of an earlier
/// one, begins them or continues them.
pub open spec fn clash_free(bs: Seq<BindingView>) -> bool {
    forall|i: int, j: int| 0 <= i < j < bs.len() ==> conflict_of(#[trigger] bs[j].keys, #[trigger] bs[i].keys) is None
}

/// Two key sequences clash whichever comes first.
pub proof fn lemma_conflict_symmetric(a: Seq<KeyStroke>, b: Seq<KeyStroke>)
    ensures
        (conflict_of(a, b) is None) == (conflict_of(b, a) is None),
{
}

/// With no clash found from `j` on, none of those bindings clashes.
pub proof fn lemma_no_conflict_from(bs: Seq<BindingView>, keys: Seq<KeyStroke>, j: int)
    requires
        0 <= j,
        first_conflict(bs, keys, j) is None,
    ensures
        forall|i: int| j <= i < bs.len() ==> conflict_of(keys, #[trigger] bs[i].keys) is None,
    decreases bs.len() - j,
{
    if j < bs.len() {
        lemma_no_conflict_from(bs, keys, j + 1);
    }
}

/// Every binding left when those of an action are removed is one of the
/// bindings.
pub proof fn lemma_without_members(bs: Seq<BindingView>, a: CanvasKeyAction)
    ensures
        forall|k: int| 0 <= k < without_action(bs, a).len() ==> bs.contains(#[trigger] without_action(bs, a)[k]),
    decreases bs.len(),
{
    if bs.len() > 0 {
        let d = bs.drop_last();
        lemma_without_members(d, a);
        let w = without_action(d, a);
        if is_action(bs.last(), a) {
            assert(without_action(bs, a) == w);
        } else {
            assert(without_action(bs, a) == w.push(bs.last()));
        }
        assert forall|k: int| 0 <= k < without_action(bs, a).len() implies bs.contains(
            #[trigger] without_action(bs, a)[k],
        ) by {
            if k < w.len() {
                assert(d.contains(w[k]));
                let i = choose|i: int| 0 <= i < d.len() && d[i] == w[k];
                assert(bs[i] == d[i]);
            } else {
                assert(bs[bs.len() - 1] == without_action(bs, a)[k]);
            }
        }
    }
}

/// Removing the bindings of an action keeps bindings free of clashes.
pub proof fn lemma_without_clash_free(bs: Seq<BindingView>, a: CanvasKeyAction)
    requires
        clash_free(bs),
    ensures
        clash_free(without_action(bs, a)),
    decreases bs.len(),
{
    if bs.len() > 0 {
        let d = bs.drop_last();
        assert(clash_free(d)) by {
            assert forall|i: int, j: int| 0 <= i < j < d.len() implies conflict_of(
                #[trigger] d[j].keys,
                #[trigger] d[i].keys,
            ) is None by {
                assert(d[j] == bs[j] && d[i] == bs[i]);
            }
        }
        lemma_without_clash_free(d, a);
        lemma_without_members(d, a);
        let w = without_action(d, a);
        if !is_action(bs.last(), a) {
            let p = w.push(bs.last());
            assert(without_action(bs, a) == p);
            assert forall|i: int, j: int| 0 <= i < j < p.len() implies conflict_of(
                #[trigger] p[j].keys,
                #[trigger] p[i].keys,
            ) is None by {
                if j < w.len() {
                    assert(p[j] == w[j] && p[i] == w[i]);
                } else {
                    assert(p[i] == w[i]);
                    assert(d.contains(w[i]));
                    let ii = choose|ii: int| 0 <= ii < d.len() && d[ii] == w[i];
                    assert(bs[ii] == d[ii]);
                    assert(conflict_of(bs[bs.len() - 1].keys, bs[ii].keys) is None);
                }
            }
        } else {
            assert(without_action(bs, a) == w);
        }
    }
}

/// Removing one binding keeps bindings free of clashes.
pub proof fn lemma_remove_clash_free(bs: Seq<BindingView>, k: int)
    requires
        clash_free(bs),
        0 <= k < bs.len(),
    ensures
        clash_free(bs.remove(k)),
{
    let r = bs.remove(k);
    assert forall|i: int, j: int| 0 <= i < j < r.len() implies conflict_of(#[trigger] r[j].keys, #[trigger] r[i].keys)
        is None by {
        let ii = if i < k { i } else { i + 1 };
        let jj = if j < k { j } else { j + 1 };
        assert(r[i] == bs[ii]);
        assert(r[j] == bs[jj]);
    }
}

/// Appending a binding whose keys clash with none keeps bindings free of
/// clashes.
pub proof fn lemma_push_clash_free(bs: Seq<BindingView>, b: BindingView)
    requires
        clash_free(bs),
        first_conflict(bs, b.keys, 0) is None,
    ensures
        clash_free(bs.push(b)),
{
    lemma_no_conflict_from(bs, b.keys, 0);
    let p = bs.push(b);
    assert forall|i: int, j: int| 0 <= i < j < p.len() implies conflict_of(#[trigger] p[j].keys, #[trigger] p[i].keys)
        is None by {
        if j == bs.len() {
            assert(conflict_of(b.keys, bs[i].keys) is None);
        } else {
            assert(p[j] == bs[j] && p[i] == bs[i]);
        }
    }
}

/// In bindings free of clashes, looking up the keys of a binding finds that
/// binding, with no wait for more keys.
pub proof fn lemma_clash_free_lookup(bs: Seq<BindingView>, k: int)
    requires
        clash_free(bs),
        0 <= k < bs.len(),
        bs[k].keys.len() > 0,
    ensures
        lookup_in(bs, bs[k].keys) == (Some(k), false),
{
    lemma_find_first(bs, bs[k].keys, 0, k);
}

/// When the keys of binding `m` are those of no binding from `j` to `m`,
/// the first binding from `j` with those keys is `m`.
proof fn lemma_find_first(bs: Seq<BindingView>, keys: Seq<KeyStroke>, j: int, m: int)
    requires
        0 <= j <= m < bs.len(),
        bs[m].keys == keys,
        clash_free(bs),
    ensures
        find_keys(bs, keys, j) == Some(m),
    decreases m - j,
{
    if j < m {
        assert(conflict_of(bs[m].keys, bs[j].keys) is None);
        lemma_find_first(bs, keys, j + 1, m);
    }
}

/// The clash of the keys of `ks` at `l2` and `r2` when no pair from
/// `(l, r)` on clashes.
proof fn lemma_no_pair(ks: Seq<Seq<KeyStroke>>, l: int, r: int, l2: int, r2: int)
    requires
        first_pair(ks, l, r) is None,
        0 <= l <= l2 < r2 < ks.len(),
        l < r,
        l2 > l || r2 >= r,
    ensures
        conflict_of(ks[l2], ks[r2]) is None,
    decreases ks.len() - l, ks.len() - r,
{
    if r >= ks.len() {
        lemma_no_pair(ks, l + 1, l + 2, l2, r2);
    } else if l2 != l || r2 != r {
        lemma_no_pair(ks, l, r + 1, l2, r2);
    }
}

/// With no keys of `ks` from `k` on clashing with `rest`, none does.
proof fn lemma_none_blocked(rest: Seq<BindingView>, ks: Seq<Seq<KeyStroke>>, k: int)
    requires
        0 <= k,
        first_blocked(rest, ks, k) is None,
    ensures
        forall|q: int, j: int|
            k <= q < ks.len() && 0 <= j < rest.len() ==> conflict_of(#[trigger] ks[q], #[trigger] rest[j].keys) is None,
    decreases ks.len() - k,
{
    if k < ks.len() {
        lemma_no_conflict_from(rest, ks[k], 0);
        lemma_none_blocked(rest, ks, k + 1);
    }
}

/// Bindings remapped without refusal are free of clashes when the others
/// were.
proof fn lemma_remapped_clash_free(rest: Seq<BindingView>, a: CanvasKeyAction, ks: Seq<Seq<KeyStroke>>)
    requires
        clash_free(rest),
        ks.len() > 0 ==> first_pair(ks, 0, 1) is None,
        first_blocked(rest, ks, 0) is None,
    ensures
        clash_free(remapped(rest, a, ks)),
{
    let p = remapped(rest, a, ks);
    lemma_none_blocked(rest, ks, 0);
    assert forall|i: int, j: int| 0 <= i < j < p.len() implies conflict_of(#[trigger] p[j].keys, #[trigger] p[i].keys)
        is None by {
        if j < rest.len() {
            assert(p[j] == rest[j] && p[i] == rest[i]);
        } else if i < rest.len() {
            assert(p[j].keys == ks[j - rest.len()]);
            assert(p[i] == rest[i]);
            assert(conflict_of(ks[j - rest.len()], rest[i].keys) is None);
        } else {
            assert(p[j].keys == ks[j - rest.len()]);
            assert(p[i].keys == ks[i - rest.len()]);
            lemma_no_pair(ks, 0, 1, i - rest.len(), j - rest.len());
            lemma_conflict_symmetric(ks[i - rest.len()], ks[j - rest.len()]);
        }
    }
}

/// The keys of an action's bindings after remapping are the new keys.
proof fn lemma_remapped_keys(rest: Seq<BindingView>, a: CanvasKeyAction, ks: Seq<Seq<KeyStroke>>)
    requires
        forall|i: int| 0 <= i < rest.len() ==> !is_action(#[trigger] rest[i], a),
    ensures
        keys_of(remapped(rest, a, ks), a) == ks,
    decreases ks.len(),
{
    if ks.len() == 0 {
        assert(remapped(rest, a, ks) =~= rest);
        lemma_keys_of_none(rest, a);
    } else {
        lemma_remapped_keys(rest, a, ks.drop_last());
        let p = remapped(rest, a, ks);
        assert(p.drop_last() =~= remapped(rest, a, ks.drop_last()));
        assert(p.last() == bound(a, ks.last()));
        assert(ks.drop_last().push(ks.last()) =~= ks);
    }
}

/// No binding of an action gives no keys for it.
proof fn lemma_keys_of_none(bs: Seq<BindingView>, a: CanvasKeyAction)
    requires
        forall|i: int| 0 <= i < bs.len() ==> !is_action(#[trigger] bs[i], a),
    ensures
        keys_of(bs, a) == Seq::<Seq<KeyStroke>>::empty(),
    decreases bs.len(),
{
    if bs.len() > 0 {
        assert(!is_action(bs[bs.len() - 1], a));
        lemma_keys_of_none(bs.drop_last(), a);
    }
}

/// No binding left when those of an action are removed is one of it.
proof fn lemma_without_none(bs: Seq<BindingView>, a: CanvasKeyAction)
    ensures
        forall|i: int| 0 <= i < without_action(bs, a).len() ==> !is_action(#[trigger] without_action(bs, a)[i], a),
    decreases bs.len(),
{
    if bs.len() > 0 {
        lemma_without_none(bs.drop_last(), a);
        let w = without_action(bs.drop_last(), a);
        if is_action(bs.last(), a) {
            assert(without_action(bs, a) == w);
        } else {
            assert(without_action(bs, a) == w.push(bs.last()));
        }
    }
}

/// With no clash of `keys` in `bs`, the keys of a binding appended to `bs`
/// find that binding.
pub proof fn lemma_found_after_push(bs: Seq<BindingView>, b: BindingView, j: int)
    requires
        0 <= j <= bs.len(),
        first_conflict(bs, b.keys, j) is None,
    ensures
        find_keys(bs.push(b), b.keys, j) == Some(bs.len() as int),
    decreases bs.len() - j,
{
    if j < bs.len() {
        assert(bs.push(b)[j] == bs[j]);
        lemma_found_after_push(bs, b, j + 1);
    }
}

/// Unbinding the keys of a binding just bound without clashes finds that
/// binding, and removing it leaves the bindings as they were.
pub proof fn lemma_unbind_after_bind(bs: Seq<BindingView>, b: BindingView)
    requires
        first_conflict(bs, b.keys, 0) is None,
    ensures
        find_keys(bs.push(b), b.keys, 0) == Some(bs.len() as int),
        bs.push(b).remove(bs.len() as int) == bs,
{
    lemma_found_after_push(bs, b, 0);
    assert(bs.push(b).remove(bs.len() as int) =~= bs);
}

/// The keys of a binding given at run time, when it reads, are not empty.
pub proof fn lemma_runtime_keys_not_empty(b: Seq<char>)
    ensures
        runtime_keys(b) matches Some(k) ==> k.len() > 0,
{
    lemma_binding_has_strokes(b, 0, Seq::empty());
}

/// Removing the bindings of an action leaves no more than there were.
pub proof fn lemma_without_len(bs: Seq<BindingView>, a: CanvasKeyAction)
    ensures
        without_action(bs, a).len() <= bs.len(),
    decreases bs.len(),
{
    if bs.len() > 0 {
        lemma_without_len(bs.drop_last(), a);
    }
}

/// The section name of a mode.
fn mode_section_name(mode: AppMode) -> (res: &'static str)
    ensures
        res@ == section_name(mode),
{
    match mode {
        AppMode::Nor => "nor",
        AppMode::Ins => "ins",
        AppMode::Sel => "sel",
        AppMode::General => "general",
        AppMode::Command => "command",
    }
}

/// The error for a mode without bindings.
fn unsupported_mode_error(mode: AppMode) -> (res: CanvasKeybindingPresetError)
    ensures
        reports(Err::<(), _>(res), seq![IssueView::UnsupportedMode { mode }]),
{
    single_issue(CanvasKeybindingPresetIssue::UnsupportedMode { mode })
}

/// A one-issue error.
fn single_issue(issue: CanvasKeybindingPresetIssue) -> (res: CanvasKeybindingPresetError)
    ensures
        res matches CanvasKeybindingPresetError::Issues(v) && issues_view(v@) == seq![
            crate::keybindings::preset::issue_view(issue),
        ],
{
    let mut v: Vec<CanvasKeybindingPresetIssue> = Vec::new();
    v.push(issue);
    proof {
        assert(v@.drop_last() =~= Seq::<CanvasKeybindingPresetIssue>::empty());
        assert(issues_view(Seq::<CanvasKeybindingPresetIssue>::empty()) == Seq::<IssueView>::empty());
        assert(issues_view(v@) =~= seq![crate::keybindings::preset::issue_view(issue)]);
    }
    CanvasKeybindingPresetError::Issues(v)
}

/// Reads a binding given at run time and normalizes it; an unreadable one
/// is reported for `action` in the section of `mode`.
fn parse_runtime_binding(mode: AppMode, action: &CanvasKeyAction, binding: &str) -> (res: Result<
    Vec<KeyStroke>,
    CanvasKeybindingPresetError,
>)
    ensures
        match runtime_keys(binding@) {
            Some(k) => res matches Ok(v) && v@ == k,
            None => reports(res, invalid_report(mode, action_name(*action), binding@)),
        },
{
    match try_parse_binding(binding) {
        Ok(v) => Ok(normalize_binding(v.as_slice())),
        Err(source) => {
            let issue = CanvasKeybindingPresetIssue::InvalidBinding {
                section: mode_section_name(mode).to_owned(),
                action: copy_action(action),
                binding: binding.to_owned(),
                source,
            };
            Err(single_issue(issue))
        },
    }
}

/// A binding: an action and its keys.
#[derive(Clone, Debug)]
struct Binding {
    action: CanvasKeyAction,
    sequence: Vec<KeyStroke>,
}

/// What a binding holds.
spec fn binding_view(b: Binding) -> BindingView {
    bound(b.action, b.sequence@)
}

/// What a list of bindings holds.
spec fn views(v: Seq<Binding>) -> Seq<BindingView> {
    v.map_values(|b: Binding| binding_view(b))
}

/// The key bindings of the normal, insert and select modes, each an
/// ordered list; the first binding with the keys pressed wins.
#[derive(Clone, Debug)]
pub struct CanvasKeyBindings {
    ro: Vec<Binding>,
    edit: Vec<Binding>,
    hl: Vec<Binding>,
    pub(crate) paradigm: Option<KeybindingParadigm>,
}

/// A binding of a mode, as `entries` lists it.
#[derive(Clone, Debug, PartialEq, Eq)]
pub struct CanvasKeyBindingEntry {
    pub mode: AppMode,
    pub action: CanvasKeyAction,
    pub sequence: Vec<KeyStroke>,
}

/// Whether the entry `e` lists the binding `b` of `mode`.
pub open spec fn lists(e: CanvasKeyBindingEntry, mode: AppMode, b: BindingView) -> bool {
    e.mode == mode && is_action(b, e.action) && e.sequence@ == b.keys
}

impl CanvasKeyBindings {
    /// The bindings of a mode, in order; none for a mode without bindings.
    pub closed spec fn in_mode(self, mode: AppMode) -> Seq<BindingView> {
        match mode {
            AppMode::Nor => views(self.ro@),
            AppMode::Ins => views(self.edit@),
            AppMode::Sel => views(self.hl@),
            _ => Seq::empty(),
        }
    }

    /// The keybinding family the bindings came with, if any.
    pub closed spec fn paradigm_of(self) -> Option<KeybindingParadigm> {
        self.paradigm
    }

    /// Whether `self` has the bindings of `old` in every mode but `mode`,
    /// and its family.
    pub open spec fn same_elsewhere(self, old: Self, mode: AppMode) -> bool {
        &&& self.paradigm_of() == old.paradigm_of()
        &&& forall|m: AppMode| m != mode ==> #[trigger] self.in_mode(m) == old.in_mode(m)
    }

    /// The list of bindings of a mode that holds them.
    fn bindings_for_mode(&self, mode: AppMode) -> (res: Option<&Vec<Binding>>)
        ensures
            res is Some <==> has_bindings(mode),
            res matches Some(v) ==> views(v@) == self.in_mode(mode),
    {
        match mode {
            AppMode::Nor => Some(&self.ro),
            AppMode::Ins => Some(&self.edit),
            AppMode::Sel => Some(&self.hl),
            _ => None,
        }
    }

    /// Appends a binding to a mode that holds bindings.
    fn push_binding(&mut self, mode: AppMode, b: Binding)
        requires
            has_bindings(mode),
        ensures
            final(self).in_mode(mode) == old(self).in_mode(mode).push(binding_view(b)),
            final(self).same_elsewhere(*old(self), mode),
    {
        let ghost old_ro = self.ro@;
        let ghost old_edit = self.edit@;
        let ghost old_hl = self.hl@;
        match mode {
            AppMode::Nor => self.ro.push(b),
            AppMode::Ins => self.edit.push(b),
            _ => self.hl.push(b),
        }
        proof {
            assert(views(old_ro.push(b)) =~= views(old_ro).push(binding_view(b)));
            assert(views(old_edit.push(b)) =~= views(old_edit).push(binding_view(b)));
            assert(views(old_hl.push(b)) =~= views(old_hl).push(binding_view(b)));
        }
    }

    /// Takes the bindings of a mode that holds bindings out, leaving none.
    fn take_mode(&mut self, mode: AppMode) -> (res: Vec<Binding>)
        requires
            has_bindings(mode),
        ensures
            views(res@) == old(self).in_mode(mode),
            final(self).same_elsewhere(*old(self), mode),
    {
        let mut v: Vec<Binding> = Vec::new();
        match mode {
            AppMode::Nor => std::mem::swap(&mut v, &mut self.ro),
            AppMode::Ins => std::mem::swap(&mut v, &mut self.edit),
            _ => std::mem::swap(&mut v, &mut self.hl),
        }
        v
    }

    /// Replaces the bindings of a mode that holds bindings.
    fn set_mode(&mut self, mode: AppMode, v: Vec<Binding>)
        requires
            has_bindings(mode),
        ensures
            final(self).in_mode(mode) == views(v@),
            final(self).same_elsewhere(*old(self), mode),
    {
        match mode {
            AppMode::Nor => self.ro = v,
            AppMode::Ins => self.edit = v,
            _ => self.hl = v,
        }
    }

    /// Whether `sequence` can be bound in `mode`: an error for a mode
    /// without bindings, or for the first binding whose keys clash.
    fn ensure_available(&self, mode: AppMode, action: &CanvasKeyAction, sequence: &[KeyStroke]) -> (res: Result<
        (),
        CanvasKeybindingPresetError,
    >)
        ensures
            !has_bindings(mode) ==> reports(res, seq![IssueView::UnsupportedMode { mode }]),
            has_bindings(mode) ==> match first_conflict(self.in_mode(mode), sequence@, 0) {
                Some(j) => reports(res, conflict_report(mode, *action, sequence@, self.in_mode(mode)[j])),
                None => res is Ok,
            },
    {
        let bindings = match self.bindings_for_mode(mode) {
            Some(b) => b,
            None => {
                return Err(unsupported_mode_error(mode));
            },
        };
        let ghost bs = self.in_mode(mode);
        let mut i: usize = 0;
        while i < bindings.len()
            invariant
                views(bindings@) == bs,
                bs == self.in_mode(mode),
                has_bindings(mode),
                i <= bindings@.len(),
                first_conflict(bs, sequence@, 0) == first_conflict(bs, sequence@, i as int),
            decreases bindings@.len() - i,
        {
            proof {
                assert(bs[i as int] == binding_view(bindings@[i as int]));
            }
            match conflict_kind(sequence, bindings[i].sequence.as_slice()) {
                Some(kind) => {
                    let issue = CanvasKeybindingPresetIssue::BindingConflict {
                        section: mode_section_name(mode).to_owned(),
                        mode,
                        binding: display_binding(sequence),
                        action: copy_action(action),
                        existing_binding: display_binding(bindings[i].sequence.as_slice()),
                        existing_action: copy_action(&bindings[i].action),
                        kind,
                    };
                    return Err(single_issue(issue));
                },
                None => {},
            }
            i += 1;
        }
        Ok(())
    }

    /// Binds `binding` to `action` in `mode`. It is refused, and nothing
    /// changes, when it cannot be read, when the mode holds no bindings, or
    /// when its keys clash with those of a binding of the mode (the first
    /// such binding is reported); otherwise it is appended, and looking its
    /// keys up finds it.
    pub fn bind(&mut self, mode: AppMode, action: CanvasKeyAction, binding: &str) -> (res: Result<
        (),
        CanvasKeybindingPresetError,
    >)
        ensures
            match runtime_keys(binding@) {
                None => reports(res, invalid_report(mode, action_name(action), binding@)) && *final(self)
                    == *old(self),
                Some(keys) => if !has_bindings(mode) {
                    reports(res, seq![IssueView::UnsupportedMode { mode }]) && *final(self) == *old(self)
                } else {
                    match first_conflict(old(self).in_mode(mode), keys, 0) {
                        Some(j) => reports(res, conflict_report(mode, action, keys, old(self).in_mode(mode)[j]))
                            && *final(self) == *old(self),
                        None => res is Ok && final(self).in_mode(mode) == old(self).in_mode(mode).push(
                            bound(action, keys),
                        ) && final(self).same_elsewhere(*old(self), mode),
                    }
                },
            },
            res is Ok ==> lookup_in(final(self).in_mode(mode), runtime_keys(binding@)->0) == (
                Some(old(self).in_mode(mode).len() as int),
                false,
            ),
            clash_free(old(self).in_mode(mode)) ==> clash_free(final(self).in_mode(mode)),
    {
        let sequence = match parse_runtime_binding(mode, &action, binding) {
            Ok(s) => s,
            Err(e) => {
                return Err(e);
            },
        };
        match self.ensure_available(mode, &action, sequence.as_slice()) {
            Ok(()) => {},
            Err(e) => {
                return Err(e);
            },
        }
        let ghost keys = sequence@;
        self.push_binding(mode, Binding { action, sequence });
        proof {
            lemma_found_after_push(old(self).in_mode(mode), bound(action, keys), 0);
            lemma_runtime_keys_not_empty(binding@);
            if clash_free(old(self).in_mode(mode)) {
                lemma_push_clash_free(old(self).in_mode(mode), bound(action, keys));
            }
        }
        Ok(())
    }

    /// Removes the first binding of `mode` with the keys of `binding` and
    /// gives its action; none when no binding has them. Refused, with
    /// nothing changed, when `binding` cannot be read or the mode holds no
    /// bindings.
    pub fn unbind(&mut self, mode: AppMode, binding: &str) -> (res: Result<
        Option<CanvasKeyAction>,
        CanvasKeybindingPresetError,
    >)
        ensures
            match runtime_keys(binding@) {
                None => reports(res, invalid_report(mode, "<unbind>"@, binding@)) && *final(self) == *old(self),
                Some(keys) => if !has_bindings(mode) {
                    reports(res, seq![IssueView::UnsupportedMode { mode }]) && *final(self) == *old(self)
                } else {
                    match find_keys(old(self).in_mode(mode), keys, 0) {
                        None => res matches Ok(None) && *final(self) == *old(self),
                        Some(i) => res matches Ok(Some(a)) && is_action(old(self).in_mode(mode)[i], a)
                            && final(self).in_mode(mode) == old(self).in_mode(mode).remove(i)
                            && final(self).same_elsewhere(*old(self), mode),
                    }
                },
            },
            clash_free(old(self).in_mode(mode)) ==> clash_free(final(self).in_mode(mode)),
    {
        let marker = CanvasKeyAction::Unknown("<unbind>".to_owned());
        proof {
            reveal_strlit("<unbind>");
        }
        let sequence = match parse_runtime_binding(mode, &marker, binding) {
            Ok(s) => s,
            Err(e) => {
                return Err(e);
            },
        };
        let bindings = match self.bindings_for_mode(mode) {
            Some(b) => b,
            None => {
                return Err(unsupported_mode_error(mode));
            },
        };
        let ghost bs = self.in_mode(mode);
        let mut i: usize = 0;
        let mut found: Option<usize> = None;
        while i < bindings.len()
            invariant
                views(bindings@) == bs,
                i <= bindings@.len(),
                found is None ==> find_keys(bs, sequence@, 0) == find_keys(bs, sequence@, i as int),
                found matches Some(f) ==> find_keys(bs, sequence@, 0) == Some(f as int) && f < bindings@.len(),
            decreases bindings@.len() - i,
        {
            proof {
                assert(bs[i as int] == binding_view(bindings@[i as int]));
            }
            if found.is_none() && strokes_eq(bindings[i].sequence.as_slice(), sequence.as_slice()) {
                found = Some(i);
            }
            i += 1;
        }
        match found {
            None => Ok(None),
            Some(f) => {
                let mut v = self.take_mode(mode);
                let removed = v.remove(f);
                proof {
                    assert(views(v@) =~= bs.remove(f as int));
                    assert(binding_view(removed) == bs[f as int]);
                    if clash_free(bs) {
                        lemma_remove_clash_free(bs, f as int);
                    }
                }
                self.set_mode(mode, v);
                Ok(Some(removed.action))
            },
        }
    }

    /// Replaces the bindings of `action` in `mode` by one for each of
    /// `bindings`, in order, after the other bindings of the mode. Refused,
    /// with nothing changed, for the first binding that cannot be read or
    /// repeats the keys of an earlier one, then for the first two whose keys
    /// clash, then for a mode without bindings, then for the first whose keys
    /// clash with a binding of another action; the refusal names the
    /// bindings involved.
    pub fn remap_action(&mut self, mode: AppMode, action: CanvasKeyAction, bindings: Vec<String>) -> (res: Result<
        (),
        CanvasKeybindingPresetError,
    >)
        ensures
            ({
                let bs = texts(bindings@);
                let ks = all_keys(bs);
                let rest = without_action(old(self).in_mode(mode), action);
                match first_bad(bs, 0) {
                    Some(k) => *final(self) == *old(self) && match runtime_keys(bs[k]) {
                        None => reports(res, invalid_report(mode, action_name(action), bs[k])),
                        Some(keys) => reports(res, conflict_report(mode, action, keys, bound(action, keys))),
                    },
                    None => match first_pair(ks, 0, 1) {
                        Some((l, r)) => *final(self) == *old(self) && reports(
                            res,
                            conflict_report(mode, action, ks[l], bound(action, ks[r])),
                        ),
                        None => if !has_bindings(mode) {
                            *final(self) == *old(self) && reports(res, seq![IssueView::UnsupportedMode { mode }])
                        } else {
                            match first_blocked(rest, ks, 0) {
                                Some((k, j)) => *final(self) == *old(self) && reports(
                                    res,
                                    conflict_report(mode, action, ks[k], rest[j]),
                                ),
                                None => res is Ok && final(self).in_mode(mode) == remapped(rest, action, ks)
                                    && final(self).same_elsewhere(*old(self), mode),
                            }
                        },
                    },
                }
            }),
            res is Ok ==> keys_of(final(self).in_mode(mode), action) == all_keys(texts(bindings@)),
            clash_free(old(self).in_mode(mode)) ==> clash_free(final(self).in_mode(mode)),
    {
        let ghost bs = texts(bindings@);
        let mut sequences: Vec<Vec<KeyStroke>> = Vec::new();
        let mut i: usize = 0;
        while i < bindings.len()
            invariant
                bs == texts(bindings@),
                i <= bindings@.len(),
                sequences@.len() == i,
                forall|k: int| 0 <= k < i ==> #[trigger] runtime_keys(bs[k]) is Some,
                forall|k: int| 0 <= k < i ==> (#[trigger] sequences@[k])@ == runtime_keys(bs[k])->0,
                first_bad(bs, 0) == first_bad(bs, i as int),
            decreases bindings@.len() - i,
        {
            proof {
                assert(bs[i as int] == bindings@[i as int]@);
            }
            let seq = match parse_runtime_binding(mode, &action, bindings[i].as_str()) {
                Ok(s) => s,
                Err(e) => {
                    return Err(e);
                },
            };
            match seen_before(&sequences, &seq) {
                Some(d) => {
                    let issue = CanvasKeybindingPresetIssue::BindingConflict {
                        section: mode_section_name(mode).to_owned(),
                        mode,
                        binding: display_binding(seq.as_slice()),
                        action: copy_action(&action),
                        existing_binding: display_binding(seq.as_slice()),
                        existing_action: copy_action(&action),
                        kind: CanvasKeybindingConflictKind::Exact,
                    };
                    proof {
                        assert(runtime_keys(bs[d as int]) == runtime_keys(bs[i as int]));
                        assert(first_bad(bs, i as int) == Some(i as int));
                    }
                    return Err(single_issue(issue));
                },
                None => {},
            }
            proof {
                assert forall|k: int| 0 <= k < i implies #[trigger] runtime_keys(bs[k]) != runtime_keys(bs[i as int]) by {
                    assert(sequences@[k]@ != seq@);
                }
            }
            let ghost before = sequences@;
            proof {
                assert(runtime_keys(bs[i as int]) == Some(seq@));
            }
            sequences.push(seq);
            proof {
                assert(sequences@[i as int]@ == runtime_keys(bs[i as int])->0);
                assert forall|k: int| 0 <= k < i + 1 implies (#[trigger] sequences@[k])@ == runtime_keys(bs[k])->0 by {
                    if k < i {
                        assert(sequences@[k] == before[k]);
                    }
                }
            }
            i += 1;
        }
        proof {
            assert(first_bad(bs, 0) is None);
        }
        let ghost ks = all_keys(bs);
        proof {
            assert forall|k: int| 0 <= k < sequences@.len() implies (#[trigger] sequences@[k])@ == ks[k] by {}
        }
        let n = sequences.len();
        let mut l: usize = 0;
        while l < n
            invariant
                n == sequences@.len(),
                ks.len() == n,
                forall|k: int| 0 <= k < n ==> (#[trigger] sequences@[k])@ == ks[k],
                l <= n,
                ks == all_keys(bs),
                bs == texts(bindings@),
                first_bad(bs, 0) is None,
                *self == *old(self),
                first_pair(ks, 0, 1) == first_pair(ks, l as int, l + 1),
            decreases n - l,
        {
            let mut r: usize = l + 1;
            while r < n
                invariant
                    n == sequences@.len(),
                    ks.len() == n,
                    forall|k: int| 0 <= k < n ==> (#[trigger] sequences@[k])@ == ks[k],
                    l < n,
                    l + 1 <= r <= n,
                    ks == all_keys(bs),
                    bs == texts(bindings@),
                    first_bad(bs, 0) is None,
                    *self == *old(self),
                    first_pair(ks, 0, 1) == first_pair(ks, l as int, r as int),
                decreases n - r,
            {
                match conflict_kind(sequences[l].as_slice(), sequences[r].as_slice()) {
                    Some(kind) => {
                        let issue = CanvasKeybindingPresetIssue::BindingConflict {
                            section: mode_section_name(mode).to_owned(),
                            mode,
                            binding: display_binding(sequences[l].as_slice()),
                            action: copy_action(&action),
                            existing_binding: display_binding(sequences[r].as_slice()),
                            existing_action: copy_action(&action),
                            kind,
                        };
                        return Err(single_issue(issue));
                    },
                    None => {},
                }
                r += 1;
            }
            l += 1;
        }
        let current = match self.bindings_for_mode(mode) {
            Some(b) => b,
            None => {
                return Err(unsupported_mode_error(mode));
            },
        };
        let mut rest = copies_without(current, &action);
        let ghost restv = views(rest@);
        proof {
            assert(first_pair(ks, 0, 1) is None);
        }
        let mut k: usize = 0;
        while k < n
            invariant
                n == sequences@.len(),
                ks.len() == n,
                forall|q: int| 0 <= q < n ==> (#[trigger] sequences@[q])@ == ks[q],
                k <= n,
                views(rest@) == restv,
                restv == without_action(old(self).in_mode(mode), action),
                has_bindings(mode),
                ks == all_keys(bs),
                bs == texts(bindings@),
                first_bad(bs, 0) is None,
                first_pair(ks, 0, 1) is None,
                *self == *old(self),
                first_blocked(restv, ks, 0) == first_blocked(restv, ks, k as int),
            decreases n - k,
        {
            let mut j: usize = 0;
            while j < rest.len()
                invariant
                    n == sequences@.len(),
                    k < n,
                    ks.len() == n,
                    (sequences@[k as int])@ == ks[k as int],
                    views(rest@) == restv,
                    restv == without_action(old(self).in_mode(mode), action),
                    has_bindings(mode),
                    ks == all_keys(bs),
                    bs == texts(bindings@),
                    first_bad(bs, 0) is None,
                    first_pair(ks, 0, 1) is None,
                    *self == *old(self),
                    first_blocked(restv, ks, 0) == first_blocked(restv, ks, k as int),
                    j <= rest@.len(),
                    first_conflict(restv, ks[k as int], 0) == first_conflict(restv, ks[k as int], j as int),
                decreases rest@.len() - j,
            {
                proof {
                    assert(restv[j as int] == binding_view(rest@[j as int]));
                }
                match conflict_kind(sequences[k].as_slice(), rest[j].sequence.as_slice()) {
                    Some(kind) => {
                        proof {
                            assert(first_conflict(restv, ks[k as int], j as int) == Some(j as int));
                            assert(first_blocked(restv, ks, k as int) == Some((k as int, j as int)));
                        }
                        let issue = CanvasKeybindingPresetIssue::BindingConflict {
                            section: mode_section_name(mode).to_owned(),
                            mode,
                            binding: display_binding(sequences[k].as_slice()),
                            action: copy_action(&action),
                            existing_binding: display_binding(rest[j].sequence.as_slice()),
                            existing_action: copy_action(&rest[j].action),
                            kind,
                        };
                        return Err(single_issue(issue));
                    },
                    None => {},
                }
                j += 1;
            }
            k += 1;
        }
        proof {
            assert(first_blocked(restv, ks, 0) is None);
            assert(remapped(restv, action, ks.take(0)) =~= restv);
        }
        let mut q: usize = 0;
        while q < n
            invariant
                n == sequences@.len(),
                ks.len() == n,
                forall|p: int| 0 <= p < n ==> (#[trigger] sequences@[p])@ == ks[p],
                q <= n,
                restv == without_action(old(self).in_mode(mode), action),
                has_bindings(mode),
                ks == all_keys(bs),
                bs == texts(bindings@),
                first_bad(bs, 0) is None,
                first_pair(ks, 0, 1) is None,
                first_blocked(restv, ks, 0) is None,
                *self == *old(self),
                views(rest@) == remapped(restv, action, ks.take(q as int)),
            decreases n - q,
        {
            let b = Binding { action: copy_action(&action), sequence: sequences[q].clone() };
            let ghost before = rest@;
            rest.push(b);
            proof {
                assert(views(before.push(b)) =~= views(before).push(binding_view(b)));
                assert(remapped(restv, action, ks.take(q + 1)) =~= remapped(restv, action, ks.take(q as int)).push(
                    bound(action, ks[q as int]),
                ));
            }
            q += 1;
        }
        proof {
            assert(ks.take(n as int) =~= ks);
            lemma_without_none(old(self).in_mode(mode), action);
            lemma_remapped_keys(restv, action, ks);
            if clash_free(old(self).in_mode(mode)) {
                lemma_without_clash_free(old(self).in_mode(mode), action);
                lemma_remapped_clash_free(restv, action, ks);
            }
        }
        self.set_mode(mode, rest);
        Ok(())
    }

    /// Removes every binding of `action` in `mode` and gives how many were
    /// removed; refused, with nothing changed, for a mode without bindings.
    pub fn unbind_action(&mut self, mode: AppMode, action: &CanvasKeyAction) -> (res: Result<
        usize,
        CanvasKeybindingPresetError,
    >)
        ensures
            !has_bindings(mode) ==> reports(res, seq![IssueView::UnsupportedMode { mode }]) && *final(self)
                == *old(self),
            has_bindings(mode) ==> {
                &&& final(self).in_mode(mode) == without_action(old(self).in_mode(mode), *action)
                &&& final(self).same_elsewhere(*old(self), mode)
                &&& res matches Ok(n) && n == old(self).in_mode(mode).len() - final(self).in_mode(mode).len()
            },
            clash_free(old(self).in_mode(mode)) ==> clash_free(final(self).in_mode(mode)),
    {
        let bindings = match self.bindings_for_mode(mode) {
            Some(b) => b,
            None => {
                return Err(unsupported_mode_error(mode));
            },
        };
        let kept = copies_without(bindings, action);
        proof {
            lemma_without_len(self.in_mode(mode), *action);
            if clash_free(self.in_mode(mode)) {
                lemma_without_clash_free(self.in_mode(mode), *action);
            }
        }
        let total = bindings.len();
        let n = total - kept.len();
        self.set_mode(mode, kept);
        Ok(n)
    }

    /// Bindings made from a preset whose check finds no problem: each
    /// section's bindings go to its mode, in order (a section of a mode
    /// without bindings is left out); otherwise the problems found.
    pub fn try_from_preset(preset: &CanvasKeybindingPreset) -> (res: Result<Self, CanvasKeybindingPresetError>)
        ensures
            preset_issues(preset.sections_view()).len() > 0 ==> reports(res, preset_issues(preset.sections_view())),
            preset_issues(preset.sections_view()).len() == 0 ==> (res matches Ok(b) && b.paradigm_of() is None
                && forall|m: AppMode|
                has_bindings(m) ==> #[trigger] b.in_mode(m) == mode_entries(section_entries(preset.sections_view()), m)),
    {
        match preset.validate() {
            Ok(()) => {},
            Err(e) => {
                return Err(e);
            },
        }
        let es = preset.flat_entries();
        let ghost ev = flat_views(es@);
        proof {
            lemma_flat_len(es@);
            lemma_no_issues_readable(ev, ev.len() as int);
        }
        let mut b = CanvasKeyBindings { ro: Vec::new(), edit: Vec::new(), hl: Vec::new(), paradigm: None };
        let mut i: usize = 0;
        proof {
            assert(ev.take(0) =~= Seq::<Entry>::empty());
            assert(views(b.ro@) =~= Seq::<BindingView>::empty());
            assert(views(b.edit@) =~= Seq::<BindingView>::empty());
            assert(views(b.hl@) =~= Seq::<BindingView>::empty());
        }
        while i < es.len()
            invariant
                ev == flat_views(es@),
                ev.len() == es@.len(),
                forall|k: int| 0 <= k < es@.len() ==> #[trigger] ev[k] == flat_view(es@[k]),
                forall|k: int| 0 <= k < ev.len() ==> readable(#[trigger] ev[k]),
                i <= es@.len(),
                b.paradigm is None,
                views(b.ro@) == mode_entries(ev.take(i as int), AppMode::Nor),
                views(b.edit@) == mode_entries(ev.take(i as int), AppMode::Ins),
                views(b.hl@) == mode_entries(ev.take(i as int), AppMode::Sel),
            decreases es@.len() - i,
        {
            proof {
                let t = ev.take(i + 1);
                assert(t.drop_last() =~= ev.take(i as int));
                assert(t.last() == ev[i as int]);
                assert(readable(ev[i as int]));
            }
            let e = &es[i];
            if e.mode == AppMode::Nor || e.mode == AppMode::Ins || e.mode == AppMode::Sel {
                match try_parse_binding(e.key.as_str()) {
                    Ok(v) => {
                        let nb = Binding { action: copy_action(&e.action), sequence: v };
                        let ghost before_ro = b.ro@;
                        let ghost before_edit = b.edit@;
                        let ghost before_hl = b.hl@;
                        if e.mode == AppMode::Nor {
                            b.ro.push(nb);
                        } else if e.mode == AppMode::Ins {
                            b.edit.push(nb);
                        } else {
                            b.hl.push(nb);
                        }
                        proof {
                            assert(binding_view(nb) == entry_binding(ev[i as int]));
                            assert(views(before_ro.push(nb)) =~= views(before_ro).push(binding_view(nb)));
                            assert(views(before_edit.push(nb)) =~= views(before_edit).push(binding_view(nb)));
                            assert(views(before_hl.push(nb)) =~= views(before_hl).push(binding_view(nb)));
                        }
                    },
                    Err(_) => {
                        proof {
                            assert(false);
                        }
                    },
                }
            }
            i += 1;
        }
        proof {
            assert(ev.take(ev.len() as int) =~= ev);
        }
        Ok(b)
    }

    /// Bindings made from a preset whose check finds no problem; see
    /// `try_from_preset`.
    pub fn from_preset(preset: &CanvasKeybindingPreset) -> (res: Self)
        requires
            preset_issues(preset.sections_view()).len() == 0,
        ensures
            res.paradigm_of() is None,
            forall|m: AppMode|
                has_bindings(m) ==> #[trigger] res.in_mode(m) == mode_entries(section_entries(preset.sections_view()), m),
    {
        match Self::try_from_preset(preset) {
            Ok(b) => b,
            Err(_) => {
                proof {
                    assert(false);
                }
                Self::default()
            },
        }
    }

    /// Bindings read leniently from the mode maps of normal, insert and
    /// select mode, each (action name, keys) pairs: every readable key is
    /// bound, in order, to the action named (an unknown name included);
    /// keys that cannot be read are left out.
    pub fn from_mode_maps(
        read_only: &Vec<(String, Vec<String>)>,
        edit: &Vec<(String, Vec<String>)>,
        highlight: &Vec<(String, Vec<String>)>,
    ) -> (res: Self)
        ensures
            res.in_mode(AppMode::Nor) == map_bindings(read_only@),
            res.in_mode(AppMode::Ins) == map_bindings(edit@),
            res.in_mode(AppMode::Sel) == map_bindings(highlight@),
            res.paradigm_of() is None,
    {
        CanvasKeyBindings {
            ro: collect_bindings(read_only),
            edit: collect_bindings(edit),
            hl: collect_bindings(highlight),
            paradigm: None,
        }
    }

    /// Bindings read strictly from the mode maps of normal, insert and
    /// select mode: refused with every problem found (see `maps_issues`)
    /// when a name is unknown, an action has no keys or the check finds a
    /// problem; otherwise the bindings of the preset they make.
    pub fn try_from_mode_maps(
        read_only: &Vec<(String, Vec<String>)>,
        edit: &Vec<(String, Vec<String>)>,
        highlight: &Vec<(String, Vec<String>)>,
    ) -> (res: Result<Self, CanvasKeybindingPresetError>)
        ensures
            maps_issues(read_only@, edit@, highlight@).len() > 0 ==> reports(
                res,
                maps_issues(read_only@, edit@, highlight@),
            ),
            maps_issues(read_only@, edit@, highlight@).len() == 0 ==> (res matches Ok(b) && b.paradigm_of() is None
                && forall|m: AppMode|
                has_bindings(m) ==> #[trigger] b.in_mode(m) == mode_entries(
                    maps_entries(read_only@, edit@, highlight@),
                    m,
                )),
    {
        let preset = match CanvasKeybindingPreset::from_mode_maps(read_only, edit, highlight) {
            Ok(p) => p,
            Err(e) => {
                return Err(e);
            },
        };
        proof {
            let es = maps_entries(read_only@, edit@, highlight@);
            assert(maps_issues(read_only@, edit@, highlight@) == crate::keybindings::preset::map_issues(
                "nor"@,
                read_only@,
            ) + crate::keybindings::preset::map_issues("ins"@, edit@) + crate::keybindings::preset::map_issues(
                "sel"@,
                highlight@,
            ) + all_issues(es, es.len() as int));
        }
        Self::try_from_preset(&preset)
    }

    /// Looks up `seq` in the bindings of `mode` (see `lookup_in`): the
    /// action of the first binding with exactly these keys, and whether
    /// they begin a longer binding.
    pub fn lookup_action(&self, mode: AppMode, seq: &[KeyStroke]) -> (res: (Option<&CanvasKeyAction>, bool))
        ensures
            res.1 == lookup_in(self.in_mode(mode), seq@).1,
            res.0 is Some <==> lookup_in(self.in_mode(mode), seq@).0 is Some,
            res.0 matches Some(a) ==> is_action(self.in_mode(mode)[lookup_in(self.in_mode(mode), seq@).0->0], *a),
    {
        let bindings = match self.bindings_for_mode(mode) {
            Some(b) => b,
            None => {
                return (None, false);
            },
        };
        let ghost bs = self.in_mode(mode);
        if seq.len() == 0 {
            return (None, false);
        }
        let mut i: usize = 0;
        while i < bindings.len()
            invariant
                views(bindings@) == bs,
                bs == self.in_mode(mode),
                seq@.len() > 0,
                i <= bindings@.len(),
                find_keys(bs, seq@, 0) == find_keys(bs, seq@, i as int),
            decreases bindings@.len() - i,
        {
            proof {
                assert(bs[i as int] == binding_view(bindings@[i as int]));
            }
            if strokes_eq(bindings[i].sequence.as_slice(), seq) {
                return (Some(&bindings[i].action), false);
            }
            i += 1;
        }
        let mut j: usize = 0;
        while j < bindings.len()
            invariant
                views(bindings@) == bs,
                bs == self.in_mode(mode),
                find_keys(bs, seq@, 0) is None,
                seq@.len() > 0,
                j <= bindings@.len(),
                forall|k: int|
                    0 <= k < j ==> !(seq@.len() < (#[trigger] bs[k]).keys.len() && bs[k].keys.take(
                        seq@.len() as int,
                    ) == seq@),
            decreases bindings@.len() - j,
        {
            proof {
                assert(bs[j as int] == binding_view(bindings@[j as int]));
            }
            if seq.len() < bindings[j].sequence.len() && starts_with(bindings[j].sequence.as_slice(), seq) {
                return (None, true);
            }
            j += 1;
        }
        (None, false)
    }

    /// Looks up `seq` as `lookup_action` does, giving the action's name.
    pub fn lookup(&self, mode: AppMode, seq: &[KeyStroke]) -> (res: (Option<&str>, bool))
        ensures
            res.1 == lookup_in(self.in_mode(mode), seq@).1,
            res.0 is Some <==> lookup_in(self.in_mode(mode), seq@).0 is Some,
            res.0 matches Some(s) ==> s@ == self.in_mode(mode)[lookup_in(self.in_mode(mode), seq@).0->0].action,
    {
        let (action, is_prefix) = self.lookup_action(mode, seq);
        match action {
            Some(a) => (Some(a.as_str()), is_prefix),
            None => (None, is_prefix),
        }
    }

    /// Every binding: those of normal mode, then insert mode, then select
    /// mode, each in order.
    pub fn entries(&self) -> (res: Vec<CanvasKeyBindingEntry>)
        ensures
            ({
                let r = self.in_mode(AppMode::Nor);
                let e = self.in_mode(AppMode::Ins);
                let h = self.in_mode(AppMode::Sel);
                &&& res@.len() == r.len() + e.len() + h.len()
                &&& forall|i: int| 0 <= i < r.len() ==> lists(#[trigger] res@[i], AppMode::Nor, r[i])
                &&& forall|i: int|
                    0 <= i < e.len() ==> lists(#[trigger] res@[r.len() + i], AppMode::Ins, e[i])
                &&& forall|i: int|
                    0 <= i < h.len() ==> lists(#[trigger] res@[r.len() + e.len() + i], AppMode::Sel, h[i])
            }),
    {
        let mut out: Vec<CanvasKeyBindingEntry> = Vec::new();
        push_entries(&mut out, &self.ro, AppMode::Nor);
        let ghost a = out@;
        push_entries(&mut out, &self.edit, AppMode::Ins);
        let ghost b = out@;
        push_entries(&mut out, &self.hl, AppMode::Sel);
        proof {
            let r = self.in_mode(AppMode::Nor);
            let e = self.in_mode(AppMode::Ins);
            assert(r == views(self.ro@));
            assert forall|i: int| 0 <= i < r.len() implies lists(#[trigger] out@[i], AppMode::Nor, r[i]) by {
                assert(lists(a[0 + i], AppMode::Nor, views(self.ro@)[i]));
                assert(out@[i] == b[i]);
                assert(b[i] == a[i]);
            }
            assert forall|i: int| 0 <= i < e.len() implies lists(#[trigger] out@[r.len() + i], AppMode::Ins, e[i]) by {
                assert(out@[r.len() + i] == b[r.len() + i]);
            }
        }
        out
    }

    /// The keys bound to `action` in `mode`, in order; none for a mode
    /// without bindings.
    pub fn bindings_for(&self, mode: AppMode, action: &CanvasKeyAction) -> (res: Vec<Vec<KeyStroke>>)
        ensures
            res@.len() == keys_of(self.in_mode(mode), *action).len(),
            forall|i: int| 0 <= i < res@.len() ==> (#[trigger] res@[i])@ == keys_of(self.in_mode(mode), *action)[i],
    {
        let mut out: Vec<Vec<KeyStroke>> = Vec::new();
        let bindings = match self.bindings_for_mode(mode) {
            Some(b) => b,
            None => {
                return out;
            },
        };
        let ghost bs = self.in_mode(mode);
        let mut i: usize = 0;
        while i < bindings.len()
            invariant
                views(bindings@) == bs,
                i <= bindings@.len(),
                out@.len() == keys_of(bs.take(i as int), *action).len(),
                forall|k: int| 0 <= k < out@.len() ==> (#[trigger] out@[k])@ == keys_of(bs.take(i as int), *action)[k],
            decreases bindings@.len() - i,
        {
            proof {
                let t = bs.take(i + 1);
                assert(t.drop_last() =~= bs.take(i as int));
                assert(t.last() == bs[i as int]);
            }
            if same_action_exec(&bindings[i].action, action) {
                out.push(bindings[i].sequence.clone());
            }
            i += 1;
        }
        proof {
            assert(bs.take(bs.len() as int) =~= bs);
        }
        out
    }
}

/// The bindings of a mode map, read leniently; see `map_bindings`.
fn collect_bindings(m: &Vec<(String, Vec<String>)>) -> (res: Vec<Binding>)
    ensures
        views(res@) == map_bindings(m@),
{
    let mut out: Vec<Binding> = Vec::new();
    let mut i: usize = 0;
    proof {
        assert(m@.take(0) =~= Seq::<(String, Vec<String>)>::empty());
        assert(views(out@) =~= Seq::<BindingView>::empty());
    }
    while i < m.len()
        invariant
            i <= m@.len(),
            views(out@) == map_bindings(m@.take(i as int)),
        decreases m@.len() - i,
    {
        let name = m[i].0.as_str();
        let list = &m[i].1;
        let ghost base = views(out@);
        let mut k: usize = 0;
        proof {
            assert(list@.take(0) =~= Seq::<String>::empty());
            assert(base + readable_keys(name@, list@.take(0)) =~= base);
        }
        while k < list.len()
            invariant
                k <= list@.len(),
                views(out@) == base + readable_keys(name@, list@.take(k as int)),
            decreases list@.len() - k,
        {
            proof {
                let t = list@.take(k + 1);
                assert(t.drop_last() =~= list@.take(k as int));
                assert(t.last() == list@[k as int]);
            }
            match parse_binding(list[k].as_str()) {
                Some(seq) => {
                    let action = CanvasKeyAction::from_name(name);
                    let b = Binding { action, sequence: seq };
                    let ghost before = out@;
                    out.push(b);
                    proof {
                        lemma_name_round_trip(name@);
                        assert(views(before.push(b)) =~= views(before).push(binding_view(b)));
                    }
                },
                None => {},
            }
            k += 1;
        }
        proof {
            assert(list@.take(list@.len() as int) =~= list@);
            let t = m@.take(i + 1);
            assert(t.drop_last() =~= m@.take(i as int));
            assert(t.last() == m@[i as int]);
        }
        i += 1;
    }
    proof {
        assert(m@.take(m@.len() as int) =~= m@);
    }
    out
}

/// The first of `seqs` equal to `seq`, if any.
fn seen_before(seqs: &Vec<Vec<KeyStroke>>, seq: &Vec<KeyStroke>) -> (res: Option<usize>)
    ensures
        res matches Some(d) ==> d < seqs@.len() && seqs@[d as int]@ == seq@,
        res is None ==> forall|d: int| 0 <= d < seqs@.len() ==> (#[trigger] seqs@[d])@ != seq@,
{
    let mut d: usize = 0;
    while d < seqs.len()
        invariant
            d <= seqs@.len(),
            forall|k: int| 0 <= k < d ==> (#[trigger] seqs@[k])@ != seq@,
        decreases seqs@.len() - d,
    {
        if strokes_eq(seqs[d].as_slice(), seq.as_slice()) {
            return Some(d);
        }
        d += 1;
    }
    None
}

/// Copies of the bindings of `bindings` that are not of `action`.
fn copies_without(bindings: &Vec<Binding>, action: &CanvasKeyAction) -> (res: Vec<Binding>)
    ensures
        views(res@) == without_action(views(bindings@), *action),
{
    let ghost bs = views(bindings@);
    let mut kept: Vec<Binding> = Vec::new();
    let mut i: usize = 0;
    while i < bindings.len()
        invariant
            views(bindings@) == bs,
            i <= bindings@.len(),
            views(kept@) == without_action(bs.take(i as int), *action),
        decreases bindings@.len() - i,
    {
        proof {
            let t = bs.take(i + 1);
            assert(t.drop_last() =~= bs.take(i as int));
            assert(t.last() == bs[i as int]);
            assert(bs[i as int] == binding_view(bindings@[i as int]));
        }
        if !same_action_exec(&bindings[i].action, action) {
            let b = Binding { action: copy_action(&bindings[i].action), sequence: bindings[i].sequence.clone() };
            let ghost before = kept@;
            kept.push(b);
            proof {
                assert(views(before.push(b)) =~= views(before).push(binding_view(b)));
            }
        }
        i += 1;
    }
    proof {
        assert(bs.take(bs.len() as int) =~= bs);
    }
    kept
}

/// Appends the entries of a list of bindings of `mode`.
fn push_entries(out: &mut Vec<CanvasKeyBindingEntry>, bs: &Vec<Binding>, mode: AppMode)
    ensures
        final(out)@.len() == old(out)@.len() + bs@.len(),
        forall|i: int| 0 <= i < old(out)@.len() ==> #[trigger] final(out)@[i] == old(out)@[i],
        forall|i: int|
            0 <= i < bs@.len() ==> lists(#[trigger] final(out)@[old(out)@.len() + i], mode, views(bs@)[i]),
{
    let mut i: usize = 0;
    while i < bs.len()
        invariant
            i <= bs@.len(),
            out@.len() == old(out)@.len() + i,
            forall|k: int| 0 <= k < old(out)@.len() ==> #[trigger] out@[k] == old(out)@[k],
            forall|k: int| 0 <= k < i ==> lists(#[trigger] out@[old(out)@.len() + k], mode, views(bs@)[k]),
        decreases bs@.len() - i,
    {
        let e = CanvasKeyBindingEntry {
            mode,
            action: copy_action(&bs[i].action),
            sequence: bs[i].sequence.clone(),
        };
        out.push(e);
        i += 1;
    }
}

impl Default for CanvasKeyBindings {
    /// No bindings in any mode, and no family.
    fn default() -> (res: Self)
        ensures
            forall|m: AppMode| #[trigger] res.in_mode(m) == Seq::<BindingView>::empty(),
            res.paradigm_of() is None,
    {
        let res = CanvasKeyBindings { ro: Vec::new(), edit: Vec::new(), hl: Vec::new(), paradigm: None };
        proof {
            assert(views(res.ro@) =~= Seq::<BindingView>::empty());
        }
        res
    }
}

} // verus!
