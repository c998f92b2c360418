//! Keybinding presets: named sections of bindings, one mode each, and the
//! check that finds the bindings that cannot be read or that clash.
use vstd::prelude::*;

use crate::keybindings::action::{
    action_name, copy_action, known_action, same_action, same_action_exec, CanvasKeyAction,
};
use crate::keybindings::key_sequence::{
    binding_text, display_binding, parsed_binding, try_parse_binding, KeyStroke, ParseKeyError,
    Parsed,
};
use crate::modes::AppMode;
use crate::text::str_equal;

verus! {

/// A preset: its sections, in order.
#[derive(Debug)]
pub struct CanvasKeybindingPreset {
    sections: Vec<CanvasKeybindingPresetSection>,
}

/// A named section of bindings for one mode.
#[derive(Debug)]
pub struct CanvasKeybindingPresetSection {
    pub name: String,
    pub mode: AppMode,
    pub bindings: Vec<CanvasKeybindingPresetBinding>,
}

/// The key bindings of one action.
#[derive(Debug)]
pub struct CanvasKeybindingPresetBinding {
    pub action: CanvasKeyAction,
    pub keys: Vec<String>,
}

/// How a binding clashes with an earlier one of another action.
#[derive(Debug, Clone, Copy, PartialEq, Eq, Structural)]
pub enum CanvasKeybindingConflictKind {
    /// The same keys.
    Exact,
    /// The new keys begin the earlier ones.
    PrefixOf,
    /// The new keys continue the earlier ones.
    ExtensionOf,
}

/// A problem found in a preset.
#[derive(Debug)]
pub enum CanvasKeybindingPresetIssue {
    RootNotTable,
    SectionNotTable { section: String },
    ModeNotString { section: String },
    UnknownMode { section: String, mode: String },
    UnknownAction { section: String, action: String },
    BindingsNotStringList { section: String, action: String },
    EmptyBindings { section: String, action: String },
    InvalidBinding {
        section: String,
        action: CanvasKeyAction,
        binding: String,
        source: ParseKeyError,
    },
    DuplicateBinding {
        section: String,
        mode: AppMode,
        binding: String,
        first_action: CanvasKeyAction,
        second_action: CanvasKeyAction,
    },
    BindingConflict {
        section: String,
        mode: AppMode,
        binding: String,
        action: CanvasKeyAction,
        existing_binding: String,
        existing_action: CanvasKeyAction,
        kind: CanvasKeybindingConflictKind,
    },
    UnsupportedMode { mode: AppMode },
}

/// Why a preset was refused.
#[derive(Debug)]
pub enum CanvasKeybindingPresetError {
    /// The problems found, in order.
    Issues(Vec<CanvasKeybindingPresetIssue>),
    /// No section has the given name.
    UnknownSection { section: String },
    /// The text is not valid TOML.
    Toml(toml::de::Error),
}

/// One key binding of a preset, as the check sees it: its section, mode,
/// action (name, and whether it is unknown) and keys.
pub struct Entry {
    pub section: Seq<char>,
    pub mode: AppMode,
    pub action: Seq<char>,
    pub unknown: bool,
    pub key: Seq<char>,
}

/// A problem, as the check reports it.
pub enum IssueView {
    Invalid { section: Seq<char>, action: Seq<char>, binding: Seq<char>, source: Parsed },
    Duplicate {
        section: Seq<char>,
        mode: AppMode,
        binding: Seq<char>,
        first_action: Seq<char>,
        second_action: Seq<char>,
    },
    Conflict {
        section: Seq<char>,
        mode: AppMode,
        binding: Seq<char>,
        action: Seq<char>,
        existing_binding: Seq<char>,
        existing_action: Seq<char>,
        kind: CanvasKeybindingConflictKind,
    },
    UnknownAction { section: Seq<char>, action: Seq<char> },
    EmptyBindings { section: Seq<char>, action: Seq<char> },
    UnsupportedMode { mode: AppMode },
    RootNotTable,
    SectionNotTable { section: Seq<char> },
    ModeNotString { section: Seq<char> },
    UnknownMode { section: Seq<char>, mode: Seq<char> },
    BindingsNotStringList { section: Seq<char>, action: Seq<char> },
}

/// The problem an issue reports.
pub open spec fn issue_view(i: CanvasKeybindingPresetIssue) -> IssueView {
    match i {
        CanvasKeybindingPresetIssue::InvalidBinding { section, action, binding, source } => IssueView::Invalid {
            section: section@,
            action: action_name(action),
            binding: binding@,
            source: match source {
                ParseKeyError::Empty => Parsed::Empty,
                ParseKeyError::UnknownKey(t) => Parsed::Unknown(t@),
            },
        },
        CanvasKeybindingPresetIssue::DuplicateBinding { section, mode, binding, first_action, second_action } =>
            IssueView::Duplicate {
            section: section@,
            mode,
            binding: binding@,
            first_action: action_name(first_action),
            second_action: action_name(second_action),
        },
        CanvasKeybindingPresetIssue::BindingConflict {
            section,
            mode,
            binding,
            action,
            existing_binding,
            existing_action,
            kind,
        } => IssueView::Conflict {
            section: section@,
            mode,
            binding: binding@,
            action: action_name(action),
            existing_binding: existing_binding@,
            existing_action: action_name(existing_action),
            kind,
        },
        CanvasKeybindingPresetIssue::UnknownAction { section, action } => IssueView::UnknownAction {
            section: section@,
            action: action@,
        },
        CanvasKeybindingPresetIssue::EmptyBindings { section, action } => IssueView::EmptyBindings {
            section: section@,
            action: action@,
        },
        CanvasKeybindingPresetIssue::UnsupportedMode { mode } => IssueView::UnsupportedMode { mode },
        CanvasKeybindingPresetIssue::RootNotTable => IssueView::RootNotTable,
        CanvasKeybindingPresetIssue::SectionNotTable { section } => IssueView::SectionNotTable {
            section: section@,
        },
        CanvasKeybindingPresetIssue::ModeNotString { section } => IssueView::ModeNotString { section: section@ },
        CanvasKeybindingPresetIssue::UnknownMode { section, mode } => IssueView::UnknownMode {
            section: section@,
            mode: mode@,
        },
        CanvasKeybindingPresetIssue::BindingsNotStringList { section, action } =>
            IssueView::BindingsNotStringList { section: section@, action: action@ },
    }
}

/// The problems of a list of issues.
pub open spec fn issues_view(v: Seq<CanvasKeybindingPresetIssue>) -> Seq<IssueView>
    decreases v.len(),
{
    if v.len() == 0 {
        Seq::empty()
    } else {
        issues_view(v.drop_last()).push(issue_view(v.last()))
    }
}

/// The entries of the keys `keys` of one action.
pub open spec fn key_entries(name: Seq<char>, mode: AppMode, action: CanvasKeyAction, keys: Seq<String>) -> Seq<
    Entry,
>
    decreases keys.len(),
{
    if keys.len() == 0 {
        Seq::empty()
    } else {
        key_entries(name, mode, action, keys.drop_last()).push(
            Entry {
                section: name,
                mode,
                action: action_name(action),
                unknown: action is Unknown,
                key: keys.last()@,
            },
        )
    }
}

/// The entries of the bindings `bs` of one section.
pub open spec fn binding_entries(name: Seq<char>, mode: AppMode, bs: Seq<CanvasKeybindingPresetBinding>) -> Seq<
    Entry,
>
    decreases bs.len(),
{
    if bs.len() == 0 {
        Seq::empty()
    } else {
        binding_entries(name, mode, bs.drop_last()) + key_entries(name, mode, bs.last().action, bs.last().keys@)
    }
}

/// The entries of the sections `secs`, in order.
pub open spec fn section_entries(secs: Seq<CanvasKeybindingPresetSection>) -> Seq<Entry>
    decreases secs.len(),
{
    if secs.len() == 0 {
        Seq::empty()
    } else {
        section_entries(secs.drop_last()) + binding_entries(
            secs.last().name@,
            secs.last().mode,
            secs.last().bindings@,
        )
    }
}

/// How the keys `req` clash with the earlier keys `ex`, if they do.
pub open spec fn conflict_of(req: Seq<KeyStroke>, ex: Seq<KeyStroke>) -> Option<CanvasKeybindingConflictKind> {
    if req == ex {
        Some(CanvasKeybindingConflictKind::Exact)
    } else if req.len() <= ex.len() && ex.take(req.len() as int) == req {
        Some(CanvasKeybindingConflictKind::PrefixOf)
    } else if ex.len() <= req.len() && req.take(ex.len() as int) == ex {
        Some(CanvasKeybindingConflictKind::ExtensionOf)
    } else {
        None
    }
}

/// The strokes of an entry whose keys can be read.
pub open spec fn strokes_of(e: Entry) -> Seq<KeyStroke> {
    match parsed_binding(e.key) {
        Parsed::Strokes(v) => v,
        _ => Seq::empty(),
    }
}

/// Whether the keys of entry `e` can be read.
pub open spec fn readable(e: Entry) -> bool {
    parsed_binding(e.key) is Strokes
}

/// Whether entries `a` and `b` name the same action.
pub open spec fn same_entry_action(a: Entry, b: Entry) -> bool {
    a.action == b.action && a.unknown == b.unknown
}

/// The first readable entry before `i`, from `j` on, with the mode and the
/// strokes of entry `i`.
pub open spec fn first_same(es: Seq<Entry>, i: int, j: int) -> Option<int>
    decreases i - j,
{
    if j >= i {
        None
    } else if readable(es[j]) && es[j].mode == es[i].mode && strokes_of(es[j]) == strokes_of(es[i]) {
        Some(j)
    } else {
        first_same(es, i, j + 1)
    }
}

/// The clashes of entry `i` with the readable entries `j..i` of the same
/// mode and another action, in order.
pub open spec fn conflicts_from(es: Seq<Entry>, i: int, j: int) -> Seq<IssueView>
    decreases i - j,
{
    if j >= i || j < 0 {
        Seq::empty()
    } else {
        let here = if readable(es[j]) && es[j].mode == es[i].mode && !same_entry_action(es[j], es[i])
            && conflict_of(strokes_of(es[i]), strokes_of(es[j])) is Some {
            seq![
                IssueView::Conflict {
                    section: es[i].section,
                    mode: es[i].mode,
                    binding: binding_text(strokes_of(es[i])),
                    action: es[i].action,
                    existing_binding: es[j].key,
                    existing_action: es[j].action,
                    kind: conflict_of(strokes_of(es[i]), strokes_of(es[j]))->0,
                },
            ]
        } else {
            Seq::empty()
        };
        here + conflicts_from(es, i, j + 1)
    }
}

/// The problems of entry `i`: keys that cannot be read; else keys already
/// bound to another action first in the same mode, and every clash with
/// an earlier binding of another action in the same mode.
pub open spec fn entry_issues(es: Seq<Entry>, i: int) -> Seq<IssueView> {
    let e = es[i];
    match parsed_binding(e.key) {
        Parsed::Strokes(_) => {
            let dup = match first_same(es, i, 0) {
                Some(j) => if !same_entry_action(es[j], e) {
                    seq![
                        IssueView::Duplicate {
                            section: e.section,
                            mode: e.mode,
                            binding: e.key,
                            first_action: es[j].action,
                            second_action: e.action,
                        },
                    ]
                } else {
                    Seq::empty()
                },
                None => Seq::empty(),
            };
            dup + conflicts_from(es, i, 0)
        },
        other => seq![
            IssueView::Invalid { section: e.section, action: e.action, binding: e.key, source: other },
        ],
    }
}

/// The problems of the first `n` entries, in order.
pub open spec fn all_issues(es: Seq<Entry>, n: int) -> Seq<IssueView>
    decreases n,
{
    if n <= 0 {
        Seq::empty()
    } else {
        all_issues(es, n - 1) + entry_issues(es, n - 1)
    }
}

/// The problems of a list of sections.
pub open spec fn preset_issues(secs: Seq<CanvasKeybindingPresetSection>) -> Seq<IssueView> {
    all_issues(section_entries(secs), section_entries(secs).len() as int)
}

/// One key binding of a preset, flattened out of its section.
pub(crate) struct FlatEntry {
    pub(crate) section: String,
    pub(crate) mode: AppMode,
    pub(crate) action: CanvasKeyAction,
    pub(crate) key: String,
}

/// What the check sees of a flattened binding.
pub(crate) open spec fn flat_view(f: FlatEntry) -> Entry {
    Entry {
        section: f.section@,
        mode: f.mode,
        action: action_name(f.action),
        unknown: f.action is Unknown,
        key: f.key@,
    }
}

/// What the check sees of flattened bindings.
pub(crate) open spec fn flat_views(v: Seq<FlatEntry>) -> Seq<Entry>
    decreases v.len(),
{
    if v.len() == 0 {
        Seq::empty()
    } else {
        flat_views(v.drop_last()).push(flat_view(v.last()))
    }
}

/// Appending one flattened binding appends its view.
proof fn lemma_flat_push(v: Seq<FlatEntry>, f: FlatEntry)
    ensures
        flat_views(v.push(f)) == flat_views(v).push(flat_view(f)),
{
    assert(v.push(f).drop_last() =~= v);
}

/// Appending one issue appends its view.
pub(crate) proof fn lemma_issue_push(v: Seq<CanvasKeybindingPresetIssue>, i: CanvasKeybindingPresetIssue)
    ensures
        issues_view(v.push(i)) == issues_view(v).push(issue_view(i)),
{
    assert(v.push(i).drop_last() =~= v);
}

/// A copy of a string.
pub(crate) fn copy_string(s: &String) -> (res: String)
    ensures
        res@ == s@,
{
    s.as_str().to_owned()
}

/// Appends the entries of the keys of one action.
fn push_key_entries(
    out: &mut Vec<FlatEntry>,
    name: &String,
    mode: AppMode,
    action: &CanvasKeyAction,
    keys: &Vec<String>,
)
    ensures
        flat_views(final(out)@) == flat_views(old(out)@) + key_entries(name@, mode, *action, keys@),
{
    let mut k: usize = 0;
    while k < keys.len()
        invariant
            k <= keys@.len(),
            flat_views(out@) == flat_views(old(out)@) + key_entries(name@, mode, *action, keys@.take(k as int)),
        decreases keys@.len() - k,
    {
        let ghost before = out@;
        let f = FlatEntry {
            section: copy_string(name),
            mode,
            action: copy_action(action),
            key: copy_string(&keys[k]),
        };
        out.push(f);
        proof {
            lemma_flat_push(before, f);
            let t = keys@.take(k + 1);
            assert(t.drop_last() =~= keys@.take(k as int));
            assert(t.last() == keys@[k as int]);
        }
        k += 1;
    }
    proof {
        assert(keys@.take(keys@.len() as int) =~= keys@);
    }
}

/// Appends the entries of the bindings of one section.
fn push_binding_entries(
    out: &mut Vec<FlatEntry>,
    name: &String,
    mode: AppMode,
    bs: &Vec<CanvasKeybindingPresetBinding>,
)
    ensures
        flat_views(final(out)@) == flat_views(old(out)@) + binding_entries(name@, mode, bs@),
{
    let mut b: usize = 0;
    proof {
        assert(bs@.take(0) =~= Seq::<CanvasKeybindingPresetBinding>::empty());
        assert(flat_views(out@) =~= flat_views(old(out)@) + binding_entries(name@, mode, bs@.take(0)));
    }
    while b < bs.len()
        invariant
            b <= bs@.len(),
            flat_views(out@) == flat_views(old(out)@) + binding_entries(name@, mode, bs@.take(b as int)),
        decreases bs@.len() - b,
    {
        let ghost before = flat_views(out@);
        push_key_entries(out, name, mode, &bs[b].action, &bs[b].keys);
        proof {
            let t = bs@.take(b + 1);
            assert(t.drop_last() =~= bs@.take(b as int));
            assert(t.last() == bs@[b as int]);
            assert(flat_views(out@) =~= flat_views(old(out)@) + binding_entries(name@, mode, t));
        }
        b += 1;
    }
    proof {
        assert(bs@.take(bs@.len() as int) =~= bs@);
    }
}

/// The bindings of the sections, flattened in order.
pub(crate) fn flatten(secs: &Vec<CanvasKeybindingPresetSection>) -> (res: Vec<FlatEntry>)
    ensures
        flat_views(res@) == section_entries(secs@),
{
    let mut out: Vec<FlatEntry> = Vec::new();
    let mut i: usize = 0;
    proof {
        assert(secs@.take(0) =~= Seq::<CanvasKeybindingPresetSection>::empty());
    }
    while i < secs.len()
        invariant
            i <= secs@.len(),
            flat_views(out@) == section_entries(secs@.take(i as int)),
        decreases secs@.len() - i,
    {
        push_binding_entries(&mut out, &secs[i].name, secs[i].mode, &secs[i].bindings);
        proof {
            let t = secs@.take(i + 1);
            assert(t.drop_last() =~= secs@.take(i as int));
            assert(t.last() == secs@[i as int]);
        }
        i += 1;
    }
    proof {
        assert(secs@.take(secs@.len() as int) =~= secs@);
    }
    out
}

/// Whether two key sequences are equal.
pub(crate) fn strokes_eq(a: &[KeyStroke], b: &[KeyStroke]) -> (res: bool)
    ensures
        res == (a@ == b@),
{
    if a.len() != b.len() {
        return false;
    }
    let mut i: usize = 0;
    while i < a.len()
        invariant
            a@.len() == b@.len(),
            i <= a@.len(),
            forall|k: int| 0 <= k < i ==> a@[k] == b@[k],
        decreases a@.len() - i,
    {
        if a[i] != b[i] {
            return false;
        }
        i += 1;
    }
    proof {
        assert(a@ =~= b@);
    }
    true
}

/// Whether `a` begins with `p`.
pub(crate) fn starts_with(a: &[KeyStroke], p: &[KeyStroke]) -> (res: bool)
    ensures
        res == (p@.len() <= a@.len() && a@.take(p@.len() as int) == p@),
{
    if p.len() > a.len() {
        return false;
    }
    let mut i: usize = 0;
    while i < p.len()
        invariant
            p@.len() <= a@.len(),
            i <= p@.len(),
            forall|k: int| 0 <= k < i ==> a@[k] == p@[k],
        decreases p@.len() - i,
    {
        if a[i] != p[i] {
            proof {
                assert(a@.take(p@.len() as int)[i as int] != p@[i as int]);
            }
            return false;
        }
        i += 1;
    }
    proof {
        assert(a@.take(p@.len() as int) =~= p@);
    }
    true
}

/// How the keys `req` clash with the earlier keys `ex`; see `conflict_of`.
pub(crate) fn conflict_kind(req: &[KeyStroke], ex: &[KeyStroke]) -> (res: Option<CanvasKeybindingConflictKind>)
    ensures
        res == conflict_of(req@, ex@),
{
    if strokes_eq(req, ex) {
        Some(CanvasKeybindingConflictKind::Exact)
    } else if starts_with(ex, req) {
        Some(CanvasKeybindingConflictKind::PrefixOf)
    } else if starts_with(req, ex) {
        Some(CanvasKeybindingConflictKind::ExtensionOf)
    } else {
        None
    }
}

/// The problems of the sections `secs`; see `preset_issues`.
fn issues_of(secs: &Vec<CanvasKeybindingPresetSection>) -> (res: Vec<CanvasKeybindingPresetIssue>)
    ensures
        issues_view(res@) == preset_issues(secs@),
{
    let es = flatten(secs);
    proof {
        lemma_flat_len(es@);
    }
    issues_of_entries(&es)
}

/// The problems of flattened bindings.
fn issues_of_entries(es: &Vec<FlatEntry>) -> (res: Vec<CanvasKeybindingPresetIssue>)
    ensures
        issues_view(res@) == all_issues(flat_views(es@), flat_views(es@).len() as int),
{
    let ghost ev = flat_views(es@);
    proof {
        lemma_flat_len(es@);
    }
    let mut parsed: Vec<Option<Vec<KeyStroke>>> = Vec::new();
    let mut issues: Vec<CanvasKeybindingPresetIssue> = Vec::new();
    let mut i: usize = 0;
    while i < es.len()
        invariant
            ev == flat_views(es@),
            ev.len() == es@.len(),
            forall|k: int| 0 <= k < es@.len() ==> #[trigger] ev[k] == flat_view(es@[k]),
            i <= es@.len(),
            parsed@.len() == i,
            forall|k: int|
                0 <= k < i ==> (#[trigger] parsed@[k] matches Some(p) <==> readable(ev[k]))
                    && (parsed@[k] matches Some(p) ==> p@ == strokes_of(ev[k])),
            issues_view(issues@) == all_issues(ev, i as int),
        decreases es@.len() - i,
    {
        let ghost before = issues_view(issues@);
        let ghost e = ev[i as int];
        match try_parse_binding(es[i].key.as_str()) {
            Err(err) => {
                let issue = CanvasKeybindingPresetIssue::InvalidBinding {
                    section: copy_string(&es[i].section),
                    action: copy_action(&es[i].action),
                    binding: copy_string(&es[i].key),
                    source: err,
                };
                let ghost old_issues = issues@;
                issues.push(issue);
                proof {
                    lemma_issue_push(old_issues, issue);
                }
                parsed.push(None);
            },
            Ok(sq) => {
                let mut found: Option<usize> = None;
                let mut j: usize = 0;
                while j < i
                    invariant
                        i < es@.len(),
                        ev.len() == es@.len(),
                        forall|k: int| 0 <= k < es@.len() ==> #[trigger] ev[k] == flat_view(es@[k]),
                        parsed@.len() == i,
                        forall|k: int|
                            0 <= k < i ==> (#[trigger] parsed@[k] matches Some(p) <==> readable(ev[k]))
                                && (parsed@[k] matches Some(p) ==> p@ == strokes_of(ev[k])),
                        sq@ == strokes_of(ev[i as int]),
                        j <= i,
                        found is None ==> first_same(ev, i as int, 0) == first_same(ev, i as int, j as int),
                        found matches Some(f) ==> first_same(ev, i as int, 0) == Some(f as int) && f < i,
                    decreases i - j,
                {
                    if found.is_none() {
                        match &parsed[j] {
                            Some(pj) => {
                                if es[j].mode == es[i].mode && strokes_eq(pj.as_slice(), sq.as_slice()) {
                                    found = Some(j);
                                }
                            },
                            None => {},
                        }
                    }
                    j += 1;
                }
                match found {
                    Some(f) => {
                        if !same_action_exec(&es[f].action, &es[i].action) {
                            let issue = CanvasKeybindingPresetIssue::DuplicateBinding {
                                section: copy_string(&es[i].section),
                                mode: es[i].mode,
                                binding: copy_string(&es[i].key),
                                first_action: copy_action(&es[f].action),
                                second_action: copy_action(&es[i].action),
                            };
                            let ghost old_issues = issues@;
                            issues.push(issue);
                            proof {
                                lemma_issue_push(old_issues, issue);
                            }
                        }
                    },
                    None => {},
                }
                let ghost mid = issues_view(issues@);
                let mut q: usize = 0;
                while q < i
                    invariant
                        i < es@.len(),
                        ev.len() == es@.len(),
                        forall|k: int| 0 <= k < es@.len() ==> #[trigger] ev[k] == flat_view(es@[k]),
                        parsed@.len() == i,
                        forall|k: int|
                            0 <= k < i ==> (#[trigger] parsed@[k] matches Some(p) <==> readable(ev[k]))
                                && (parsed@[k] matches Some(p) ==> p@ == strokes_of(ev[k])),
                        sq@ == strokes_of(ev[i as int]),
                        q <= i,
                        issues_view(issues@) + conflicts_from(ev, i as int, q as int) == mid
                            + conflicts_from(ev, i as int, 0),
                    decreases i - q,
                {
                    match &parsed[q] {
                        Some(pq) => {
                            if es[q].mode == es[i].mode && !same_action_exec(&es[q].action, &es[i].action) {
                                match conflict_kind(sq.as_slice(), pq.as_slice()) {
                                    Some(kind) => {
                                        let issue = CanvasKeybindingPresetIssue::BindingConflict {
                                            section: copy_string(&es[i].section),
                                            mode: es[i].mode,
                                            binding: display_binding(sq.as_slice()),
                                            action: copy_action(&es[i].action),
                                            existing_binding: copy_string(&es[q].key),
                                            existing_action: copy_action(&es[q].action),
                                            kind,
                                        };
                                        let ghost old_issues = issues@;
                                        issues.push(issue);
                                        proof {
                                            lemma_issue_push(old_issues, issue);
                                        }
                                    },
                                    None => {},
                                }
                            }
                        },
                        None => {},
                    }
                    proof {
                        assert(issues_view(issues@) + conflicts_from(ev, i as int, q + 1) == mid
                            + conflicts_from(ev, i as int, 0));
                    }
                    q += 1;
                }
                parsed.push(Some(sq));
            },
        }
        proof {
            assert(all_issues(ev, i + 1) == all_issues(ev, i as int) + entry_issues(ev, i as int));
            assert(issues_view(issues@) =~= all_issues(ev, i + 1));
        }
        i += 1;
    }
    issues
}

/// Flattened bindings and their views have the same length, entry by entry.
pub(crate) proof fn lemma_flat_len(v: Seq<FlatEntry>)
    ensures
        flat_views(v).len() == v.len(),
        forall|k: int| 0 <= k < v.len() ==> #[trigger] flat_views(v)[k] == flat_view(v[k]),
    decreases v.len(),
{
    if v.len() > 0 {
        lemma_flat_len(v.drop_last());
        assert forall|k: int| 0 <= k < v.len() implies #[trigger] flat_views(v)[k] == flat_view(v[k]) by {
            if k < v.len() - 1 {
                assert(v.drop_last()[k] == v[k]);
            }
        }
    }
}

/// Keys with the same text give the same entries.
proof fn lemma_key_entries_views(
    name: Seq<char>,
    mode: AppMode,
    a: CanvasKeyAction,
    b: CanvasKeyAction,
    ka: Seq<String>,
    kb: Seq<String>,
)
    requires
        same_action(a, b),
        ka.len() == kb.len(),
        forall|k: int| 0 <= k < ka.len() ==> #[trigger] ka[k]@ == kb[k]@,
    ensures
        key_entries(name, mode, a, ka) == key_entries(name, mode, b, kb),
    decreases ka.len(),
{
    if ka.len() > 0 {
        assert forall|k: int| 0 <= k < ka.drop_last().len() implies #[trigger] ka.drop_last()[k]@
            == kb.drop_last()[k]@ by {
            assert(ka.drop_last()[k] == ka[k]);
            assert(kb.drop_last()[k] == kb[k]);
        }
        lemma_key_entries_views(name, mode, a, b, ka.drop_last(), kb.drop_last());
        assert(ka.last()@ == kb[kb.len() - 1]@);
    }
}

/// The problems of the entries of one mode map: names of no action, and
/// actions without keys.
pub open spec fn map_issues(name: Seq<char>, m: Seq<(String, Vec<String>)>) -> Seq<IssueView>
    decreases m.len(),
{
    if m.len() == 0 {
        Seq::empty()
    } else {
        let (a, keys) = m.last();
        map_issues(name, m.drop_last()) + if known_action(a@) is None {
            seq![IssueView::UnknownAction { section: name, action: a@ }]
        } else if keys@.len() == 0 {
            seq![IssueView::EmptyBindings { section: name, action: a@ }]
        } else {
            Seq::empty()
        }
    }
}

/// The entries of a mode map whose actions are all known.
pub open spec fn map_entries(name: Seq<char>, mode: AppMode, m: Seq<(String, Vec<String>)>) -> Seq<Entry>
    decreases m.len(),
{
    if m.len() == 0 {
        Seq::empty()
    } else {
        map_entries(name, mode, m.drop_last()) + key_entries(
            name,
            mode,
            known_action(m.last().0@)->0,
            m.last().1@,
        )
    }
}

/// A copy of a list of strings.
fn copy_strings(v: &Vec<String>) -> (res: Vec<String>)
    ensures
        res@.len() == v@.len(),
        forall|k: int| 0 <= k < v@.len() ==> #[trigger] res@[k]@ == v@[k]@,
{
    let mut out: Vec<String> = Vec::new();
    let mut i: usize = 0;
    while i < v.len()
        invariant
            i <= v@.len(),
            out@.len() == i,
            forall|k: int| 0 <= k < i ==> #[trigger] out@[k]@ == v@[k]@,
        decreases v@.len() - i,
    {
        out.push(copy_string(&v[i]));
        i += 1;
    }
    out
}

/// The bindings `bs` are those of the mode map `m`, in order: each the
/// action the name stands for, with the map's keys.
pub open spec fn bindings_hold(bs: Seq<CanvasKeybindingPresetBinding>, m: Seq<(String, Vec<String>)>) -> bool {
    &&& bs.len() == m.len()
    &&& forall|k: int|
        0 <= k < m.len() ==> Some((#[trigger] bs[k]).action) == known_action(m[k].0@)
            && bs[k].keys@.map_values(|s: String| s@) == m[k].1@.map_values(|s: String| s@)
}

/// The section `sec` is named `name`, is for `mode` and holds the bindings
/// of the mode map `m`.
pub open spec fn section_holds(
    sec: CanvasKeybindingPresetSection,
    name: Seq<char>,
    mode: AppMode,
    m: Seq<(String, Vec<String>)>,
) -> bool {
    &&& sec.name@ == name
    &&& sec.mode == mode
    &&& bindings_hold(sec.bindings@, m)
}

/// Reads one mode map into a section named `name`: its problems, and the
/// section when there are none.
fn section_from_map(name: &str, mode: AppMode, m: &Vec<(String, Vec<String>)>) -> (res: (
    Option<CanvasKeybindingPresetSection>,
    Vec<CanvasKeybindingPresetIssue>,
))
    ensures
        issues_view(res.1@) == map_issues(name@, m@),
        map_issues(name@, m@).len() == 0 <==> res.0 is Some,
        res.0 matches Some(sec) ==> sec.name@ == name@ && sec.mode == mode && binding_entries(
            name@,
            mode,
            sec.bindings@,
        ) == map_entries(name@, mode, m@),
        res.0 matches Some(sec) ==> section_holds(sec, name@, mode, m@),
{
    let mut issues: Vec<CanvasKeybindingPresetIssue> = Vec::new();
    let mut bindings: Vec<CanvasKeybindingPresetBinding> = Vec::new();
    let mut i: usize = 0;
    proof {
        assert(m@.take(0) =~= Seq::<(String, Vec<String>)>::empty());
    }
    while i < m.len()
        invariant
            i <= m@.len(),
            issues_view(issues@) == map_issues(name@, m@.take(i as int)),
            map_issues(name@, m@.take(i as int)).len() == 0 ==> binding_entries(name@, mode, bindings@)
                == map_entries(name@, mode, m@.take(i as int)),
            map_issues(name@, m@.take(i as int)).len() == 0 ==> bindings_hold(bindings@, m@.take(i as int)),
        decreases m@.len() - i,
    {
        let ghost before = issues@;
        let ghost bbefore = bindings@;
        let action = CanvasKeyAction::from_name(m[i].0.as_str());
        let unknown = match action {
            CanvasKeyAction::Unknown(_) => true,
            _ => false,
        };
        proof {
            let t = m@.take(i + 1);
            assert(t.drop_last() =~= m@.take(i as int));
            assert(t.last() == m@[i as int]);
        }
        if unknown {
            let issue = CanvasKeybindingPresetIssue::UnknownAction {
                section: name.to_owned(),
                action: copy_string(&m[i].0),
            };
            issues.push(issue);
            proof {
                lemma_issue_push(before, issue);
                assert(issues_view(issues@) =~= map_issues(name@, m@.take(i + 1)));
            }
        } else if m[i].1.len() == 0 {
            let issue = CanvasKeybindingPresetIssue::EmptyBindings {
                section: name.to_owned(),
                action: copy_string(&m[i].0),
            };
            issues.push(issue);
            proof {
                lemma_issue_push(before, issue);
                assert(issues_view(issues@) =~= map_issues(name@, m@.take(i + 1)));
            }
        } else {
            let keys = copy_strings(&m[i].1);
            let b = CanvasKeybindingPresetBinding { action, keys };
            bindings.push(b);
            proof {
                assert(map_issues(name@, m@.take(i + 1)) =~= map_issues(name@, m@.take(i as int)));
                lemma_key_entries_views(name@, mode, b.action, known_action(m@[i as int].0@)->0, b.keys@, m@[i as int].1@);
                assert(bindings@.drop_last() =~= bbefore);
                assert(b.keys@.map_values(|s: String| s@) =~= m@[i as int].1@.map_values(|s: String| s@));
                if map_issues(name@, m@.take(i + 1)).len() == 0 {
                    let t = m@.take(i + 1);
                    assert forall|k: int| 0 <= k < t.len() implies Some((#[trigger] bindings@[k]).action)
                        == known_action(t[k].0@) && bindings@[k].keys@.map_values(|s: String| s@)
                        == t[k].1@.map_values(|s: String| s@) by {
                        if k < i {
                            assert(bindings@[k] == bbefore[k]);
                            assert(t[k] == m@.take(i as int)[k]);
                        }
                    }
                }
            }
        }
        i += 1;
    }
    proof {
        assert(m@.take(m@.len() as int) =~= m@);
    }
    if issues.len() == 0 {
        (Some(CanvasKeybindingPresetSection { name: name.to_owned(), mode, bindings }), issues)
    } else {
        proof {
            assert(issues_view(issues@).len() > 0) by {
                assert(issues@.len() > 0);
                assert(issues_view(issues@) == issues_view(issues@.drop_last()).push(issue_view(issues@.last())));
            }
        }
        (None, issues)
    }
}

/// The problems of a preset read from its three mode maps (normal,
/// insert and select mode, as sections `nor`, `ins` and `sel`): each map's
/// own problems, then those of the sections that were read.
pub open spec fn maps_issues(
    ro: Seq<(String, Vec<String>)>,
    ed: Seq<(String, Vec<String>)>,
    hl: Seq<(String, Vec<String>)>,
) -> Seq<IssueView> {
    map_issues("nor"@, ro) + map_issues("ins"@, ed) + map_issues("sel"@, hl) + {
        let es = maps_entries(ro, ed, hl);
        all_issues(es, es.len() as int)
    }
}

/// The entries of the mode maps that have no problem of their own.
pub open spec fn maps_entries(
    ro: Seq<(String, Vec<String>)>,
    ed: Seq<(String, Vec<String>)>,
    hl: Seq<(String, Vec<String>)>,
) -> Seq<Entry> {
    (if map_issues("nor"@, ro).len() == 0 {
        map_entries("nor"@, AppMode::Nor, ro)
    } else {
        Seq::empty()
    }) + (if map_issues("ins"@, ed).len() == 0 {
        map_entries("ins"@, AppMode::Ins, ed)
    } else {
        Seq::empty()
    }) + (if map_issues("sel"@, hl).len() == 0 {
        map_entries("sel"@, AppMode::Sel, hl)
    } else {
        Seq::empty()
    })
}

impl CanvasKeybindingPreset {
    /// The sections, in order.
    pub closed spec fn sections_view(self) -> Seq<CanvasKeybindingPresetSection> {
        self.sections@
    }

    /// Reads a preset from the bindings of normal, insert and select mode,
    /// each given as (action name, keys) pairs: `Ok` when no name is
    /// unknown, no action is left without keys and the check finds no
    /// problem; otherwise every problem found, in order.
    pub fn from_mode_maps(
        read_only: &Vec<(String, Vec<String>)>,
        edit: &Vec<(String, Vec<String>)>,
        highlight: &Vec<(String, Vec<String>)>,
    ) -> (res: Result<Self, CanvasKeybindingPresetError>)
        ensures
            maps_issues(read_only@, edit@, highlight@).len() == 0 <==> res is Ok,
            res matches Ok(p) ==> section_entries(p.sections_view()) == maps_entries(
                read_only@,
                edit@,
                highlight@,
            ),
            res matches Ok(p) ==> p.sections_view().len() == 3 && section_holds(
                p.sections_view()[0],
                "nor"@,
                AppMode::Nor,
                read_only@,
            ) && section_holds(p.sections_view()[1], "ins"@, AppMode::Ins, edit@) && section_holds(
                p.sections_view()[2],
                "sel"@,
                AppMode::Sel,
                highlight@,
            ),
            res matches Err(e) ==> (e matches CanvasKeybindingPresetError::Issues(v) && issues_view(v@)
                == maps_issues(read_only@, edit@, highlight@)),
    {
        let mut sections: Vec<CanvasKeybindingPresetSection> = Vec::new();
        let mut issues: Vec<CanvasKeybindingPresetIssue> = Vec::new();
        let (s1, i1) = section_from_map("nor", AppMode::Nor, read_only);
        let (s2, i2) = section_from_map("ins", AppMode::Ins, edit);
        let (s3, i3) = section_from_map("sel", AppMode::Sel, highlight);
        let ghost e1 = if s1 is Some { map_entries("nor"@, AppMode::Nor, read_only@) } else { Seq::empty() };
        let ghost e2 = if s2 is Some { map_entries("ins"@, AppMode::Ins, edit@) } else { Seq::empty() };
        let ghost e3 = if s3 is Some { map_entries("sel"@, AppMode::Sel, highlight@) } else { Seq::empty() };
        let ghost g1 = s1;
        let ghost g2 = s2;
        let ghost g3 = s3;
        append_issues(&mut issues, i1);
        append_issues(&mut issues, i2);
        append_issues(&mut issues, i3);
        proof {
            assert(section_entries(sections@) =~= Seq::<Entry>::empty());
        }
        if let Some(s) = s1 {
            let ghost before = sections@;
            sections.push(s);
            proof {
                lemma_section_entries_push(before, s);
            }
        }
        proof {
            assert(section_entries(sections@) =~= e1);
        }
        if let Some(s) = s2 {
            let ghost before = sections@;
            sections.push(s);
            proof {
                lemma_section_entries_push(before, s);
            }
        }
        proof {
            assert(section_entries(sections@) =~= e1 + e2);
        }
        if let Some(s) = s3 {
            let ghost before = sections@;
            sections.push(s);
            proof {
                lemma_section_entries_push(before, s);
            }
        }
        proof {
            assert(section_entries(sections@) =~= e1 + e2 + e3);
            assert(e1 + e2 + e3 =~= maps_entries(read_only@, edit@, highlight@));
            if g1 is Some && g2 is Some && g3 is Some {
                assert(sections@ =~= seq![g1->0, g2->0, g3->0]);
            }
        }
        let found = issues_of(&sections);
        append_issues(&mut issues, found);
        if issues.len() == 0 {
            proof {
                lemma_issues_len(issues@);
                assert(map_issues("nor"@, read_only@).len() == 0);
                assert(map_issues("ins"@, edit@).len() == 0);
                assert(map_issues("sel"@, highlight@).len() == 0);
            }
            Ok(CanvasKeybindingPreset { sections })
        } else {
            proof {
                lemma_issues_len(issues@);
            }
            Err(CanvasKeybindingPresetError::Issues(issues))
        }
    }

    /// A preset of `sections`, refused with `issues` and then the problems
    /// the check finds in the sections, when there are any.
    pub(crate) fn validated(
        sections: Vec<CanvasKeybindingPresetSection>,
        issues: Vec<CanvasKeybindingPresetIssue>,
    ) -> (res: Result<Self, CanvasKeybindingPresetError>)
        ensures
            (issues_view(issues@) + preset_issues(sections@)).len() == 0 <==> res is Ok,
            res matches Ok(p) ==> p.sections_view() == sections@,
            res matches Err(e) ==> (e matches CanvasKeybindingPresetError::Issues(v) && issues_view(v@)
                == issues_view(issues@) + preset_issues(sections@)),
    {
        let mut issues = issues;
        let found = issues_of(&sections);
        append_issues(&mut issues, found);
        proof {
            lemma_issues_len(issues@);
        }
        if issues.len() == 0 {
            Ok(CanvasKeybindingPreset { sections })
        } else {
            Err(CanvasKeybindingPresetError::Issues(issues))
        }
    }

    /// The sections, in order.
    pub fn sections(&self) -> (res: &[CanvasKeybindingPresetSection])
        ensures
            res@ == self.sections_view(),
    {
        self.sections.as_slice()
    }

    /// The first section named `name`, if any.
    pub fn section(&self, name: &str) -> (res: Option<&CanvasKeybindingPresetSection>)
        ensures
            match res {
                Some(s) => exists|i: int|
                    0 <= i < self.sections_view().len() && *s == self.sections_view()[i]
                        && s.name@ == name@ && forall|j: int|
                        0 <= j < i ==> (#[trigger] self.sections_view()[j]).name@ != name@,
                None => forall|i: int|
                    0 <= i < self.sections_view().len() ==> (#[trigger] self.sections_view()[i]).name@
                        != name@,
            },
    {
        let mut i: usize = 0;
        while i < self.sections.len()
            invariant
                i <= self.sections@.len(),
                forall|j: int| 0 <= j < i ==> (#[trigger] self.sections@[j]).name@ != name@,
            decreases self.sections@.len() - i,
        {
            if str_equal(self.sections[i].name.as_str(), name) {
                return Some(&self.sections[i]);
            }
            i += 1;
        }
        None
    }

    /// The key bindings of every section, flattened in order.
    pub(crate) fn flat_entries(&self) -> (res: Vec<FlatEntry>)
        ensures
            flat_views(res@) == section_entries(self.sections_view()),
    {
        flatten(&self.sections)
    }

    /// The problems the check finds in the preset, in order.
    pub fn validation_issues(&self) -> (res: Vec<CanvasKeybindingPresetIssue>)
        ensures
            issues_view(res@) == preset_issues(self.sections_view()),
    {
        issues_of(&self.sections)
    }

    /// `Ok` when the check finds no problem, else the problems found.
    pub fn validate(&self) -> (res: Result<(), CanvasKeybindingPresetError>)
        ensures
            res is Ok <==> preset_issues(self.sections_view()).len() == 0,
            res matches Err(e) ==> (e matches CanvasKeybindingPresetError::Issues(v) && issues_view(v@)
                == preset_issues(self.sections_view())),
    {
        let issues = self.validation_issues();
        proof {
            lemma_issues_len(issues@);
        }
        if issues.len() == 0 {
            Ok(())
        } else {
            Err(CanvasKeybindingPresetError::Issues(issues))
        }
    }
}

impl CanvasKeybindingPresetSection {
    /// The problems the check finds in this section alone, in order.
    pub fn validation_issues(&self) -> (res: Vec<CanvasKeybindingPresetIssue>)
        ensures
            issues_view(res@) == preset_issues(seq![*self]),
    {
        let mut es: Vec<FlatEntry> = Vec::new();
        push_binding_entries(&mut es, &self.name, self.mode, &self.bindings);
        proof {
            lemma_section_entries_push(Seq::<CanvasKeybindingPresetSection>::empty(), *self);
            assert(Seq::<CanvasKeybindingPresetSection>::empty().push(*self) =~= seq![*self]);
            assert(flat_views(Seq::<FlatEntry>::empty()) =~= Seq::<Entry>::empty());
            assert(section_entries(Seq::<CanvasKeybindingPresetSection>::empty()) =~= Seq::<Entry>::empty());
            assert(flat_views(es@) =~= section_entries(seq![*self]));
        }
        issues_of_entries(&es)
    }

    /// `Ok` when the check finds no problem in this section alone, else
    /// the problems found.
    pub fn validate(&self) -> (res: Result<(), CanvasKeybindingPresetError>)
        ensures
            res is Ok <==> preset_issues(seq![*self]).len() == 0,
            res matches Err(e) ==> (e matches CanvasKeybindingPresetError::Issues(v) && issues_view(v@)
                == preset_issues(seq![*self])),
    {
        let issues = self.validation_issues();
        proof {
            lemma_issues_len(issues@);
        }
        if issues.len() == 0 {
            Ok(())
        } else {
            Err(CanvasKeybindingPresetError::Issues(issues))
        }
    }
}

/// Appending a section appends its entries.
pub(crate) proof fn lemma_section_entries_push(secs: Seq<CanvasKeybindingPresetSection>, s: CanvasKeybindingPresetSection)
    ensures
        section_entries(secs.push(s)) == section_entries(secs) + binding_entries(s.name@, s.mode, s.bindings@),
{
    assert(secs.push(s).drop_last() =~= secs);
    assert(secs.push(s).last() == s);
}

/// An issue list and its view have the same length.
proof fn lemma_issues_len(v: Seq<CanvasKeybindingPresetIssue>)
    ensures
        issues_view(v).len() == v.len(),
    decreases v.len(),
{
    if v.len() > 0 {
        lemma_issues_len(v.drop_last());
    }
}

/// Appending issues appends their views.
pub(crate) proof fn lemma_issues_append(a: Seq<CanvasKeybindingPresetIssue>, b: Seq<CanvasKeybindingPresetIssue>)
    ensures
        issues_view(a + b) == issues_view(a) + issues_view(b),
    decreases b.len(),
{
    if b.len() == 0 {
        assert(a + b =~= a);
        assert(issues_view(a) + issues_view(b) =~= issues_view(a));
    } else {
        lemma_issues_append(a, b.drop_last());
        assert((a + b).drop_last() =~= a + b.drop_last());
        assert((a + b).last() == b.last());
        assert(issues_view(a + b) =~= issues_view(a) + issues_view(b));
    }
}

/// Appends the issues `more` to `out`.
fn append_issues(out: &mut Vec<CanvasKeybindingPresetIssue>, more: Vec<CanvasKeybindingPresetIssue>)
    ensures
        issues_view(final(out)@) == issues_view(old(out)@) + issues_view(more@),
{
    let ghost o = out@;
    let ghost m = more@;
    let mut more = more;
    out.append(&mut more);
    proof {
        assert(out@ =~= o + m);
        lemma_issues_append(o, m);
    }
}

} // verus!
