//! Reading a keybinding preset from a TOML document: each table is a
//! section, named for its mode unless a `mode` entry names it, and each other
//! entry binds an action to a key or a list of keys.
use vstd::prelude::*;

use crate::keybindings::action::{action_name, known_action, lemma_name_round_trip, CanvasKeyAction};
use crate::keybindings::preset::{
    all_issues, binding_entries, copy_string, issues_view, key_entries, lemma_issue_push,
    lemma_section_entries_push, section_entries, CanvasKeybindingPreset, CanvasKeybindingPresetBinding,
    CanvasKeybindingPresetError, CanvasKeybindingPresetIssue, CanvasKeybindingPresetSection, Entry, IssueView,
};
use crate::modes::AppMode;
use crate::text::str_equal;

verus! {

#[verifier::external_type_specification]
#[verifier::external_body]
pub struct ExTomlError(toml::de::Error);

#[verifier::external_type_specification]
#[verifier::external_body]
pub struct ExTomlValue(toml::Value);

/// An entry's value, as a preset reads it: a string, an array (each item a
/// string or not), or anything else.
#[derive(Debug)]
pub enum PresetValue {
    Text(String),
    List(Vec<Option<String>>),
    Other,
}

/// A preset document: its tables in the document's order, each with its
/// entries in order, or `None` for an entry of the root that is no table;
/// `None` when the root itself is no table.
#[derive(Debug)]
pub struct PresetDocument {
    pub root: Option<Vec<(String, Option<Vec<(String, PresetValue)>>)>>,
}

/// What an entry's value holds.
pub enum ValueView {
    Text(Seq<char>),
    List(Seq<Option<Seq<char>>>),
    Other,
}

/// The text of an optional string.
pub open spec fn opt_text(o: Option<String>) -> Option<Seq<char>> {
    match o {
        Some(s) => Some(s@),
        None => None,
    }
}

/// What an entry's value holds.
pub open spec fn value_view(v: PresetValue) -> ValueView {
    match v {
        PresetValue::Text(s) => ValueView::Text(s@),
        PresetValue::List(items) => ValueView::List(items@.map_values(|o: Option<String>| opt_text(o))),
        PresetValue::Other => ValueView::Other,
    }
}

/// What the entries of a table hold.
pub open spec fn entries_view(es: Seq<(String, PresetValue)>) -> Seq<(Seq<char>, ValueView)> {
    es.map_values(|e: (String, PresetValue)| (e.0@, value_view(e.1)))
}

/// What a table of the root holds, if it is a table.
pub open spec fn table_view(t: Option<Vec<(String, PresetValue)>>) -> Option<Seq<(Seq<char>, ValueView)>> {
    match t {
        Some(es) => Some(entries_view(es@)),
        None => None,
    }
}

/// What the tables of the root hold.
pub open spec fn tables_view(ts: Seq<(String, Option<Vec<(String, PresetValue)>>)>) -> Seq<
    (Seq<char>, Option<Seq<(Seq<char>, ValueView)>>),
> {
    ts.map_values(|t: (String, Option<Vec<(String, PresetValue)>>)| (t.0@, table_view(t.1)))
}

/// What a preset document holds.
pub open spec fn document_view(d: PresetDocument) -> Option<Seq<(Seq<char>, Option<Seq<(Seq<char>, ValueView)>>)>> {
    match d.root {
        Some(ts) => Some(tables_view(ts@)),
        None => None,
    }
}

/// The preset document that reading the TOML text `source` gives; `None`
/// when it is not valid TOML.
pub uninterp spec fn toml_document(source: Seq<char>) -> Option<
    Option<Seq<(Seq<char>, Option<Seq<(Seq<char>, ValueView)>>)>>,
>;

/// An entry's value as a preset reads it.
#[verifier::external_body]
fn preset_value(v: &toml::Value) -> PresetValue {
    match v {
        toml::Value::String(s) => PresetValue::Text(s.clone()),
        toml::Value::Array(items) => {
            let mut out = Vec::new();
            for item in items {
                out.push(item.as_str().map(str::to_owned));
            }
            PresetValue::List(out)
        },
        _ => PresetValue::Other,
    }
}

/// A table's entries in order, as a preset reads them; `None` for a value
/// that is no table.
#[verifier::external_body]
fn preset_table(v: &toml::Value) -> Option<Vec<(String, PresetValue)>> {
    let table = v.as_table()?;
    let mut out = Vec::new();
    for (key, value) in table {
        out.push((key.clone(), preset_value(value)));
    }
    Some(out)
}

/// Reads `source` as a TOML document (`str::parse::<toml::Value>`) and
/// takes its tables in the order the document's root gives them (that of
/// the keys, toml's tables being sorted maps). Claims that the result is the
/// document `toml_document` names, or the parser's error when that is
/// `None`; nothing is said of the error itself.
#[verifier::external_body]
fn read_document(source: &str) -> (res: Result<PresetDocument, toml::de::Error>)
    ensures
        match toml_document(source@) {
            Some(d) => res matches Ok(doc) && document_view(doc) == d,
            None => res is Err,
        },
{
    let value = source.parse::<toml::Value>()?;
    let root = match value.as_table() {
        Some(table) => {
            let mut out = Vec::new();
            for (name, section) in table {
                out.push((name.clone(), preset_table(section)));
            }
            Some(out)
        },
        None => None,
    };
    Ok(PresetDocument { root })
}

/// The mode a mode name (as a section's name or its `mode` entry gives it)
/// stands for.
pub open spec fn mode_from_name(n: Seq<char>) -> Option<AppMode> {
    if n == "nor"@ || n == "read_only"@ || n == "normal"@ {
        Some(AppMode::Nor)
    } else if n == "ins"@ || n == "edit"@ || n == "insert"@ {
        Some(AppMode::Ins)
    } else if n == "sel"@ || n == "highlight"@ || n == "select"@ {
        Some(AppMode::Sel)
    } else if n == "command"@ {
        Some(AppMode::Command)
    } else if n == "general"@ {
        Some(AppMode::General)
    } else {
        None
    }
}

/// The mode names: a section or `mode` entry named `"nor"`, `"read_only"`
/// or `"normal"` is for normal mode; `"ins"`, `"edit"` or `"insert"` for
/// insert mode; `"sel"`, `"highlight"` or `"select"` for select mode;
/// `"command"` and `"general"` for those modes; and no other name is a mode.
pub proof fn lemma_mode_names(n: Seq<char>)
    ensures
        mode_from_name(n) == Some(AppMode::Nor) <==> (n == "nor"@ || n == "read_only"@ || n == "normal"@),
        mode_from_name(n) == Some(AppMode::Ins) <==> (n == "ins"@ || n == "edit"@ || n == "insert"@),
        mode_from_name(n) == Some(AppMode::Sel) <==> (n == "sel"@ || n == "highlight"@ || n == "select"@),
        mode_from_name(n) == Some(AppMode::Command) <==> (n == "command"@),
        mode_from_name(n) == Some(AppMode::General) <==> (n == "general"@),
        mode_from_name(n) is None <==> !(n == "nor"@ || n == "read_only"@ || n == "normal"@ || n == "ins"@ || n == "edit"@ || n == "insert"@ || n == "sel"@ || n == "highlight"@ || n == "select"@ || n == "command"@ || n == "general"@),
{
    reveal_strlit("nor");
    assert("nor"@ =~= seq!['n', 'o', 'r']);
    reveal_strlit("read_only");
    assert("read_only"@ =~= seq!['r', 'e', 'a', 'd', '_', 'o', 'n', 'l', 'y']);
    reveal_strlit("normal");
    assert("normal"@ =~= seq!['n', 'o', 'r', 'm', 'a', 'l']);
    reveal_strlit("ins");
    assert("ins"@ =~= seq!['i', 'n', 's']);
    reveal_strlit("edit");
    assert("edit"@ =~= seq!['e', 'd', 'i', 't']);
    reveal_strlit("insert");
    assert("insert"@ =~= seq!['i', 'n', 's', 'e', 'r', 't']);
    reveal_strlit("sel");
    assert("sel"@ =~= seq!['s', 'e', 'l']);
    reveal_strlit("highlight");
    assert("highlight"@ =~= seq!['h', 'i', 'g', 'h', 'l', 'i', 'g', 'h', 't']);
    reveal_strlit("select");
    assert("select"@ =~= seq!['s', 'e', 'l', 'e', 'c', 't']);
    reveal_strlit("command");
    assert("command"@ =~= seq!['c', 'o', 'm', 'm', 'a', 'n', 'd']);
    reveal_strlit("general");
    assert("general"@ =~= seq!['g', 'e', 'n', 'e', 'r', 'a', 'l']);
}

/// The keys an entry's value lists: a string is one key, an array of
/// strings its strings; anything else lists none.
pub open spec fn string_list(v: ValueView) -> Option<Seq<Seq<char>>> {
    match v {
        ValueView::Text(s) => Some(seq![s]),
        ValueView::List(items) => if forall|i: int| 0 <= i < items.len() ==> #[trigger] items[i] is Some {
            Some(items.map_values(|o: Option<Seq<char>>| o->0))
        } else {
            None
        },
        ValueView::Other => None,
    }
}

/// The value of the first entry named `key`.
pub open spec fn first_entry(es: Seq<(Seq<char>, ValueView)>, key: Seq<char>) -> Option<ValueView>
    decreases es.len(),
{
    if es.len() == 0 {
        None
    } else if es[0].0 == key {
        Some(es[0].1)
    } else {
        first_entry(es.drop_first(), key)
    }
}

/// The mode name of a table: its `mode` entry when that is a string, else
/// the table's name.
pub open spec fn table_mode_name(name: Seq<char>, es: Seq<(Seq<char>, ValueView)>) -> Seq<char> {
    match first_entry(es, "mode"@) {
        Some(ValueView::Text(m)) => m,
        _ => name,
    }
}

/// The problem of a `mode` entry that is no string.
pub open spec fn mode_issues(name: Seq<char>, es: Seq<(Seq<char>, ValueView)>) -> Seq<IssueView> {
    match first_entry(es, "mode"@) {
        Some(ValueView::Text(_)) => Seq::empty(),
        Some(_) => seq![IssueView::ModeNotString { section: name }],
        None => Seq::empty(),
    }
}

/// The problem of an entry of table `name`: none for the `mode` entry; an
/// unknown action; a value that lists no keys; an empty list.
pub open spec fn entry_problem(name: Seq<char>, k: Seq<char>, v: ValueView) -> Seq<IssueView> {
    if k == "mode"@ {
        Seq::empty()
    } else if known_action(k) is None {
        seq![IssueView::UnknownAction { section: name, action: k }]
    } else {
        match string_list(v) {
            None => seq![IssueView::BindingsNotStringList { section: name, action: k }],
            Some(keys) => if keys.len() == 0 {
                seq![IssueView::EmptyBindings { section: name, action: k }]
            } else {
                Seq::empty()
            },
        }
    }
}

/// The keys an entry binds: those of an entry with no problem.
pub open spec fn entry_keys(name: Seq<char>, k: Seq<char>, v: ValueView) -> Seq<Seq<char>> {
    if k != "mode"@ && entry_problem(name, k, v).len() == 0 {
        string_list(v)->0
    } else {
        Seq::empty()
    }
}

/// The bindings of keys `keys` of the action named `action`, as the check
/// sees them.
pub open spec fn word_entries(name: Seq<char>, mode: AppMode, action: Seq<char>, keys: Seq<Seq<char>>) -> Seq<Entry>
    decreases keys.len(),
{
    if keys.len() == 0 {
        Seq::empty()
    } else {
        word_entries(name, mode, action, keys.drop_last()).push(
            Entry { section: name, mode, action, unknown: false, key: keys.last() },
        )
    }
}

/// The problems of the entries of table `name`, in order.
pub open spec fn table_problems(name: Seq<char>, es: Seq<(Seq<char>, ValueView)>) -> Seq<IssueView>
    decreases es.len(),
{
    if es.len() == 0 {
        Seq::empty()
    } else {
        table_problems(name, es.drop_last()) + entry_problem(name, es.last().0, es.last().1)
    }
}

/// The bindings the entries of table `name` make in mode `mode`, in order.
pub open spec fn table_entries(name: Seq<char>, mode: AppMode, es: Seq<(Seq<char>, ValueView)>) -> Seq<Entry>
    decreases es.len(),
{
    if es.len() == 0 {
        Seq::empty()
    } else {
        table_entries(name, mode, es.drop_last()) + word_entries(
            name,
            mode,
            es.last().0,
            entry_keys(name, es.last().0, es.last().1),
        )
    }
}

/// The bindings of table `name` as (action, keys) pairs, in order: one for
/// each entry with no problem.
pub open spec fn table_binding_list(name: Seq<char>, es: Seq<(Seq<char>, ValueView)>) -> Seq<
    (CanvasKeyAction, Seq<Seq<char>>),
>
    decreases es.len(),
{
    if es.len() == 0 {
        Seq::empty()
    } else {
        let (k, v) = es.last();
        let rest = table_binding_list(name, es.drop_last());
        if k != "mode"@ && entry_problem(name, k, v).len() == 0 {
            rest.push((known_action(k)->0, string_list(v)->0))
        } else {
            rest
        }
    }
}

/// Bindings as (action, keys) pairs.
pub open spec fn binding_pairs(bs: Seq<CanvasKeybindingPresetBinding>) -> Seq<(CanvasKeyAction, Seq<Seq<char>>)> {
    bs.map_values(|b: CanvasKeybindingPresetBinding| (b.action, b.keys@.map_values(|s: String| s@)))
}

/// Every pair of a table's binding list is a known action with keys.
pub proof fn lemma_table_binding_list_known(name: Seq<char>, es: Seq<(Seq<char>, ValueView)>)
    ensures
        forall|j: int|
            0 <= j < table_binding_list(name, es).len() ==> !((#[trigger] table_binding_list(name, es)[j]).0 is Unknown)
                && table_binding_list(name, es)[j].1.len() > 0,
    decreases es.len(),
{
    if es.len() > 0 {
        lemma_table_binding_list_known(name, es.drop_last());
    }
}

/// The mode of the section a table makes; none for a table whose mode name
/// is unknown, or for a root entry that is no table.
pub open spec fn table_mode(name: Seq<char>, t: Option<Seq<(Seq<char>, ValueView)>>) -> Option<AppMode> {
    match t {
        Some(es) => mode_from_name(table_mode_name(name, es)),
        None => None,
    }
}

/// The problems of one root entry: one that is no table; a `mode` entry that
/// is no string, then an unknown mode name or the problems of its entries.
pub open spec fn table_issues(name: Seq<char>, t: Option<Seq<(Seq<char>, ValueView)>>) -> Seq<IssueView> {
    match t {
        None => seq![IssueView::SectionNotTable { section: name }],
        Some(es) => mode_issues(name, es) + match mode_from_name(table_mode_name(name, es)) {
            None => seq![IssueView::UnknownMode { section: name, mode: table_mode_name(name, es) }],
            Some(_) => table_problems(name, es),
        },
    }
}

/// The bindings one root entry makes.
pub open spec fn table_bindings(name: Seq<char>, t: Option<Seq<(Seq<char>, ValueView)>>) -> Seq<Entry> {
    match (t, table_mode(name, t)) {
        (Some(es), Some(m)) => table_entries(name, m, es),
        _ => Seq::empty(),
    }
}

/// The problems of the root entries, in order.
pub open spec fn document_problems(d: Seq<(Seq<char>, Option<Seq<(Seq<char>, ValueView)>>)>) -> Seq<IssueView>
    decreases d.len(),
{
    if d.len() == 0 {
        Seq::empty()
    } else {
        document_problems(d.drop_last()) + table_issues(d.last().0, d.last().1)
    }
}

/// The bindings of the sections the root entries make, in order.
pub open spec fn document_entries(d: Seq<(Seq<char>, Option<Seq<(Seq<char>, ValueView)>>)>) -> Seq<Entry>
    decreases d.len(),
{
    if d.len() == 0 {
        Seq::empty()
    } else {
        document_entries(d.drop_last()) + table_bindings(d.last().0, d.last().1)
    }
}

/// The names and modes of the sections the root entries make, in order.
pub open spec fn document_sections(d: Seq<(Seq<char>, Option<Seq<(Seq<char>, ValueView)>>)>) -> Seq<
    (Seq<char>, AppMode),
>
    decreases d.len(),
{
    if d.len() == 0 {
        Seq::empty()
    } else {
        let rest = document_sections(d.drop_last());
        match table_mode(d.last().0, d.last().1) {
            Some(m) => rest.push((d.last().0, m)),
            None => rest,
        }
    }
}

/// The binding lists of the sections the root entries make, in order.
pub open spec fn document_section_bindings(d: Seq<(Seq<char>, Option<Seq<(Seq<char>, ValueView)>>)>) -> Seq<
    Seq<(CanvasKeyAction, Seq<Seq<char>>)>,
>
    decreases d.len(),
{
    if d.len() == 0 {
        Seq::empty()
    } else {
        let rest = document_section_bindings(d.drop_last());
        match (d.last().1, table_mode(d.last().0, d.last().1)) {
            (Some(es), Some(_)) => rest.push(table_binding_list(d.last().0, es)),
            _ => rest,
        }
    }
}

/// Every pair of a document's binding lists is a known action with keys.
pub proof fn lemma_document_bindings_known(d: Seq<(Seq<char>, Option<Seq<(Seq<char>, ValueView)>>)>)
    ensures
        forall|i: int, j: int|
            0 <= i < document_section_bindings(d).len() && 0 <= j < document_section_bindings(d)[i].len()
                ==> !((#[trigger] document_section_bindings(d)[i][j]).0 is Unknown)
                && document_section_bindings(d)[i][j].1.len() > 0,
    decreases d.len(),
{
    if d.len() > 0 {
        lemma_document_bindings_known(d.drop_last());
        match (d.last().1, table_mode(d.last().0, d.last().1)) {
            (Some(es), Some(_)) => {
                lemma_table_binding_list_known(d.last().0, es);
            },
            _ => {},
        }
    }
}

/// Every problem of a document: a root that is no table; else the problems
/// of its entries, then those the check finds among the bindings read.
pub open spec fn document_issues(root: Option<Seq<(Seq<char>, Option<Seq<(Seq<char>, ValueView)>>)>>) -> Seq<
    IssueView,
> {
    match root {
        None => seq![IssueView::RootNotTable],
        Some(d) => document_problems(d) + all_issues(document_entries(d), document_entries(d).len() as int),
    }
}

/// Whether `p`'s sections are those a document's root entries `d` make:
/// their names and modes, and their bindings.
pub open spec fn read_from(p: CanvasKeybindingPreset, d: Seq<(Seq<char>, Option<Seq<(Seq<char>, ValueView)>>)>) -> bool {
    &&& p.sections_view().len() == document_sections(d).len()
    &&& forall|i: int|
        0 <= i < p.sections_view().len() ==> (#[trigger] p.sections_view()[i]).name@ == document_sections(d)[i].0
            && p.sections_view()[i].mode == document_sections(d)[i].1
    &&& section_entries(p.sections_view()) == document_entries(d)
    &&& document_section_bindings(d).len() == p.sections_view().len()
    &&& forall|i: int|
        0 <= i < p.sections_view().len() ==> binding_pairs((#[trigger] p.sections_view()[i]).bindings@)
            == document_section_bindings(d)[i]
}

/// Every binding of a preset is of a known action, with keys.
pub open spec fn all_bindings_known(p: CanvasKeybindingPreset) -> bool {
    forall|i: int, j: int|
        0 <= i < p.sections_view().len() && 0 <= j < p.sections_view()[i].bindings@.len() ==> {
            &&& !((#[trigger] p.sections_view()[i].bindings@[j]).action is Unknown)
            &&& p.sections_view()[i].bindings@[j].keys@.len() > 0
        }
}

/// The keys of a known action, as the check sees them, read from their text.
proof fn lemma_key_entries_words(name: Seq<char>, mode: AppMode, a: CanvasKeyAction, ks: Seq<String>, ws: Seq<Seq<char>>)
    requires
        !(a is Unknown),
        ks.len() == ws.len(),
        forall|i: int| 0 <= i < ks.len() ==> #[trigger] ks[i]@ == ws[i],
    ensures
        key_entries(name, mode, a, ks) == word_entries(name, mode, action_name(a), ws),
    decreases ks.len(),
{
    if ks.len() > 0 {
        lemma_key_entries_words(name, mode, a, ks.drop_last(), ws.drop_last());
    }
}

/// The mode a mode name stands for; see `mode_from_name`.
fn mode_from_name_exec(n: &str) -> (res: Option<AppMode>)
    ensures
        res == mode_from_name(n@),
{
    if str_equal(n, "nor") || str_equal(n, "read_only") || str_equal(n, "normal") {
        Some(AppMode::Nor)
    } else if str_equal(n, "ins") || str_equal(n, "edit") || str_equal(n, "insert") {
        Some(AppMode::Ins)
    } else if str_equal(n, "sel") || str_equal(n, "highlight") || str_equal(n, "select") {
        Some(AppMode::Sel)
    } else if str_equal(n, "command") {
        Some(AppMode::Command)
    } else if str_equal(n, "general") {
        Some(AppMode::General)
    } else {
        None
    }
}

/// The keys an entry's value lists; see `string_list`.
fn string_list_exec(v: &PresetValue) -> (res: Option<Vec<String>>)
    ensures
        match string_list(value_view(*v)) {
            Some(keys) => res matches Some(l) && l@.len() == keys.len() && forall|i: int|
                0 <= i < keys.len() ==> #[trigger] l@[i]@ == keys[i],
            None => res is None,
        },
{
    match v {
        PresetValue::Text(s) => {
            let mut out: Vec<String> = Vec::new();
            out.push(copy_string(s));
            Some(out)
        },
        PresetValue::List(items) => {
            let ghost iv = match value_view(*v) {
                ValueView::List(w) => w,
                _ => Seq::empty(),
            };
            proof {
                assert(iv.len() == items@.len());
                assert forall|k: int| 0 <= k < iv.len() implies #[trigger] iv[k] == opt_text(items@[k]) by {}
            }
            let mut out: Vec<String> = Vec::new();
            let mut i: usize = 0;
            while i < items.len()
                invariant
                    value_view(*v) == ValueView::List(iv),
                    iv.len() == items@.len(),
                    forall|k: int| 0 <= k < iv.len() ==> #[trigger] iv[k] == opt_text(items@[k]),
                    i <= items@.len(),
                    out@.len() == i,
                    forall|k: int| 0 <= k < i ==> #[trigger] iv[k] is Some && out@[k]@ == iv[k]->0,
                decreases items@.len() - i,
            {
                match &items[i] {
                    Some(s) => {
                        out.push(copy_string(s));
                    },
                    None => {
                        proof {
                            assert(iv[i as int] == opt_text(items@[i as int]));
                            assert(iv[i as int] is None);
                            assert(!(forall|j: int| 0 <= j < iv.len() ==> #[trigger] iv[j] is Some));
                        }
                        return None;
                    },
                }
                i += 1;
            }
            Some(out)
        },
        PresetValue::Other => None,
    }
}

/// The index of the first entry named `key`, if any.
fn first_entry_exec(es: &Vec<(String, PresetValue)>, key: &str) -> (res: Option<usize>)
    ensures
        match first_entry(entries_view(es@), key@) {
            Some(v) => res matches Some(i) && i < es@.len() && value_view(es@[i as int].1) == v,
            None => res is None,
        },
{
    let ghost ev = entries_view(es@);
    let mut i: usize = 0;
    proof {
        assert(ev.subrange(0, ev.len() as int) =~= ev);
    }
    while i < es.len()
        invariant
            ev == entries_view(es@),
            i <= es@.len(),
            first_entry(ev, key@) == first_entry(ev.subrange(i as int, ev.len() as int), key@),
        decreases es@.len() - i,
    {
        let ghost rest = ev.subrange(i as int, ev.len() as int);
        proof {
            assert(rest[0] == ev[i as int]);
            assert(rest.drop_first() =~= ev.subrange(i + 1, ev.len() as int));
        }
        if str_equal(es[i].0.as_str(), key) {
            return Some(i);
        }
        i += 1;
    }
    proof {
        assert(ev.subrange(i as int, ev.len() as int).len() == 0);
    }
    None
}

/// The mode name of a table, and whether its `mode` entry is no string.
fn table_mode_exec(name: &String, es: &Vec<(String, PresetValue)>) -> (res: (String, bool))
    ensures
        res.0@ == table_mode_name(name@, entries_view(es@)),
        res.1 == (mode_issues(name@, entries_view(es@)).len() > 0),
{
    proof {
        reveal_strlit("mode");
    }
    match first_entry_exec(es, "mode") {
        Some(i) => match &es[i].1 {
            PresetValue::Text(m) => (copy_string(m), false),
            _ => (copy_string(name), true),
        },
        None => (copy_string(name), false),
    }
}

/// Reads the entries of table `name` into bindings of `mode`, with the
/// problems found; see `table_problems` and `table_entries`.
fn read_table(name: &String, mode: AppMode, es: &Vec<(String, PresetValue)>) -> (res: (
    Vec<CanvasKeybindingPresetBinding>,
    Vec<CanvasKeybindingPresetIssue>,
))
    ensures
        issues_view(res.1@) == table_problems(name@, entries_view(es@)),
        binding_entries(name@, mode, res.0@) == table_entries(name@, mode, entries_view(es@)),
        binding_pairs(res.0@) == table_binding_list(name@, entries_view(es@)),
{
    let ghost ev = entries_view(es@);
    let mut bindings: Vec<CanvasKeybindingPresetBinding> = Vec::new();
    let mut issues: Vec<CanvasKeybindingPresetIssue> = Vec::new();
    let mut i: usize = 0;
    proof {
        assert(ev.take(0) =~= Seq::<(Seq<char>, ValueView)>::empty());
        assert(issues_view(issues@) =~= Seq::<IssueView>::empty());
    }
    while i < es.len()
        invariant
            ev == entries_view(es@),
            i <= es@.len(),
            issues_view(issues@) == table_problems(name@, ev.take(i as int)),
            binding_entries(name@, mode, bindings@) == table_entries(name@, mode, ev.take(i as int)),
            binding_pairs(bindings@) == table_binding_list(name@, ev.take(i as int)),
        decreases es@.len() - i,
    {
        let ghost before = issues@;
        let ghost bbefore = bindings@;
        let key = &es[i].0;
        let ghost k = key@;
        let ghost v = value_view(es@[i as int].1);
        proof {
            let t = ev.take(i + 1);
            assert(t.drop_last() =~= ev.take(i as int));
            assert(t.last() == (k, v));
            reveal_strlit("mode");
        }
        if str_equal(key.as_str(), "mode") {
            proof {
                assert(entry_problem(name@, k, v) =~= Seq::<IssueView>::empty());
                assert(entry_keys(name@, k, v) =~= Seq::<Seq<char>>::empty());
                assert(issues_view(issues@) =~= table_problems(name@, ev.take(i + 1)));
                assert(binding_entries(name@, mode, bindings@) =~= table_entries(name@, mode, ev.take(i + 1)));
                assert(binding_pairs(bindings@) =~= table_binding_list(name@, ev.take(i + 1)));
            }
        } else {
            let action = CanvasKeyAction::from_name(key.as_str());
            let unknown = match action {
                CanvasKeyAction::Unknown(_) => true,
                _ => false,
            };
            if unknown {
                let issue = CanvasKeybindingPresetIssue::UnknownAction {
                    section: copy_string(name),
                    action: copy_string(key),
                };
                issues.push(issue);
                proof {
                    lemma_issue_push(before, issue);
                    assert(entry_keys(name@, k, v) =~= Seq::<Seq<char>>::empty());
                    assert(issues_view(issues@) =~= table_problems(name@, ev.take(i + 1)));
                    assert(binding_entries(name@, mode, bindings@) =~= table_entries(name@, mode, ev.take(i + 1)));
                    assert(binding_pairs(bindings@) =~= table_binding_list(name@, ev.take(i + 1)));
                }
            } else {
                match string_list_exec(&es[i].1) {
                    None => {
                        let issue = CanvasKeybindingPresetIssue::BindingsNotStringList {
                            section: copy_string(name),
                            action: copy_string(key),
                        };
                        issues.push(issue);
                        proof {
                            lemma_issue_push(before, issue);
                            assert(entry_keys(name@, k, v) =~= Seq::<Seq<char>>::empty());
                            assert(issues_view(issues@) =~= table_problems(name@, ev.take(i + 1)));
                            assert(binding_entries(name@, mode, bindings@) =~= table_entries(
                                name@,
                                mode,
                                ev.take(i + 1),
                            ));
                            assert(binding_pairs(bindings@) =~= table_binding_list(name@, ev.take(i + 1)));
                        }
                    },
                    Some(keys) => {
                        if keys.len() == 0 {
                            let issue = CanvasKeybindingPresetIssue::EmptyBindings {
                                section: copy_string(name),
                                action: copy_string(key),
                            };
                            issues.push(issue);
                            proof {
                                lemma_issue_push(before, issue);
                                assert(entry_keys(name@, k, v) =~= Seq::<Seq<char>>::empty());
                                assert(issues_view(issues@) =~= table_problems(name@, ev.take(i + 1)));
                                assert(binding_entries(name@, mode, bindings@) =~= table_entries(
                                    name@,
                                    mode,
                                    ev.take(i + 1),
                                ));
                                assert(binding_pairs(bindings@) =~= table_binding_list(name@, ev.take(i + 1)));
                            }
                        } else {
                            let ghost ks = keys@;
                            let b = CanvasKeybindingPresetBinding { action, keys };
                            bindings.push(b);
                            proof {
                                lemma_name_round_trip(k);
                                assert(action_name(action) == k);
                                lemma_key_entries_words(name@, mode, action, ks, string_list(v)->0);
                                assert(bindings@.drop_last() =~= bbefore);
                                assert(issues_view(issues@) =~= table_problems(name@, ev.take(i + 1)));
                                assert(binding_entries(name@, mode, bindings@) =~= table_entries(
                                    name@,
                                    mode,
                                    ev.take(i + 1),
                                ));
                                assert(ks.map_values(|s: String| s@) =~= string_list(v)->0);
                                assert(binding_pairs(bindings@) =~= table_binding_list(name@, ev.take(i + 1)));
                            }
                        }
                    },
                }
            }
        }
        i += 1;
    }
    proof {
        assert(ev.take(ev.len() as int) =~= ev);
    }
    (bindings, issues)
}

impl CanvasKeybindingPreset {
    /// Reads a preset from a document: refused when the root is no table;
    /// otherwise each table of the root is a section (see `table_issues` for
    /// the problems found on the way), and the preset is refused with every
    /// problem found, then those the check finds among its bindings, when
    /// there are any.
    pub fn from_document(doc: &PresetDocument) -> (res: Result<Self, CanvasKeybindingPresetError>)
        ensures
            document_issues(document_view(*doc)).len() == 0 <==> res is Ok,
            res matches Err(e) ==> (e matches CanvasKeybindingPresetError::Issues(v) && issues_view(v@)
                == document_issues(document_view(*doc))),
            res matches Ok(p) ==> read_from(p, document_view(*doc)->0),
            res matches Ok(p) ==> all_bindings_known(p),
    {
        let tables = match &doc.root {
            None => {
                let mut v: Vec<CanvasKeybindingPresetIssue> = Vec::new();
                let issue = CanvasKeybindingPresetIssue::RootNotTable;
                v.push(issue);
                proof {
                    lemma_issue_push(Seq::<CanvasKeybindingPresetIssue>::empty(), issue);
                    assert(Seq::<CanvasKeybindingPresetIssue>::empty().push(issue) =~= v@);
                    assert(issues_view(Seq::<CanvasKeybindingPresetIssue>::empty()) =~= Seq::<IssueView>::empty());
                }
                return Err(CanvasKeybindingPresetError::Issues(v));
            },
            Some(t) => t,
        };
        let ghost d = tables_view(tables@);
        let mut sections: Vec<CanvasKeybindingPresetSection> = Vec::new();
        let mut issues: Vec<CanvasKeybindingPresetIssue> = Vec::new();
        let mut i: usize = 0;
        proof {
            assert(d.take(0) =~= Seq::<(Seq<char>, Option<Seq<(Seq<char>, ValueView)>>)>::empty());
            assert(issues_view(issues@) =~= Seq::<IssueView>::empty());
            assert(section_entries(sections@) =~= Seq::<Entry>::empty());
        }
        while i < tables.len()
            invariant
                d == tables_view(tables@),
                i <= tables@.len(),
                issues_view(issues@) == document_problems(d.take(i as int)),
                section_entries(sections@) == document_entries(d.take(i as int)),
                sections@.len() == document_sections(d.take(i as int)).len(),
                forall|j: int|
                    0 <= j < sections@.len() ==> (#[trigger] sections@[j]).name@ == document_sections(
                        d.take(i as int),
                    )[j].0 && sections@[j].mode == document_sections(d.take(i as int))[j].1,
                document_section_bindings(d.take(i as int)).len() == sections@.len(),
                forall|j: int|
                    0 <= j < sections@.len() ==> binding_pairs((#[trigger] sections@[j]).bindings@)
                        == document_section_bindings(d.take(i as int))[j],
            decreases tables@.len() - i,
        {
            let ghost before = issues@;
            let ghost sbefore = sections@;
            let name = &tables[i].0;
            let ghost t = table_view(tables@[i as int].1);
            proof {
                let tk = d.take(i + 1);
                assert(tk.drop_last() =~= d.take(i as int));
                assert(tk.last() == (name@, t));
            }
            match &tables[i].1 {
                None => {
                    let issue = CanvasKeybindingPresetIssue::SectionNotTable { section: copy_string(name) };
                    issues.push(issue);
                    proof {
                        lemma_issue_push(before, issue);
                        assert(issues_view(issues@) =~= document_problems(d.take(i + 1)));
                        assert(section_entries(sections@) =~= document_entries(d.take(i + 1)));
                        assert(document_sections(d.take(i + 1)) == document_sections(d.take(i as int)));
                        assert(document_section_bindings(d.take(i + 1)) == document_section_bindings(d.take(i as int)));
                    }
                },
                Some(es) => {
                    let (mode_name, mode_bad) = table_mode_exec(name, es);
                    let ghost mid = issues@;
                    if mode_bad {
                        let issue = CanvasKeybindingPresetIssue::ModeNotString { section: copy_string(name) };
                        issues.push(issue);
                        proof {
                            lemma_issue_push(before, issue);
                        }
                    }
                    proof {
                        assert(issues_view(issues@) =~= issues_view(before) + mode_issues(name@, entries_view(es@)));
                    }
                    match mode_from_name_exec(mode_name.as_str()) {
                        None => {
                            let ghost mid2 = issues@;
                            let issue = CanvasKeybindingPresetIssue::UnknownMode {
                                section: copy_string(name),
                                mode: mode_name,
                            };
                            issues.push(issue);
                            proof {
                                lemma_issue_push(mid2, issue);
                                assert(issues_view(issues@) =~= document_problems(d.take(i + 1)));
                                assert(section_entries(sections@) =~= document_entries(d.take(i + 1)));
                                assert(document_sections(d.take(i + 1)) == document_sections(d.take(i as int)));
                                assert(document_section_bindings(d.take(i + 1)) == document_section_bindings(
                                    d.take(i as int),
                                ));
                            }
                        },
                        Some(m) => {
                            let (bindings, more) = read_table(name, m, es);
                            let ghost mid2 = issues@;
                            let mut more = more;
                            let ghost mv = more@;
                            issues.append(&mut more);
                            let sec = CanvasKeybindingPresetSection { name: copy_string(name), mode: m, bindings };
                            sections.push(sec);
                            proof {
                                assert(issues@ =~= mid2 + mv);
                                crate::keybindings::preset::lemma_issues_append(mid2, mv);
                                assert(issues_view(issues@) =~= document_problems(d.take(i + 1)));
                                lemma_section_entries_push(sbefore, sec);
                                assert(section_entries(sections@) =~= document_entries(d.take(i + 1)));
                                assert(document_sections(d.take(i + 1)) == document_sections(d.take(i as int)).push(
                                    (name@, m),
                                ));
                                assert forall|j: int| 0 <= j < sections@.len() implies (
                                #[trigger] sections@[j]).name@ == document_sections(d.take(i + 1))[j].0
                                    && sections@[j].mode == document_sections(d.take(i + 1))[j].1 by {
                                    if j < sbefore.len() {
                                        assert(sections@[j] == sbefore[j]);
                                    }
                                }
                                assert(document_section_bindings(d.take(i + 1)) == document_section_bindings(
                                    d.take(i as int),
                                ).push(table_binding_list(name@, entries_view(es@))));
                                assert forall|j: int| 0 <= j < sections@.len() implies binding_pairs(
                                    (#[trigger] sections@[j]).bindings@,
                                ) == document_section_bindings(d.take(i + 1))[j] by {
                                    if j < sbefore.len() {
                                        assert(sections@[j] == sbefore[j]);
                                    }
                                }
                            }
                        },
                    }
                },
            }
            i += 1;
        }
        proof {
            assert(d.take(d.len() as int) =~= d);
            lemma_document_bindings_known(d);
            assert forall|i: int, j: int|
                0 <= i < sections@.len() && 0 <= j < sections@[i].bindings@.len() implies {
                &&& !((#[trigger] sections@[i].bindings@[j]).action is Unknown)
                &&& sections@[i].bindings@[j].keys@.len() > 0
            } by {
                let pr = binding_pairs(sections@[i].bindings@);
                assert(pr == document_section_bindings(d)[i]);
                assert(pr[j] == document_section_bindings(d)[i][j]);
            }
        }
        Self::validated(sections, issues)
    }

    /// Reads a preset from TOML text: refused with the parser's error when
    /// the text is not valid TOML; otherwise as `from_document` reads the
    /// document the text holds.
    pub fn from_toml(source: &str) -> (res: Result<Self, CanvasKeybindingPresetError>)
        ensures
            toml_document(source@) is None ==> res matches Err(CanvasKeybindingPresetError::Toml(_)),
            toml_document(source@) matches Some(root) ==> {
                &&& document_issues(root).len() == 0 <==> res is Ok
                &&& res matches Err(e) ==> (e matches CanvasKeybindingPresetError::Issues(v) && issues_view(v@)
                    == document_issues(root))
                &&& res matches Ok(p) ==> read_from(p, root->0)
                &&& res matches Ok(p) ==> all_bindings_known(p)
            },
    {
        match read_document(source) {
            Ok(doc) => Self::from_document(&doc),
            Err(e) => Err(CanvasKeybindingPresetError::Toml(e)),
        }
    }
}

} // verus!
