//! The messages that describe why a binding or a preset was refused.
use vstd::prelude::*;

use crate::keybindings::action::{action_name, CanvasKeyAction};
use crate::keybindings::key_sequence::{digit_char, digit_exec, push_lit, ParseKeyError};
use crate::keybindings::preset::{
    CanvasKeybindingConflictKind, CanvasKeybindingPresetError, CanvasKeybindingPresetIssue,
};
use crate::modes::AppMode;
use crate::text::string_of;

verus! {

/// A string as Rust's debug formatting writes it: quoted, with escapes.
pub uninterp spec fn debug_quoted(s: Seq<char>) -> Seq<char>;

/// What the TOML parser says of an error (its `Display`); nothing is
/// claimed of the text.
#[verifier::external_body]
fn toml_error_text(e: &toml::de::Error) -> String {
    format!("{}", e)
}

/// The debug form of a string (`format!("{:?}", s)`).
#[verifier::external_body]
fn quoted(s: &str) -> (res: String)
    ensures
        res@ == debug_quoted(s@),
{
    format!("{:?}", s)
}

/// The name of a mode, as its debug form writes it.
pub open spec fn mode_debug(m: AppMode) -> Seq<char> {
    match m {
        AppMode::Nor => "Nor"@,
        AppMode::Ins => "Ins"@,
        AppMode::Sel => "Sel"@,
        AppMode::General => "General"@,
        AppMode::Command => "Command"@,
    }
}

/// The decimal digits of `n`.
pub open spec fn digits(n: nat) -> Seq<char>
    decreases n,
{
    if n < 10 {
        seq![digit_char(n as int)]
    } else {
        digits(n / 10).push(digit_char((n % 10) as int))
    }
}

/// What a read error says.
pub open spec fn parse_error_message(e: ParseKeyError) -> Seq<char> {
    match e {
        ParseKeyError::Empty => "empty key binding"@,
        ParseKeyError::UnknownKey(t) => "unrecognised key token: "@ + debug_quoted(t@),
    }
}

/// How a clash is described.
pub open spec fn relationship(k: CanvasKeybindingConflictKind) -> Seq<char> {
    match k {
        CanvasKeybindingConflictKind::Exact => "is already bound as"@,
        CanvasKeybindingConflictKind::PrefixOf => "is a prefix of"@,
        CanvasKeybindingConflictKind::ExtensionOf => "extends"@,
    }
}

/// What an issue says.
pub open spec fn issue_message(i: CanvasKeybindingPresetIssue) -> Seq<char> {
    match i {
        CanvasKeybindingPresetIssue::RootNotTable => "canvas keybinding preset must be a TOML table"@,
        CanvasKeybindingPresetIssue::SectionNotTable { section } => "canvas keybinding section "@ + debug_quoted(
            section@,
        ) + " must be a table"@,
        CanvasKeybindingPresetIssue::ModeNotString { section } => "canvas keybinding section "@ + debug_quoted(
            section@,
        ) + " has a non-string mode"@,
        CanvasKeybindingPresetIssue::UnknownMode { section, mode } => "unknown canvas mode "@ + debug_quoted(mode@)
            + " in section "@ + debug_quoted(section@),
        CanvasKeybindingPresetIssue::UnknownAction { section, action } => "unknown canvas key action "@
            + debug_quoted(action@) + " in section "@ + debug_quoted(section@),
        CanvasKeybindingPresetIssue::BindingsNotStringList { section, action } => "bindings for action "@
            + debug_quoted(action@) + " in section "@ + debug_quoted(section@)
            + " must be a string or string list"@,
        CanvasKeybindingPresetIssue::EmptyBindings { section, action } => "action "@ + debug_quoted(action@)
            + " in section "@ + debug_quoted(section@) + " has no bindings"@,
        CanvasKeybindingPresetIssue::InvalidBinding { section, action, binding, source } => "invalid binding "@
            + debug_quoted(binding@) + " for "@ + action_name(action) + " in section "@ + debug_quoted(section@)
            + ": "@ + parse_error_message(source),
        CanvasKeybindingPresetIssue::DuplicateBinding { section, mode, binding, first_action, second_action } =>
            "binding "@ + debug_quoted(binding@) + " in mode "@ + mode_debug(mode) + ", section "@ + debug_quoted(
            section@,
        ) + " is assigned to both "@ + action_name(first_action) + " and "@ + action_name(second_action),
        CanvasKeybindingPresetIssue::BindingConflict {
            section,
            mode,
            binding,
            action,
            existing_binding,
            existing_action,
            kind,
        } => "binding "@ + debug_quoted(binding@) + " for "@ + action_name(action) + " in mode "@ + mode_debug(mode)
            + ", section "@ + debug_quoted(section@) + " "@ + relationship(kind) + " "@ + debug_quoted(
            existing_binding@,
        ) + " for "@ + action_name(existing_action),
        CanvasKeybindingPresetIssue::UnsupportedMode { mode } =>
            "canvas keybindings do not support runtime storage for mode "@ + mode_debug(mode),
    }
}

/// The messages of `issues`, each after "; ".
pub open spec fn issues_message(issues: Seq<CanvasKeybindingPresetIssue>) -> Seq<char>
    decreases issues.len(),
{
    if issues.len() == 0 {
        Seq::empty()
    } else {
        issues_message(issues.drop_last()) + "; "@ + issue_message(issues.last())
    }
}

/// What a refusal says: how many issues, then each issue; or the unknown
/// section; for text that is not valid TOML, what follows this start is the
/// parser's own description.
pub open spec fn error_message(e: CanvasKeybindingPresetError) -> Seq<char> {
    match e {
        CanvasKeybindingPresetError::Toml(_) => "invalid TOML: "@,
        CanvasKeybindingPresetError::Issues(v) => digits(v@.len()) + " canvas keybinding preset issue(s)"@
            + issues_message(v@),
        CanvasKeybindingPresetError::UnknownSection { section } => "unknown canvas keybinding section "@
            + debug_quoted(section@),
    }
}

/// Appends the decimal digits of `n`.
fn push_digits(out: &mut Vec<char>, n: usize)
    ensures
        final(out)@ == old(out)@ + digits(n as nat),
    decreases n,
{
    if n >= 10 {
        push_digits(out, n / 10);
    }
    let d = (n % 10) as u8;
    out.push(digit_exec(d));
    proof {
        if n < 10 {
            assert(out@ =~= old(out)@ + digits(n as nat));
        } else {
            assert(out@ =~= old(out)@ + digits(n as nat));
        }
    }
}

/// Appends the debug form of `s`.
fn push_quoted(out: &mut Vec<char>, s: &str)
    ensures
        final(out)@ == old(out)@ + debug_quoted(s@),
{
    let q = quoted(s);
    push_lit(out, q.as_str());
}

/// Appends the name of a mode.
fn push_mode(out: &mut Vec<char>, m: AppMode)
    ensures
        final(out)@ == old(out)@ + mode_debug(m),
{
    match m {
        AppMode::Nor => push_lit(out, "Nor"),
        AppMode::Ins => push_lit(out, "Ins"),
        AppMode::Sel => push_lit(out, "Sel"),
        AppMode::General => push_lit(out, "General"),
        AppMode::Command => push_lit(out, "Command"),
    }
}

/// Appends the name of an action.
fn push_action(out: &mut Vec<char>, a: &CanvasKeyAction)
    ensures
        final(out)@ == old(out)@ + action_name(*a),
{
    push_lit(out, a.as_str());
}

/// Appends what a read error says.
fn push_parse_error(out: &mut Vec<char>, e: &ParseKeyError)
    ensures
        final(out)@ == old(out)@ + parse_error_message(*e),
{
    match e {
        ParseKeyError::Empty => push_lit(out, "empty key binding"),
        ParseKeyError::UnknownKey(t) => {
            let ghost o = out@;
            push_lit(out, "unrecognised key token: ");
            push_quoted(out, t.as_str());
            proof {
                assert(out@ =~= o + parse_error_message(*e));
            }
        },
    }
}

/// The characters of what an issue says.
fn issue_chars(i: &CanvasKeybindingPresetIssue) -> (res: Vec<char>)
    ensures
        res@ == issue_message(*i),
{
    let mut out: Vec<char> = Vec::new();
    match i {
        CanvasKeybindingPresetIssue::RootNotTable => {
            push_lit(&mut out, "canvas keybinding preset must be a TOML table");
            proof {
                assert(out@ =~= issue_message(*i));
            }
        },
        CanvasKeybindingPresetIssue::SectionNotTable { section } => {
            push_lit(&mut out, "canvas keybinding section ");
            proof {
                assert(out@ =~= "canvas keybinding section "@);
            }
            push_quoted(&mut out, section.as_str());
            push_lit(&mut out, " must be a table");
        },
        CanvasKeybindingPresetIssue::ModeNotString { section } => {
            push_lit(&mut out, "canvas keybinding section ");
            proof {
                assert(out@ =~= "canvas keybinding section "@);
            }
            push_quoted(&mut out, section.as_str());
            push_lit(&mut out, " has a non-string mode");
        },
        CanvasKeybindingPresetIssue::UnknownMode { section, mode } => {
            push_lit(&mut out, "unknown canvas mode ");
            proof {
                assert(out@ =~= "unknown canvas mode "@);
            }
            push_quoted(&mut out, mode.as_str());
            push_lit(&mut out, " in section ");
            push_quoted(&mut out, section.as_str());
        },
        CanvasKeybindingPresetIssue::UnknownAction { section, action } => {
            push_lit(&mut out, "unknown canvas key action ");
            proof {
                assert(out@ =~= "unknown canvas key action "@);
            }
            push_quoted(&mut out, action.as_str());
            push_lit(&mut out, " in section ");
            push_quoted(&mut out, section.as_str());
        },
        CanvasKeybindingPresetIssue::BindingsNotStringList { section, action } => {
            push_lit(&mut out, "bindings for action ");
            proof {
                assert(out@ =~= "bindings for action "@);
            }
            push_quoted(&mut out, action.as_str());
            push_lit(&mut out, " in section ");
            push_quoted(&mut out, section.as_str());
            push_lit(&mut out, " must be a string or string list");
        },
        CanvasKeybindingPresetIssue::EmptyBindings { section, action } => {
            push_lit(&mut out, "action ");
            proof {
                assert(out@ =~= "action "@);
            }
            push_quoted(&mut out, action.as_str());
            push_lit(&mut out, " in section ");
            push_quoted(&mut out, section.as_str());
            push_lit(&mut out, " has no bindings");
        },
        CanvasKeybindingPresetIssue::InvalidBinding { section, action, binding, source } => {
            push_lit(&mut out, "invalid binding ");
            proof {
                assert(out@ =~= "invalid binding "@);
            }
            push_quoted(&mut out, binding.as_str());
            push_lit(&mut out, " for ");
            push_action(&mut out, action);
            push_lit(&mut out, " in section ");
            push_quoted(&mut out, section.as_str());
            push_lit(&mut out, ": ");
            let m = parse_error_chars(source);
            push_all(&mut out, &m);
        },
        CanvasKeybindingPresetIssue::DuplicateBinding { section, mode, binding, first_action, second_action } => {
            push_lit(&mut out, "binding ");
            proof {
                assert(out@ =~= "binding "@);
            }
            push_quoted(&mut out, binding.as_str());
            push_lit(&mut out, " in mode ");
            push_mode(&mut out, *mode);
            push_lit(&mut out, ", section ");
            push_quoted(&mut out, section.as_str());
            push_lit(&mut out, " is assigned to both ");
            push_action(&mut out, first_action);
            push_lit(&mut out, " and ");
            push_action(&mut out, second_action);
        },
        CanvasKeybindingPresetIssue::BindingConflict {
            section,
            mode,
            binding,
            action,
            existing_binding,
            existing_action,
            kind,
        } => {
            push_lit(&mut out, "binding ");
            proof {
                assert(out@ =~= "binding "@);
            }
            push_quoted(&mut out, binding.as_str());
            push_lit(&mut out, " for ");
            push_action(&mut out, action);
            push_lit(&mut out, " in mode ");
            push_mode(&mut out, *mode);
            push_lit(&mut out, ", section ");
            push_quoted(&mut out, section.as_str());
            push_lit(&mut out, " ");
            push_relationship(&mut out, *kind);
            push_lit(&mut out, " ");
            push_quoted(&mut out, existing_binding.as_str());
            push_lit(&mut out, " for ");
            push_action(&mut out, existing_action);
        },
        CanvasKeybindingPresetIssue::UnsupportedMode { mode } => {
            push_lit(&mut out, "canvas keybindings do not support runtime storage for mode ");
            proof {
                assert(out@ =~= "canvas keybindings do not support runtime storage for mode "@);
            }
            push_mode(&mut out, *mode);
        },
    }
    out
}

/// Appends how a clash is described.
fn push_relationship(out: &mut Vec<char>, k: CanvasKeybindingConflictKind)
    ensures
        final(out)@ == old(out)@ + relationship(k),
{
    match k {
        CanvasKeybindingConflictKind::Exact => push_lit(out, "is already bound as"),
        CanvasKeybindingConflictKind::PrefixOf => push_lit(out, "is a prefix of"),
        CanvasKeybindingConflictKind::ExtensionOf => push_lit(out, "extends"),
    }
}

/// The characters of what a read error says.
fn parse_error_chars(e: &ParseKeyError) -> (res: Vec<char>)
    ensures
        res@ == parse_error_message(*e),
{
    let mut out: Vec<char> = Vec::new();
    push_parse_error(&mut out, e);
    proof {
        assert(out@ =~= parse_error_message(*e));
    }
    out
}

/// Appends all of `more`.
fn push_all(out: &mut Vec<char>, more: &Vec<char>)
    ensures
        final(out)@ == old(out)@ + more@,
{
    let mut i: usize = 0;
    while i < more.len()
        invariant
            i <= more@.len(),
            out@ == old(out)@ + more@.take(i as int),
        decreases more@.len() - i,
    {
        out.push(more[i]);
        i += 1;
        proof {
            assert(out@ =~= old(out)@ + more@.take(i as int));
        }
    }
    proof {
        assert(more@.take(more@.len() as int) =~= more@);
    }
}

impl ParseKeyError {
    /// What the error says.
    pub fn message(&self) -> (res: String)
        ensures
            res@ == parse_error_message(*self),
    {
        let mut out: Vec<char> = Vec::new();
        push_parse_error(&mut out, self);
        proof {
            assert(out@ =~= parse_error_message(*self));
        }
        string_of(out.as_slice())
    }
}

impl CanvasKeybindingPresetIssue {
    /// What the issue says.
    pub fn message(&self) -> (res: String)
        ensures
            res@ == issue_message(*self),
    {
        let out = issue_chars(self);
        string_of(out.as_slice())
    }
}

impl CanvasKeybindingPresetError {
    /// What the refusal says; for text that is not valid TOML, the start
    /// of the message and then the parser's description.
    pub fn message(&self) -> (res: String)
        ensures
            !(*self is Toml) ==> res@ == error_message(*self),
            *self is Toml ==> res@.len() >= error_message(*self).len() && res@.take(
                error_message(*self).len() as int,
            ) == error_message(*self),
    {
        let mut out: Vec<char> = Vec::new();
        match self {
            CanvasKeybindingPresetError::Issues(v) => {
                push_digits(&mut out, v.len());
                push_lit(&mut out, " canvas keybinding preset issue(s)");
                let ghost head = out@;
                let mut i: usize = 0;
                proof {
                    assert(v@.take(0) =~= Seq::<CanvasKeybindingPresetIssue>::empty());
                    assert(out@ =~= head + issues_message(v@.take(0)));
                }
                while i < v.len()
                    invariant
                        i <= v@.len(),
                        out@ == head + issues_message(v@.take(i as int)),
                    decreases v@.len() - i,
                {
                    let ghost before = out@;
                    push_lit(&mut out, "; ");
                    let m = issue_chars(&v[i]);
                    push_all(&mut out, &m);
                    proof {
                        let t = v@.take(i + 1);
                        assert(t.drop_last() =~= v@.take(i as int));
                        assert(t.last() == v@[i as int]);
                        assert(out@ =~= head + issues_message(t));
                    }
                    i += 1;
                }
                proof {
                    assert(v@.take(v@.len() as int) =~= v@);
                }
            },
            CanvasKeybindingPresetError::UnknownSection { section } => {
                push_lit(&mut out, "unknown canvas keybinding section ");
                push_quoted(&mut out, section.as_str());
            },
            CanvasKeybindingPresetError::Toml(e) => {
                push_lit(&mut out, "invalid TOML: ");
                let ghost head = out@;
                let t = toml_error_text(e);
                push_lit(&mut out, t.as_str());
                proof {
                    assert(head =~= error_message(*self));
                    assert(out@.take(head.len() as int) =~= head);
                }
                return string_of(out.as_slice());
            },
        }
        proof {
            assert(out@ =~= error_message(*self));
        }
        string_of(out.as_slice())
    }
}

} // verus!
