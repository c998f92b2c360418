use canvas::keybindings::key_sequence::try_parse_binding;
use canvas::keybindings::preset::{
    CanvasKeybindingConflictKind, CanvasKeybindingPreset, CanvasKeybindingPresetError,
    CanvasKeybindingPresetIssue,
};
use canvas::keybindings::{
    CanvasKeyAction, CanvasKeyBindings, KeyCode, KeyModifiers, KeyStroke, ParseKeyError,
};
use canvas::keybindings::KeySequenceTracker;
use canvas::modes::AppMode;
use std::time::Instant;

fn map(entries: &[(&str, &[&str])]) -> Vec<(String, Vec<String>)> {
    entries
        .iter()
        .map(|(a, keys)| (a.to_string(), keys.iter().map(|k| k.to_string()).collect()))
        .collect()
}

fn keys(binding: &str) -> Vec<KeyStroke> {
    try_parse_binding(binding).unwrap()
}

fn issues(err: CanvasKeybindingPresetError) -> Vec<CanvasKeybindingPresetIssue> {
    let CanvasKeybindingPresetError::Issues(issues) = err else {
        panic!("expected issues");
    };
    issues
}

#[test]
fn strict_mode_maps_support_named_undo_and_redo() {
    let read_only = map(&[("undo", &["u"]), ("redo", &["ctrl+r"])]);

    let keybindings =
        CanvasKeyBindings::try_from_mode_maps(&read_only, &Vec::new(), &Vec::new()).unwrap();

    let undo = [KeyStroke {
        code: KeyCode::Char('u'),
        modifiers: KeyModifiers::empty(),
    }];
    let redo = [KeyStroke {
        code: KeyCode::Char('r'),
        modifiers: KeyModifiers::empty().with_ctrl(),
    }];

    assert_eq!(
        keybindings.lookup_action(AppMode::Nor, &undo).0,
        Some(&CanvasKeyAction::Undo)
    );
    assert_eq!(
        keybindings.lookup_action(AppMode::Nor, &redo).0,
        Some(&CanvasKeyAction::Redo)
    );
}

#[test]
fn runtime_remap_reports_prefix_conflicts() {
    let mut bindings = CanvasKeyBindings::default();
    bindings
        .bind(AppMode::Nor, CanvasKeyAction::Undo, "z u")
        .unwrap();
    let err = bindings
        .bind(AppMode::Nor, CanvasKeyAction::Redo, "z")
        .unwrap_err();

    let CanvasKeybindingPresetError::Issues(issues) = err else {
        panic!("expected issues");
    };
    assert!(issues.iter().any(|issue| matches!(
        issue,
        CanvasKeybindingPresetIssue::BindingConflict {
            kind: CanvasKeybindingConflictKind::PrefixOf,
            ..
        }
    )));
}

#[test]
fn runtime_remap_reports_extension_conflicts() {
    let mut bindings = CanvasKeyBindings::default();
    bindings
        .bind(AppMode::Nor, CanvasKeyAction::Undo, "z")
        .unwrap();
    let err = bindings
        .bind(AppMode::Nor, CanvasKeyAction::Redo, "z r")
        .unwrap_err();

    let CanvasKeybindingPresetError::Issues(issues) = err else {
        panic!("expected issues");
    };
    assert!(issues.iter().any(|issue| matches!(
        issue,
        CanvasKeybindingPresetIssue::BindingConflict {
            kind: CanvasKeybindingConflictKind::ExtensionOf,
            ..
        }
    )));
}

#[test]
fn runtime_mutation_rejects_unsupported_modes() {
    let mut bindings = CanvasKeyBindings::default();
    let err = bindings
        .bind(AppMode::Command, CanvasKeyAction::Undo, "u")
        .unwrap_err();

    let CanvasKeybindingPresetError::Issues(issues) = err else {
        panic!("expected issues");
    };
    assert!(issues.iter().any(|issue| matches!(
        issue,
        CanvasKeybindingPresetIssue::UnsupportedMode {
            mode: AppMode::Command
        }
    )));
}

#[test]
fn bound_keys_look_up_to_their_action_and_prefixes_wait() {
    let mut bindings = CanvasKeyBindings::default();
    bindings.bind(AppMode::Nor, CanvasKeyAction::MoveFirstLine, "g g").unwrap();
    bindings.bind(AppMode::Nor, CanvasKeyAction::MoveLeft, "Shift+h").unwrap();

    assert_eq!(
        bindings.lookup_action(AppMode::Nor, &keys("g g")),
        (Some(&CanvasKeyAction::MoveFirstLine), false)
    );
    assert_eq!(bindings.lookup_action(AppMode::Nor, &keys("g")), (None, true));
    assert_eq!(bindings.lookup_action(AppMode::Nor, &keys("x")), (None, false));
    assert_eq!(bindings.lookup_action(AppMode::Nor, &[]), (None, false));
    // Bound keys are normalized: shift with a letter is the upper-case letter.
    assert_eq!(
        bindings.lookup(AppMode::Nor, &keys("H")),
        (Some("move_left"), false)
    );
    // Other modes are untouched.
    assert_eq!(bindings.lookup_action(AppMode::Ins, &keys("g g")), (None, false));
    assert_eq!(bindings.lookup_action(AppMode::General, &keys("g g")), (None, false));
}

#[test]
fn bind_reports_unreadable_keys_and_exact_clashes() {
    let mut bindings = CanvasKeyBindings::default();
    let err = bindings.bind(AppMode::Ins, CanvasKeyAction::Undo, "ctrl+nokey").unwrap_err();
    let found = issues(err);
    assert_eq!(found.len(), 1);
    assert!(matches!(&found[0], CanvasKeybindingPresetIssue::InvalidBinding {
        section, action: CanvasKeyAction::Undo, binding, source: ParseKeyError::UnknownKey(token) }
        if section == "ins" && binding == "ctrl+nokey" && token == "ctrl+nokey"));

    bindings.bind(AppMode::Ins, CanvasKeyAction::Undo, "ctrl+z").unwrap();
    let err = bindings.bind(AppMode::Ins, CanvasKeyAction::Redo, "Control+z").unwrap_err();
    let found = issues(err);
    assert_eq!(found.len(), 1);
    assert!(matches!(&found[0], CanvasKeybindingPresetIssue::BindingConflict {
        section, mode: AppMode::Ins, action: CanvasKeyAction::Redo,
        existing_action: CanvasKeyAction::Undo, kind: CanvasKeybindingConflictKind::Exact, .. }
        if section == "ins"));
    assert_eq!(bindings.entries().len(), 1);
}

#[test]
fn unbind_returns_the_action_and_restores_the_bindings() {
    let mut bindings = CanvasKeyBindings::default();
    bindings.bind(AppMode::Sel, CanvasKeyAction::Undo, "u").unwrap();
    bindings.bind(AppMode::Sel, CanvasKeyAction::Redo, "ctrl+r").unwrap();
    assert_eq!(bindings.unbind(AppMode::Sel, "x").unwrap(), None);
    assert_eq!(bindings.unbind(AppMode::Sel, "ctrl+r").unwrap(), Some(CanvasKeyAction::Redo));
    assert_eq!(bindings.entries().len(), 1);
    assert_eq!(bindings.lookup_action(AppMode::Sel, &keys("ctrl+r")), (None, false));
    assert!(matches!(
        issues(bindings.unbind(AppMode::General, "u").unwrap_err())[0],
        CanvasKeybindingPresetIssue::UnsupportedMode { mode: AppMode::General }
    ));
    assert!(matches!(&issues(bindings.unbind(AppMode::Sel, "").unwrap_err())[0],
        CanvasKeybindingPresetIssue::InvalidBinding { action: CanvasKeyAction::Unknown(name),
        source: ParseKeyError::Empty, .. } if name == "<unbind>"));
}

#[test]
fn unbind_action_counts_removed_bindings() {
    let mut bindings = CanvasKeyBindings::default();
    bindings.bind(AppMode::Nor, CanvasKeyAction::MoveLeft, "h").unwrap();
    bindings.bind(AppMode::Nor, CanvasKeyAction::MoveRight, "l").unwrap();
    bindings.bind(AppMode::Nor, CanvasKeyAction::MoveLeft, "left").unwrap();
    assert_eq!(bindings.unbind_action(AppMode::Nor, &CanvasKeyAction::MoveLeft).unwrap(), 2);
    assert_eq!(bindings.unbind_action(AppMode::Nor, &CanvasKeyAction::MoveLeft).unwrap(), 0);
    assert_eq!(bindings.bindings_for(AppMode::Nor, &CanvasKeyAction::MoveRight), vec![keys("l")]);
    assert!(bindings.unbind_action(AppMode::Command, &CanvasKeyAction::MoveLeft).is_err());
}

#[test]
fn remap_action_replaces_bindings_after_the_others() {
    let mut bindings = CanvasKeyBindings::default();
    bindings.bind(AppMode::Nor, CanvasKeyAction::Undo, "u").unwrap();
    bindings.bind(AppMode::Nor, CanvasKeyAction::MoveDown, "j").unwrap();
    bindings
        .remap_action(
            AppMode::Nor,
            CanvasKeyAction::Undo,
            vec!["z u".to_string(), "Shift+z".to_string()],
        )
        .unwrap();
    assert_eq!(
        bindings.bindings_for(AppMode::Nor, &CanvasKeyAction::Undo),
        vec![keys("z u"), keys("Z")]
    );
    let entries = bindings.entries();
    assert_eq!(entries.len(), 3);
    assert_eq!(entries[0].action, CanvasKeyAction::MoveDown);
    assert_eq!(entries[1].action, CanvasKeyAction::Undo);
    assert_eq!(entries[1].mode, AppMode::Nor);
    assert_eq!(bindings.lookup_action(AppMode::Nor, &keys("u")), (None, false));
    assert_eq!(
        bindings.lookup_action(AppMode::Nor, &keys("Z")).0,
        Some(&CanvasKeyAction::Undo)
    );
    // Remapping to nothing removes the action's bindings.
    bindings.remap_action(AppMode::Nor, CanvasKeyAction::Undo, Vec::new()).unwrap();
    assert!(bindings.bindings_for(AppMode::Nor, &CanvasKeyAction::Undo).is_empty());
}

#[test]
fn remap_action_refusals_leave_bindings_unchanged() {
    let mut bindings = CanvasKeyBindings::default();
    bindings.bind(AppMode::Nor, CanvasKeyAction::MoveDown, "j").unwrap();

    let dup = bindings
        .remap_action(AppMode::Nor, CanvasKeyAction::Undo, vec!["u".to_string(), "u".to_string()])
        .unwrap_err();
    assert!(matches!(&issues(dup)[0], CanvasKeybindingPresetIssue::BindingConflict {
        binding, existing_binding, kind: CanvasKeybindingConflictKind::Exact, .. }
        if binding == "u" && existing_binding == "u"));

    let pair = bindings
        .remap_action(AppMode::Nor, CanvasKeyAction::Undo, vec!["z".to_string(), "z u".to_string()])
        .unwrap_err();
    assert!(matches!(&issues(pair)[0], CanvasKeybindingPresetIssue::BindingConflict {
        binding, existing_binding, kind: CanvasKeybindingConflictKind::PrefixOf, .. }
        if binding == "z" && existing_binding == "z u"));

    let blocked = bindings
        .remap_action(AppMode::Nor, CanvasKeyAction::Undo, vec!["j k".to_string()])
        .unwrap_err();
    assert!(matches!(&issues(blocked)[0], CanvasKeybindingPresetIssue::BindingConflict {
        existing_action: CanvasKeyAction::MoveDown, kind: CanvasKeybindingConflictKind::ExtensionOf, .. }));

    let mode = bindings
        .remap_action(AppMode::General, CanvasKeyAction::Undo, vec!["u".to_string()])
        .unwrap_err();
    assert!(matches!(&issues(mode)[0], CanvasKeybindingPresetIssue::UnsupportedMode { .. }));

    let unreadable = bindings
        .remap_action(AppMode::Nor, CanvasKeyAction::Undo, vec!["".to_string()])
        .unwrap_err();
    assert!(matches!(&issues(unreadable)[0], CanvasKeybindingPresetIssue::InvalidBinding { .. }));

    assert_eq!(bindings.entries().len(), 1);
    assert_eq!(bindings.lookup_action(AppMode::Nor, &keys("j")).0, Some(&CanvasKeyAction::MoveDown));
}

#[test]
fn lenient_mode_maps_skip_unreadable_keys_and_keep_unknown_names() {
    let ro = map(&[("move_left", &["h", "ctrl+nokey"]), ("my_action", &["m"])]);
    let bindings = CanvasKeyBindings::from_mode_maps(&ro, &Vec::new(), &Vec::new());
    let entries = bindings.entries();
    assert_eq!(entries.len(), 2);
    assert_eq!(entries[0].action, CanvasKeyAction::MoveLeft);
    assert_eq!(entries[1].action, CanvasKeyAction::Unknown("my_action".to_string()));
    assert_eq!(bindings.lookup(AppMode::Nor, &keys("m")), (Some("my_action"), false));
}

#[test]
fn strict_mode_maps_and_presets_refuse_problems() {
    let ro = map(&[("undo", &["u"]), ("redo", &["u"])]);
    assert!(CanvasKeyBindings::try_from_mode_maps(&ro, &Vec::new(), &Vec::new()).is_err());

    let ed = map(&[("exit_edit_mode", &["esc"])]);
    let preset = CanvasKeybindingPreset::from_mode_maps(&Vec::new(), &ed, &Vec::new()).unwrap();
    let bindings = CanvasKeyBindings::from_preset(&preset);
    assert_eq!(
        bindings.lookup_action(AppMode::Ins, &keys("esc")).0,
        Some(&CanvasKeyAction::ExitEditMode)
    );
    assert!(CanvasKeyBindings::try_from_preset(&preset).is_ok());
}

#[test]
fn refusals_describe_themselves() {
    assert_eq!(ParseKeyError::Empty.message(), "empty key binding");
    assert_eq!(
        ParseKeyError::UnknownKey("q\"x".to_string()).message(),
        "unrecognised key token: \"q\\\"x\""
    );

    let mut bindings = CanvasKeyBindings::default();
    bindings.bind(AppMode::Nor, CanvasKeyAction::Undo, "z u").unwrap();
    let err = bindings.bind(AppMode::Nor, CanvasKeyAction::Redo, "z").unwrap_err();
    assert_eq!(
        err.message(),
        "1 canvas keybinding preset issue(s); binding \"z\" for redo in mode Nor, section \"nor\" is a prefix of \"z u\" for undo"
    );

    let err = bindings.bind(AppMode::Command, CanvasKeyAction::Undo, "u").unwrap_err();
    assert_eq!(
        issues(err)[0].message(),
        "canvas keybindings do not support runtime storage for mode Command"
    );

    let err = bindings.bind(AppMode::Ins, CanvasKeyAction::Undo, "").unwrap_err();
    assert_eq!(
        issues(err)[0].message(),
        "invalid binding \"\" for undo in section \"ins\": empty key binding"
    );

    let many: Vec<CanvasKeybindingPresetIssue> = Vec::new();
    assert_eq!(
        CanvasKeybindingPresetError::Issues(many).message(),
        "0 canvas keybinding preset issue(s)"
    );
    let unknown = CanvasKeybindingPresetError::UnknownSection { section: "gen".to_string() };
    assert_eq!(unknown.message(), "unknown canvas keybinding section \"gen\"");
}

#[test]
fn tracker_keeps_normalized_keys_until_a_pause() {
    let mut tracker = KeySequenceTracker::new(60_000);
    assert!(tracker.sequence().is_empty());
    tracker.add_key(KeyStroke { code: KeyCode::Char('g'), modifiers: KeyModifiers::empty() });
    tracker.add_key(KeyStroke { code: KeyCode::Char('h'), modifiers: KeyModifiers::empty().with_shift() });
    assert_eq!(tracker.sequence().to_vec(), keys("g H"));
    assert!(!tracker.timed_out(60_000_000_000));
    assert!(tracker.timed_out(60_000_000_001));
    tracker.add_key_after(
        KeyStroke { code: KeyCode::Char('x'), modifiers: KeyModifiers::empty() },
        true,
        Instant::now(),
    );
    assert_eq!(tracker.sequence().to_vec(), keys("x"));
    tracker.reset();
    assert!(tracker.sequence().is_empty());
}
