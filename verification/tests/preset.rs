use canvas::keybindings::preset::{
    CanvasKeybindingConflictKind, CanvasKeybindingPreset, CanvasKeybindingPresetBinding,
    CanvasKeybindingPresetError, CanvasKeybindingPresetIssue, CanvasKeybindingPresetSection,
};
use canvas::keybindings::{CanvasKeyAction, ParseKeyError};
use canvas::modes::AppMode;

fn map(entries: &[(&str, &[&str])]) -> Vec<(String, Vec<String>)> {
    entries
        .iter()
        .map(|(a, keys)| (a.to_string(), keys.iter().map(|k| k.to_string()).collect()))
        .collect()
}

#[test]
fn mode_maps_report_every_problem_in_order() {
    let ro = map(&[
        ("move_left", &["shift+tab"]),
        ("move_right", &["backtab"]),
        ("move_word_next", &["ctrl+notakey"]),
    ]);
    let ed = map(&[("unknown_action", &["x"]), ("move_down", &[])]);
    let hl = map(&[]);
    let err = CanvasKeybindingPreset::from_mode_maps(&ro, &ed, &hl).unwrap_err();
    let CanvasKeybindingPresetError::Issues(issues) = err else {
        panic!("expected validation issues");
    };
    assert_eq!(issues.len(), 5);
    assert!(matches!(&issues[0], CanvasKeybindingPresetIssue::UnknownAction { section, action }
        if section == "ins" && action == "unknown_action"));
    assert!(matches!(&issues[1], CanvasKeybindingPresetIssue::EmptyBindings { section, action }
        if section == "ins" && action == "move_down"));
    assert!(matches!(&issues[2], CanvasKeybindingPresetIssue::DuplicateBinding {
        section, mode: AppMode::Nor, binding, first_action: CanvasKeyAction::MoveLeft,
        second_action: CanvasKeyAction::MoveRight } if section == "nor" && binding == "backtab"));
    assert!(matches!(&issues[3], CanvasKeybindingPresetIssue::BindingConflict {
        binding, existing_binding, kind: CanvasKeybindingConflictKind::Exact, .. }
        if binding == "BackTab" && existing_binding == "shift+tab"));
    assert!(matches!(&issues[4], CanvasKeybindingPresetIssue::InvalidBinding {
        source: ParseKeyError::UnknownKey(token), .. } if token == "ctrl+notakey"));
}

#[test]
fn prefix_and_extension_conflicts_are_reported() {
    let ro = map(&[("undo", &["z u"]), ("redo", &["z"]), ("move_up", &["z u k"])]);
    let err = CanvasKeybindingPreset::from_mode_maps(&ro, &map(&[]), &map(&[])).unwrap_err();
    let CanvasKeybindingPresetError::Issues(issues) = err else {
        panic!("expected validation issues");
    };
    assert_eq!(issues.len(), 3);
    assert!(matches!(&issues[0], CanvasKeybindingPresetIssue::BindingConflict {
        kind: CanvasKeybindingConflictKind::PrefixOf, .. }));
    assert!(matches!(&issues[1], CanvasKeybindingPresetIssue::BindingConflict {
        kind: CanvasKeybindingConflictKind::ExtensionOf, existing_action: CanvasKeyAction::Undo, .. }));
    assert!(matches!(&issues[2], CanvasKeybindingPresetIssue::BindingConflict {
        kind: CanvasKeybindingConflictKind::ExtensionOf, existing_action: CanvasKeyAction::Redo, .. }));
}

#[test]
fn valid_maps_make_a_preset_with_three_sections() {
    let ro = map(&[("undo", &["u"]), ("redo", &["ctrl+r"])]);
    let ed = map(&[("exit_edit_mode", &["esc"])]);
    let hl = map(&[("exit_highlight_mode", &["esc"])]);
    let preset = CanvasKeybindingPreset::from_mode_maps(&ro, &ed, &hl).unwrap();
    assert_eq!(preset.sections().len(), 3);
    assert!(preset.validate().is_ok());
    assert!(preset.validation_issues().is_empty());
    let nor = preset.section("nor").unwrap();
    assert_eq!(nor.mode, AppMode::Nor);
    assert_eq!(nor.bindings.len(), 2);
    assert_eq!(nor.bindings[1].action, CanvasKeyAction::Redo);
    assert!(preset.section("general").is_none());
}

#[test]
fn same_keys_in_other_modes_do_not_clash() {
    let ro = map(&[("undo", &["u"])]);
    let ed = map(&[("redo", &["u"])]);
    assert!(CanvasKeybindingPreset::from_mode_maps(&ro, &ed, &map(&[])).is_ok());
}

#[test]
fn section_validation_checks_the_section_alone() {
    let section = CanvasKeybindingPresetSection {
        name: "nor".to_string(),
        mode: AppMode::Nor,
        bindings: vec![
            CanvasKeybindingPresetBinding {
                action: CanvasKeyAction::MoveLeft,
                keys: vec!["h".to_string(), "".to_string()],
            },
            CanvasKeybindingPresetBinding {
                action: CanvasKeyAction::MoveLeft,
                keys: vec!["h".to_string()],
            },
        ],
    };
    let issues = section.validation_issues();
    assert_eq!(issues.len(), 1);
    assert!(matches!(&issues[0], CanvasKeybindingPresetIssue::InvalidBinding {
        source: ParseKeyError::Empty, .. }));
    assert!(section.validate().is_err());
}

#[test]
fn reports_multiple_validation_issues_with_parse_source() {
    let err = CanvasKeybindingPreset::from_toml(
        r#"
            [normal]
            unknown_action = ["x"]
            move_left = ["shift+tab"]
            move_right = ["backtab"]
            move_up = 1
            move_down = []
            move_word_next = ["ctrl+notakey"]
            "#,
    )
    .unwrap_err();

    let CanvasKeybindingPresetError::Issues(issues) = err else {
        panic!("expected validation issues");
    };
    assert!(issues
        .iter()
        .any(|issue| matches!(issue, CanvasKeybindingPresetIssue::UnknownAction { .. })));
    assert!(issues.iter().any(|issue| {
        matches!(
            issue,
            CanvasKeybindingPresetIssue::BindingsNotStringList { .. }
        )
    }));
    assert!(issues
        .iter()
        .any(|issue| matches!(issue, CanvasKeybindingPresetIssue::EmptyBindings { .. })));
    assert!(issues.iter().any(|issue| {
        matches!(
            issue,
            CanvasKeybindingPresetIssue::InvalidBinding {
                source: ParseKeyError::UnknownKey(_),
                ..
            }
        )
    }));
    assert!(issues
        .iter()
        .any(|issue| matches!(issue, CanvasKeybindingPresetIssue::DuplicateBinding { .. })));
}

#[test]
fn toml_presets_read_sections_in_key_order_with_modes() {
    let preset = CanvasKeybindingPreset::from_toml(
        r#"
            [sel]
            exit_highlight_mode = "esc"

            [motions]
            mode = "normal"
            move_left = ["h", "left"]
            move_right = "l"
            "#,
    )
    .unwrap();
    let sections = preset.sections();
    assert_eq!(sections.len(), 2);
    assert_eq!(sections[0].name, "motions");
    assert_eq!(sections[0].mode, AppMode::Nor);
    assert_eq!(sections[0].bindings.len(), 2);
    assert_eq!(sections[0].bindings[0].action, CanvasKeyAction::MoveLeft);
    assert_eq!(sections[0].bindings[0].keys, vec!["h".to_string(), "left".to_string()]);
    assert_eq!(sections[1].name, "sel");
    assert_eq!(sections[1].mode, AppMode::Sel);
    assert_eq!(sections[1].bindings[0].keys, vec!["esc".to_string()]);
}

#[test]
fn toml_presets_report_tables_modes_and_syntax() {
    let err = CanvasKeybindingPreset::from_toml(
        r#"
            loose = 1

            [a]
            mode = 3

            [b]
            mode = "visual"
            "#,
    )
    .unwrap_err();
    let CanvasKeybindingPresetError::Issues(issues) = err else {
        panic!("expected validation issues");
    };
    assert_eq!(issues.len(), 4);
    assert!(matches!(&issues[0], CanvasKeybindingPresetIssue::ModeNotString { section } if section == "a"));
    assert!(matches!(&issues[1], CanvasKeybindingPresetIssue::UnknownMode { section, mode }
        if section == "a" && mode == "a"));
    assert!(matches!(&issues[2], CanvasKeybindingPresetIssue::UnknownMode { section, mode }
        if section == "b" && mode == "visual"));
    assert!(matches!(&issues[3], CanvasKeybindingPresetIssue::SectionNotTable { section }
        if section == "loose"));

    let err = CanvasKeybindingPreset::from_toml("[nor\nundo = 1").unwrap_err();
    assert!(matches!(err, CanvasKeybindingPresetError::Toml(_)));
    assert!(err.message().starts_with("invalid TOML: "));
}
