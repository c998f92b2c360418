use canvas::keybindings::key_sequence::{
    display_binding, normalize_binding, parse_binding, try_parse_binding, try_parse_key,
};
use canvas::keybindings::{KeyCode, KeyModifiers, KeyStroke, ParseKeyError};

fn stroke(code: KeyCode, modifiers: KeyModifiers) -> KeyStroke {
    KeyStroke { code, modifiers }
}

fn none() -> KeyModifiers {
    KeyModifiers::empty()
}

#[test]
fn parses_named_keys_aliases_and_modifiers() {
    assert_eq!(
        try_parse_binding("ctrl+r").unwrap(),
        vec![stroke(KeyCode::Char('r'), none().with_ctrl())]
    );
    assert_eq!(
        try_parse_binding("shift+tab").unwrap(),
        vec![stroke(KeyCode::BackTab, none())]
    );
    assert_eq!(
        try_parse_binding("escape return space f12 page_down ins").unwrap(),
        vec![
            stroke(KeyCode::Esc, none()),
            stroke(KeyCode::Enter, none()),
            stroke(KeyCode::Char(' '), none()),
            stroke(KeyCode::F(12), none()),
            stroke(KeyCode::PageDown, none()),
            stroke(KeyCode::Insert, none()),
        ]
    );
}

#[test]
fn preserves_compact_vim_sequences_and_uppercase_chars() {
    assert_eq!(
        try_parse_binding("gg gE G").unwrap(),
        vec![
            stroke(KeyCode::Char('g'), none()),
            stroke(KeyCode::Char('g'), none()),
            stroke(KeyCode::Char('g'), none()),
            stroke(KeyCode::Char('E'), none()),
            stroke(KeyCode::Char('G'), none()),
        ]
    );
}

#[test]
fn reports_modifier_typos_as_whole_token() {
    assert_eq!(
        try_parse_binding("ctrl+shft+j"),
        Err(ParseKeyError::UnknownKey("ctrl+shft+j".to_string()))
    );
    assert_eq!(
        try_parse_binding("ctrl+notakey"),
        Err(ParseKeyError::UnknownKey("ctrl+notakey".to_string()))
    );
}

#[test]
fn display_binding_round_trips_to_normalized_sequence() {
    let cases = vec![
        vec![stroke(KeyCode::Char('u'), none())],
        vec![stroke(KeyCode::Char('r'), none().with_ctrl())],
        vec![stroke(KeyCode::Char('a'), none().with_shift())],
        vec![stroke(KeyCode::Tab, none().with_shift())],
        vec![stroke(KeyCode::BackTab, none().with_shift())],
        vec![stroke(KeyCode::Char(' '), none())],
        vec![stroke(KeyCode::F(12), none())],
        vec![
            stroke(KeyCode::Char('g'), none()),
            stroke(KeyCode::Char('g'), none()),
        ],
        vec![
            stroke(KeyCode::Char('z'), none()),
            stroke(KeyCode::Char('u'), none()),
        ],
        vec![stroke(KeyCode::PageDown, none().with_alt())],
        vec![stroke(KeyCode::Insert, none().with_super())],
    ];

    for case in cases {
        let displayed = display_binding(&case);
        assert_eq!(
            try_parse_binding(&displayed).unwrap(),
            normalize_binding(&case)
        );
    }
}

#[test]
fn empty_and_blank_bindings_are_errors() {
    assert_eq!(try_parse_binding(""), Err(ParseKeyError::Empty));
    assert_eq!(try_parse_binding("   "), Err(ParseKeyError::Empty));
    assert_eq!(try_parse_key("  "), Err(ParseKeyError::Empty));
    assert_eq!(parse_binding("ctrl+"), None);
}

#[test]
fn plus_joined_chords_and_modifier_aliases() {
    assert_eq!(
        try_parse_binding("a+b").unwrap(),
        vec![stroke(KeyCode::Char('a'), none()), stroke(KeyCode::Char('b'), none())]
    );
    assert_eq!(
        try_parse_key("C+M+x").unwrap(),
        stroke(KeyCode::Char('x'), none().with_ctrl().with_alt())
    );
    assert_eq!(
        try_parse_key("cmd+Shift+q").unwrap(),
        stroke(KeyCode::Char('Q'), none().with_super())
    );
    assert_eq!(try_parse_key("f255").unwrap(), stroke(KeyCode::F(255), none()));
    assert_eq!(
        try_parse_key("f256"),
        Err(ParseKeyError::UnknownKey("f256".to_string()))
    );
    assert_eq!(try_parse_key("F").unwrap(), stroke(KeyCode::Char('F'), none()));
}

#[test]
fn display_writes_modifiers_in_order() {
    let k = stroke(KeyCode::Char('x'), none().with_super().with_alt().with_ctrl());
    assert_eq!(k.display_string(), "Ctrl+Alt+Super+x");
    assert_eq!(stroke(KeyCode::F(7), none()).display_string(), "F7");
    assert_eq!(stroke(KeyCode::F(120), none()).display_string(), "F120");
    assert_eq!(stroke(KeyCode::Tab, none().with_shift()).display_string(), "BackTab");
    assert_eq!(
        display_binding(&[stroke(KeyCode::Char('g'), none()), stroke(KeyCode::Char('g'), none())]),
        "g g"
    );
}
