use rk::keys::{display, must_parse, parse, KeyCode, KeyEvent, KeyModifiers};

fn mods(control: bool, alt: bool, shift: bool) -> KeyModifiers {
    KeyModifiers { control, alt, shift }
}

#[test]
fn test_parse_nomod() {
    assert_eq!(
        parse("c"),
        Some(KeyEvent {
            code: KeyCode::Char('c'),
            modifiers: KeyModifiers::empty(),
        })
    );
    assert_eq!(
        parse("g"),
        Some(KeyEvent {
            code: KeyCode::Char('g'),
            modifiers: KeyModifiers::empty(),
        })
    );
    assert_eq!(
        parse("h"),
        Some(KeyEvent {
            code: KeyCode::Char('h'),
            modifiers: KeyModifiers::empty(),
        })
    );
    assert_eq!(
        parse("a"),
        Some(KeyEvent {
            code: KeyCode::Char('a'),
            modifiers: KeyModifiers::empty(),
        })
    );
}

#[test]
fn test_parse_one_mod() {
    assert_eq!(
        parse("C-c"),
        Some(KeyEvent {
            code: KeyCode::Char('c'),
            modifiers: mods(true, false, false),
        })
    );
    assert_eq!(
        parse("C-a"),
        Some(KeyEvent {
            code: KeyCode::Char('a'),
            modifiers: mods(true, false, false),
        })
    );
    assert_eq!(
        parse("c-a"),
        Some(KeyEvent {
            code: KeyCode::Char('a'),
            modifiers: mods(true, false, false),
        })
    );
    assert_eq!(
        parse("a-C"),
        Some(KeyEvent {
            code: KeyCode::Char('C'),
            modifiers: mods(false, true, false),
        })
    );
}

#[test]
fn test_parse_many_mods() {
    assert_eq!(
        parse("C-a-c"),
        Some(KeyEvent {
            code: KeyCode::Char('c'),
            modifiers: mods(true, true, false),
        })
    );
    assert_eq!(
        parse("c-a-q"),
        Some(KeyEvent {
            code: KeyCode::Char('q'),
            modifiers: mods(true, true, false),
        })
    );
}

#[test]
fn test_parse_nonalnum() {
    assert_eq!(
        parse("enter"),
        Some(KeyEvent {
            code: KeyCode::Enter,
            modifiers: KeyModifiers::empty(),
        })
    );
    assert_eq!(
        parse("Backspace"),
        Some(KeyEvent {
            code: KeyCode::Backspace,
            modifiers: KeyModifiers::empty(),
        })
    );
    assert_eq!(
        parse("c-f3"),
        Some(KeyEvent {
            code: KeyCode::F(3),
            modifiers: mods(true, false, false),
        })
    );
}

#[test]
fn parse_rejects_bad_names() {
    assert_eq!(parse(""), None);
    assert_eq!(parse("c-"), None);
    assert_eq!(parse("nosuchkey"), None);
    assert_eq!(parse("f256"), None);
    assert_eq!(parse("f").map(|k| k.code), Some(KeyCode::Char('f')));
    assert_eq!(parse("fx"), None);
    assert_eq!(parse("é"), None);
}

#[test]
fn parse_function_keys_and_ignored_parts() {
    assert_eq!(parse("f12").map(|k| k.code), Some(KeyCode::F(12)));
    assert_eq!(parse("F+7").map(|k| k.code), Some(KeyCode::F(7)));
    assert_eq!(parse("f255").map(|k| k.code), Some(KeyCode::F(255)));
    // a part that names no modifier is ignored
    assert_eq!(parse("x-q"), Some(KeyEvent { code: KeyCode::Char('q'), modifiers: KeyModifiers::empty() }));
    assert_eq!(parse("s-m-PageDown"), Some(KeyEvent { code: KeyCode::PageDown, modifiers: mods(false, true, true) }));
}

#[test]
fn must_parse_gives_the_parsed_key() {
    assert_eq!(must_parse("c-q"), KeyEvent { code: KeyCode::Char('q'), modifiers: mods(true, false, false) });
    assert_eq!(must_parse("home").code, KeyCode::Home);
}

#[test]
fn display_writes_modifiers_then_key() {
    assert_eq!(display(KeyEvent { code: KeyCode::Char('q'), modifiers: mods(true, true, true) }), "C-A-S-q");
    assert_eq!(display(KeyEvent { code: KeyCode::F(3), modifiers: mods(false, true, false) }), "A-f3");
    assert_eq!(display(KeyEvent { code: KeyCode::PageDown, modifiers: KeyModifiers::empty() }), "pagedown");
    assert_eq!(display(KeyEvent { code: KeyCode::Null, modifiers: KeyModifiers::empty() }), "null");
}

#[test]
fn display_then_parse_round_trip() {
    for name in ["C-q", "A-f3", "S-up", "C-A-backtab"] {
        let k = parse(name).unwrap();
        assert_eq!(parse(&display(k)), Some(k));
    }
}
