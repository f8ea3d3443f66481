use raflow::hotkey::{
    assemble, classify_token, parse_hotkey, tokenize, Hotkey, KeyCode, Modifiers, Token,
    DEFAULT_HOTKEY,
};
use raflow::AppError;

#[test]
fn test_parse_hotkey() {
    // Test various hotkey formats
    assert!(parse_hotkey("CommandOrControl+Shift+\\").is_ok());
    assert!(parse_hotkey("Ctrl+Alt+A").is_ok());
    assert!(parse_hotkey("F12").is_ok());
    assert!(parse_hotkey("Shift+Space").is_ok());
    assert!(parse_hotkey("CommandOrControl+R").is_ok());

    // Test invalid hotkey
    assert!(parse_hotkey("").is_err());
}

fn none() -> Modifiers {
    Modifiers { super_key: false, control: false, shift: false, alt: false, meta: false }
}

#[test]
fn what_shortcuts_parse_to() {
    assert_eq!(
        parse_hotkey(DEFAULT_HOTKEY),
        Ok(Hotkey {
            modifiers: Modifiers { super_key: true, shift: true, ..none() },
            key: KeyCode::Backslash
        })
    );
    assert_eq!(
        parse_hotkey("Ctrl+Alt+A"),
        Ok(Hotkey {
            modifiers: Modifiers { control: true, alt: true, ..none() },
            key: KeyCode::Letter('a')
        })
    );
    assert_eq!(parse_hotkey("F12"), Ok(Hotkey { modifiers: none(), key: KeyCode::Function(12) }));
    assert_eq!(
        parse_hotkey("Shift+Space"),
        Ok(Hotkey { modifiers: Modifiers { shift: true, ..none() }, key: KeyCode::Space })
    );
    assert_eq!(
        parse_hotkey("meta+OPTION+5"),
        Ok(Hotkey {
            modifiers: Modifiers { meta: true, alt: true, ..none() },
            key: KeyCode::Digit(5)
        })
    );
}

#[test]
fn the_last_key_named_is_the_key() {
    assert_eq!(parse_hotkey("A+B").unwrap().key, KeyCode::Letter('b'));
    assert_eq!(parse_hotkey("F1+Tab+Ctrl").unwrap().key, KeyCode::Tab);
}

#[test]
fn unknown_words_are_passed_over_and_unknown_signs_refused() {
    assert_eq!(parse_hotkey("Ctrl+Foo+B").unwrap().key, KeyCode::Letter('b'));
    assert_eq!(parse_hotkey("Ctrl++B").unwrap().key, KeyCode::Letter('b'));
    assert_eq!(parse_hotkey("é+B").unwrap().key, KeyCode::Letter('b'));
    assert_eq!(parse_hotkey("Ctrl+?"), Err(AppError::Config("Unknown key: ?".to_string())));
    assert_eq!(parse_hotkey("?+!+A"), Err(AppError::Config("Unknown key: ?".to_string())));
    assert_eq!(parse_hotkey("A+ "), Err(AppError::Config("Unknown key:  ".to_string())));
}

#[test]
fn a_shortcut_needs_a_key() {
    let expected = Err(AppError::Config("No key specified in hotkey".to_string()));
    assert_eq!(parse_hotkey(""), expected);
    assert_eq!(parse_hotkey("Ctrl"), expected);
    assert_eq!(parse_hotkey("Ctrl+Shift"), expected);
    assert_eq!(parse_hotkey("+"), expected);
    assert_eq!(parse_hotkey("nothing+known"), expected);
}

#[test]
fn letter_case_does_not_matter() {
    assert_eq!(parse_hotkey("ctrl+a"), parse_hotkey("CTRL+A"));
    assert_eq!(parse_hotkey("CmdOrCtrl+ENTER"), parse_hotkey("cmdorctrl+enter"));
    // the Kelvin sign is a capital letter whose lowercase is `k`
    assert_eq!(parse_hotkey("\u{212A}").unwrap().key, KeyCode::Letter('k'));
}

#[test]
fn tokens_of_a_shortcut() {
    assert_eq!(
        tokenize("Cmd+Shift+\\"),
        vec![Token::Super, Token::Shift, Token::Key(KeyCode::Backslash)]
    );
    assert_eq!(tokenize(""), vec![Token::Ignored]);
    assert_eq!(tokenize("+"), vec![Token::Ignored, Token::Ignored]);
    assert_eq!(tokenize("A+#"), vec![Token::Key(KeyCode::Letter('a')), Token::UnknownKey("#".to_string())]);
}

#[test]
fn every_name_of_a_token() {
    let key = |s: &str| classify_token(s.to_string());
    for s in ["commandorcontrol", "cmdorctrl", "command", "cmd", "super"] {
        assert_eq!(key(s), Token::Super);
    }
    for s in ["control", "ctrl"] {
        assert_eq!(key(s), Token::Control);
    }
    assert_eq!(key("shift"), Token::Shift);
    for s in ["alt", "option"] {
        assert_eq!(key(s), Token::Alt);
    }
    assert_eq!(key("meta"), Token::Meta);
    let named = [
        ("\\", KeyCode::Backslash),
        ("backslash", KeyCode::Backslash),
        ("/", KeyCode::Slash),
        ("slash", KeyCode::Slash),
        ("space", KeyCode::Space),
        ("enter", KeyCode::Enter),
        ("return", KeyCode::Enter),
        ("tab", KeyCode::Tab),
        ("escape", KeyCode::Escape),
        ("esc", KeyCode::Escape),
        ("backspace", KeyCode::Backspace),
        ("delete", KeyCode::Delete),
        ("up", KeyCode::ArrowUp),
        ("arrowup", KeyCode::ArrowUp),
        ("down", KeyCode::ArrowDown),
        ("arrowdown", KeyCode::ArrowDown),
        ("left", KeyCode::ArrowLeft),
        ("arrowleft", KeyCode::ArrowLeft),
        ("right", KeyCode::ArrowRight),
        ("arrowright", KeyCode::ArrowRight),
    ];
    for (s, k) in named {
        assert_eq!(key(s), Token::Key(k));
    }
    for n in 1u8..=12 {
        assert_eq!(key(&format!("f{}", n)), Token::Key(KeyCode::Function(n)));
    }
    assert_eq!(key("f13"), Token::Ignored);
    assert_eq!(key("f0"), Token::Ignored);
    for c in 'a'..='z' {
        assert_eq!(key(&c.to_string()), Token::Key(KeyCode::Letter(c)));
    }
    for d in 0u8..=9 {
        assert_eq!(key(&d.to_string()), Token::Key(KeyCode::Digit(d)));
    }
    // a token is taken as it is: capitals are no letters here
    assert_eq!(key("A"), Token::UnknownKey("A".to_string()));
    assert_eq!(key("-"), Token::UnknownKey("-".to_string()));
    assert_eq!(key(""), Token::Ignored);
    assert_eq!(key("é"), Token::Ignored);
    assert_eq!(key("Shift"), Token::Ignored);
}

#[test]
fn putting_tokens_together() {
    assert_eq!(
        assemble(&vec![Token::Ignored, Token::Alt, Token::Key(KeyCode::Tab), Token::Alt]),
        Ok(Hotkey { modifiers: Modifiers { alt: true, ..none() }, key: KeyCode::Tab })
    );
    assert_eq!(
        assemble(&vec![]),
        Err(AppError::Config("No key specified in hotkey".to_string()))
    );
    assert_eq!(
        assemble(&vec![
            Token::Key(KeyCode::Tab),
            Token::UnknownKey("%".to_string()),
            Token::UnknownKey("&".to_string())
        ]),
        Err(AppError::Config("Unknown key: %".to_string()))
    );
    assert!(Modifiers::none().is_empty());
    assert!(!Modifiers { meta: true, ..none() }.is_empty());
}
