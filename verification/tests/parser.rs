use xiallocontrol::action::{
    press_composed_keys, Button, Direction, InjectorOp, Key, PrimaryAction,
};
use xiallocontrol::parse::{
    classify, get_function_key, parse_composed_key, parse_composed_key_to_action, parse_tokens,
    set_primary, ParseError, Token,
};
use xiallocontrol::text::{eq_ignore_ascii_case, fold, hex4, split, str_eq, trim};

fn parsed(text: &str) -> (Vec<Key>, PrimaryAction) {
    let action = parse_composed_key_to_action(text).expect("the text should parse");
    (action.modifiers, action.primary)
}

#[test]
fn modifiers_and_a_letter() {
    assert_eq!(
        parsed("Ctrl+Alt+A"),
        (vec![Key::Control, Key::Alt], PrimaryAction::KeyPress { key: Key::Unicode('a') })
    );
}

#[test]
fn upper_case_is_folded_by_the_lowercase_call() {
    assert_eq!(
        parsed("SHIFT+MOUSELEFT"),
        (vec![Key::Shift], PrimaryAction::MouseClick { button: Button::Left })
    );
    assert_eq!(parsed("Z"), (vec![], PrimaryAction::KeyPress { key: Key::Unicode('z') }));
}

#[test]
fn white_space_round_long_pieces_is_dropped() {
    assert_eq!(
        parsed(" ctrl + shift +  tab "),
        (vec![Key::Control, Key::Shift], PrimaryAction::KeyPress { key: Key::Tab })
    );
}

#[test]
fn a_single_space_is_the_key_of_the_space_character() {
    assert_eq!(
        parsed("ctrl+ "),
        (vec![Key::Control], PrimaryAction::KeyPress { key: Key::Unicode(' ') })
    );
}

#[test]
fn all_modifier_names() {
    assert_eq!(
        parsed("ctrl+control+shift+alt+meta+cmd+win"),
        (
            vec![
                Key::Control,
                Key::Control,
                Key::Shift,
                Key::Alt,
                Key::Meta,
                Key::Meta,
                Key::Meta
            ],
            PrimaryAction::NoAction { none: None }
        )
    );
}

#[test]
fn mouse_and_wheel_and_keyboard_names() {
    assert_eq!(parsed("MouseRight").1, PrimaryAction::MouseClick { button: Button::Right });
    assert_eq!(parsed("MouseMiddle").1, PrimaryAction::MouseClick { button: Button::Middle });
    assert_eq!(parsed("MouseX1").1, PrimaryAction::MouseClick { button: Button::Forward });
    assert_eq!(parsed("MouseX2").1, PrimaryAction::MouseClick { button: Button::Back });
    assert_eq!(parsed("MouseWheelUp").1, PrimaryAction::MouseWheel { amount: -1 });
    assert_eq!(parsed("MouseWheelDown").1, PrimaryAction::MouseWheel { amount: 1 });
    assert_eq!(
        parsed("VirtualKeyboard").1,
        PrimaryAction::VirtualKeyboard { virtual_keyboard: Some(true) }
    );
}

#[test]
fn named_keys() {
    let names = [
        ("space", Key::Space),
        ("enter", Key::Unicode('\r')),
        ("backspace", Key::Backspace),
        ("tab", Key::Tab),
        ("delete", Key::Delete),
        ("pageup", Key::PageUp),
        ("pagedown", Key::PageDown),
        ("home", Key::Home),
        ("end", Key::End),
        ("capslock", Key::CapsLock),
        ("printscreen", Key::PrintScr),
        ("scrolllock", Key::Scroll),
        ("pause", Key::Pause),
    ];
    for (name, key) in names {
        assert_eq!(parsed(name).1, PrimaryAction::KeyPress { key });
    }
}

#[test]
fn function_keys_from_one_to_twenty_four() {
    assert_eq!(parsed("F1").1, PrimaryAction::KeyPress { key: Key::F(1) });
    assert_eq!(parsed("f12").1, PrimaryAction::KeyPress { key: Key::F(12) });
    assert_eq!(parsed("F24").1, PrimaryAction::KeyPress { key: Key::F(24) });
    assert_eq!(parsed("f007").1, PrimaryAction::KeyPress { key: Key::F(7) });
    assert_eq!(parsed("f").1, PrimaryAction::KeyPress { key: Key::Unicode('f') });
    for bad in ["f0", "f25", "f255", "f256", "f99999999999999999999", "f1x", "fx"] {
        match parse_composed_key_to_action(bad) {
            Err(ParseError::UnknownKey(token)) => assert_eq!(token, bad),
            other => panic!("{bad} gave {other:?}"),
        }
    }
    assert_eq!(get_function_key(0), None);
    assert_eq!(get_function_key(1), Some(Key::F(1)));
    assert_eq!(get_function_key(24), Some(Key::F(24)));
    assert_eq!(get_function_key(25), None);
}

#[test]
fn modifiers_alone_give_an_action_that_does_nothing_else() {
    assert_eq!(
        parsed("Ctrl+Shift"),
        (vec![Key::Control, Key::Shift], PrimaryAction::NoAction { none: None })
    );
}

#[test]
fn unknown_token_is_reported_in_lower_case() {
    match parse_composed_key_to_action("Ctrl+Bogus") {
        Err(ParseError::UnknownKey(token)) => assert_eq!(token, "bogus"),
        other => panic!("gave {other:?}"),
    }
}

#[test]
fn empty_text_and_empty_piece_are_unknown_tokens() {
    for text in ["", "ctrl+", "+a", "a++b"] {
        match parse_composed_key_to_action(text) {
            Err(ParseError::UnknownKey(token)) => assert_eq!(token, ""),
            other => panic!("{text:?} gave {other:?}"),
        }
    }
}

#[test]
fn second_primary_action_is_refused() {
    assert!(matches!(
        parse_composed_key_to_action("a+b"),
        Err(ParseError::MultiplePrimaryActions)
    ));
    assert!(matches!(
        parse_composed_key_to_action("MouseLeft+Ctrl+space"),
        Err(ParseError::MultiplePrimaryActions)
    ));
}

#[test]
fn the_first_error_from_the_left_wins() {
    assert!(matches!(
        parse_composed_key_to_action("a+b+bogus"),
        Err(ParseError::MultiplePrimaryActions)
    ));
    assert!(matches!(
        parse_composed_key_to_action("a+bogus+b"),
        Err(ParseError::UnknownKey(_))
    ));
}

#[test]
fn no_tokens_at_all_lack_a_primary_action() {
    assert!(matches!(parse_tokens(&vec![]), Err(ParseError::NoPrimaryAction)));
}

#[test]
fn tokens_are_read_as_they_are() {
    let tokens = vec!["ctrl".to_string(), "c".to_string()];
    let action = parse_tokens(&tokens).unwrap();
    assert_eq!(action.modifiers, vec![Key::Control]);
    assert_eq!(action.primary, PrimaryAction::KeyPress { key: Key::Unicode('c') });
    let upper = vec!["CTRL".to_string()];
    assert!(matches!(parse_tokens(&upper), Err(ParseError::UnknownKey(_))));
}

#[test]
fn classify_tells_modifier_primary_and_unknown_apart() {
    assert!(matches!(classify("shift"), Token::Modifier(Key::Shift)));
    assert!(matches!(
        classify("mousewheelup"),
        Token::Primary(PrimaryAction::MouseWheel { amount: -1 })
    ));
    assert!(matches!(classify("é"), Token::Unknown));
    assert!(matches!(classify("ab"), Token::Unknown));
}

#[test]
fn set_primary_takes_one_action_only() {
    let mut field = None;
    assert!(set_primary(&mut field, PrimaryAction::MouseWheel { amount: 2 }).is_ok());
    assert_eq!(field, Some(PrimaryAction::MouseWheel { amount: 2 }));
    assert!(matches!(
        set_primary(&mut field, PrimaryAction::MouseWheel { amount: 3 }),
        Err(ParseError::MultiplePrimaryActions)
    ));
    assert_eq!(field, Some(PrimaryAction::MouseWheel { amount: 2 }));
}

#[test]
fn error_messages() {
    assert_eq!(ParseError::NoPrimaryAction.message(), "no primary action found");
    assert_eq!(
        ParseError::MultiplePrimaryActions.message(),
        "more than one primary action found"
    );
    assert_eq!(ParseError::UnknownKey("xy".to_string()).message(), "unrecognized key: xy");
}

#[test]
fn split_keeps_empty_pieces() {
    assert_eq!(split("a+b", '+'), vec!["a", "b"]);
    assert_eq!(split("", '+'), vec![""]);
    assert_eq!(split("+", '+'), vec!["", ""]);
    assert_eq!(split("ctrl++x+", '+'), vec!["ctrl", "", "x", ""]);
    assert_eq!(split("é+ü", '+'), vec!["é", "ü"]);
}

#[test]
fn trim_drops_white_space_at_both_ends() {
    assert_eq!(trim("  a b \t\n"), "a b");
    assert_eq!(trim(""), "");
    assert_eq!(trim(" \u{3000} "), "");
    assert_eq!(trim("x"), "x");
    assert_eq!(trim("\u{a0}é\u{2003}"), "é");
}

#[test]
fn fold_trims_only_pieces_of_more_than_one_byte() {
    assert_eq!(fold(" "), " ");
    assert_eq!(fold(" A "), "a");
    assert_eq!(fold("A"), "a");
    assert_eq!(fold("É"), "é");
    assert_eq!(fold("\u{a0}"), "");
}

#[test]
fn text_comparisons() {
    assert!(str_eq("abc", "abc"));
    assert!(!str_eq("abc", "abd"));
    assert!(!str_eq("abc", "ab"));
    assert!(eq_ignore_ascii_case("045E", "045e"));
    assert!(!eq_ignore_ascii_case("045e", "045f"));
    assert!(!eq_ignore_ascii_case("É", "é"));
}

#[test]
fn hex4_writes_four_small_digits() {
    assert_eq!(hex4(0x045e), "045e");
    assert_eq!(hex4(0), "0000");
    assert_eq!(hex4(0xffff), "ffff");
    assert_eq!(hex4(0x20bc), "20bc");
    assert_eq!(hex4(0xA9), "00a9");
}

#[test]
fn plain_key_combination_is_read_as_its_keys() {
    assert_eq!(
        parse_composed_key(" Ctrl + SHIFT+a"),
        vec![Key::Control, Key::Shift, Key::Unicode('a')]
    );
    assert_eq!(parse_composed_key("space+Space+x"), vec![
        Key::Unicode(' '),
        Key::Unicode(' '),
        Key::Unicode('x')
    ]);
    assert_eq!(parse_composed_key("alt+bogus+meta+f1+ +win"), vec![Key::Alt, Key::Meta, Key::Meta]);
    assert_eq!(parse_composed_key(""), vec![]);
}

#[test]
fn plain_key_combination_is_struck_and_let_go_in_reverse() {
    let press = |key| InjectorOp::Key { key, direction: Direction::Press };
    let release = |key| InjectorOp::Key { key, direction: Direction::Release };
    assert_eq!(
        press_composed_keys(&vec![Key::Control, Key::Unicode('c')]),
        vec![
            press(Key::Control),
            press(Key::Unicode('c')),
            release(Key::Unicode('c')),
            release(Key::Control)
        ]
    );
    assert_eq!(press_composed_keys(&vec![]), vec![]);
}
