use ui_act::device::{InputError, InputEvent};
use ui_act::keys::{
    char_to_keys, hold_key_events, parse_key_combination, press_key_events, type_text_events, Key,
    KEY_PRESS_US,
};

fn down(k: Key) -> InputEvent {
    InputEvent::KeyDown(k)
}

fn up(k: Key) -> InputEvent {
    InputEvent::KeyUp(k)
}

#[test]
fn combination_keys_in_token_order() {
    let kc = parse_key_combination("ctrl+alt+delete").unwrap();
    assert_eq!(kc.keys, vec![Key::LeftControl, Key::LeftAlt, Key::Delete]);
}

#[test]
fn combination_is_case_insensitive_with_aliases() {
    let kc = parse_key_combination("Control+SUPER+Return+Esc+Del").unwrap();
    assert_eq!(kc.keys, vec![Key::LeftControl, Key::LeftMeta, Key::Enter, Key::Esc, Key::Delete]);
    let kc = parse_key_combination("win+meta+F12+PageDown").unwrap();
    assert_eq!(kc.keys, vec![Key::LeftMeta, Key::LeftMeta, Key::F12, Key::PageDown]);
}

#[test]
fn combination_single_characters() {
    let kc = parse_key_combination("shift+a+7+.+,").unwrap();
    assert_eq!(kc.keys, vec![Key::LeftShift, Key::A, Key::Num7, Key::Dot, Key::Comma]);
    let kc = parse_key_combination(" ").unwrap();
    assert_eq!(kc.keys, vec![Key::Space]);
}

#[test]
fn unknown_token_fails_whole_combination() {
    assert_eq!(
        parse_key_combination("ctrl+foo+bar"),
        Err(InputError::UnknownKey("foo".to_string()))
    );
    assert_eq!(parse_key_combination("Ctrl+Hyper"), Err(InputError::UnknownKey("Hyper".to_string())));
}

#[test]
fn empty_tokens_are_unknown() {
    assert_eq!(parse_key_combination(""), Err(InputError::UnknownKey(String::new())));
    assert_eq!(parse_key_combination("ctrl+"), Err(InputError::UnknownKey(String::new())));
    assert_eq!(parse_key_combination("ctrl++c"), Err(InputError::UnknownKey(String::new())));
}

#[test]
fn press_releases_in_reverse_order() {
    let evs = press_key_events("ctrl+shift+t").unwrap();
    assert_eq!(
        evs,
        vec![
            down(Key::LeftControl),
            down(Key::LeftShift),
            down(Key::T),
            InputEvent::Pause(KEY_PRESS_US),
            up(Key::T),
            up(Key::LeftShift),
            up(Key::LeftControl),
        ]
    );
}

#[test]
fn press_unknown_key_emits_nothing() {
    assert_eq!(press_key_events("ctrl+nokey"), Err(InputError::UnknownKey("nokey".to_string())));
}

#[test]
fn hold_uses_given_duration() {
    let evs = hold_key_events("alt+tab", 2_000_000).unwrap();
    assert_eq!(
        evs,
        vec![
            down(Key::LeftAlt),
            down(Key::Tab),
            InputEvent::Pause(2_000_000),
            up(Key::Tab),
            up(Key::LeftAlt),
        ]
    );
}

#[test]
fn char_mapping() {
    assert_eq!(char_to_keys('a'), vec![Key::A]);
    assert_eq!(char_to_keys('Q'), vec![Key::LeftShift, Key::Q]);
    assert_eq!(char_to_keys('0'), vec![Key::Num0]);
    assert_eq!(char_to_keys(':'), vec![Key::LeftShift, Key::SemiColon]);
    assert_eq!(char_to_keys('_'), vec![Key::LeftShift, Key::Minus]);
    assert_eq!(char_to_keys('?'), vec![Key::LeftShift, Key::Slash]);
    assert_eq!(char_to_keys('\n'), vec![Key::Enter]);
    assert_eq!(char_to_keys(' '), vec![Key::Space]);
    assert_eq!(char_to_keys('é'), Vec::<Key>::new());
    assert_eq!(char_to_keys('É'), Vec::<Key>::new());
    assert_eq!(char_to_keys('!'), Vec::<Key>::new());
}

#[test]
fn typing_brackets_main_key_with_modifiers() {
    let p = InputEvent::Pause(KEY_PRESS_US);
    assert_eq!(
        type_text_events("aB"),
        vec![
            down(Key::A),
            p,
            up(Key::A),
            p,
            down(Key::LeftShift),
            down(Key::B),
            p,
            up(Key::B),
            up(Key::LeftShift),
            p,
        ]
    );
}

#[test]
fn typing_skips_unmapped_characters() {
    assert_eq!(type_text_events("a€!b"), type_text_events("ab"));
    assert_eq!(type_text_events("€"), Vec::<InputEvent>::new());
    assert_eq!(type_text_events(""), Vec::<InputEvent>::new());
}
