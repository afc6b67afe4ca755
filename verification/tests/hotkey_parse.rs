use shouna::hotkey::{accelerator, letter_text, hotkey_to_register, letter_key, parse_hotkey, Hotkey, HotkeyModifiers, LetterKey};

fn mods(super_key: bool, shift: bool, control: bool, alt: bool) -> HotkeyModifiers {
    HotkeyModifiers { super_key, shift, control, alt }
}

#[test]
fn default_hotkey_text_is_control_option_h() {
    let h = parse_hotkey("⌃⌥H");
    assert_eq!(h, Some(Hotkey { modifiers: mods(false, false, true, true), key: LetterKey::H }));
    assert_eq!(hotkey_to_register("⌃⌥H"), hotkey_to_register(""));
}

#[test]
fn all_modifier_glyphs() {
    let h = parse_hotkey("⌘⇧⌃⌥k");
    assert_eq!(h, Some(Hotkey { modifiers: mods(true, true, true, true), key: LetterKey::K }));
}

#[test]
fn lower_case_letter_names_the_same_key() {
    assert_eq!(parse_hotkey("⌘a"), parse_hotkey("⌘A"));
    assert_eq!(parse_hotkey("⌘z").unwrap().key, LetterKey::Z);
}

#[test]
fn last_letter_wins() {
    let h = parse_hotkey("⌘AB⌥c").unwrap();
    assert_eq!(h.key, LetterKey::C);
    assert_eq!(h.modifiers, mods(true, false, false, true));
}

#[test]
fn modifier_order_and_repetition_do_not_matter() {
    assert_eq!(parse_hotkey("⌥⌃H"), parse_hotkey("⌃⌥H"));
    assert_eq!(parse_hotkey("⌃⌃⌥⌥H"), parse_hotkey("H⌃⌥"));
}

#[test]
fn no_letter_names_no_hotkey() {
    assert_eq!(parse_hotkey(""), None);
    assert_eq!(parse_hotkey("⌘⇧"), None);
    assert_eq!(parse_hotkey("⌘1+é"), None);
}

#[test]
fn other_characters_are_ignored() {
    let h = parse_hotkey("Ctrl+1").unwrap();
    assert_eq!(h.key, LetterKey::L);
    assert_eq!(h.modifiers, mods(false, false, false, false));
    assert_eq!(parse_hotkey(" ⌘ - 9 q ").unwrap(), Hotkey { modifiers: mods(true, false, false, false), key: LetterKey::Q });
}

#[test]
fn fallback_when_nothing_named() {
    let fallback = Hotkey { modifiers: mods(false, false, true, true), key: LetterKey::H };
    assert_eq!(hotkey_to_register("⌘⌥"), fallback);
    assert_eq!(hotkey_to_register("garbage!"), Hotkey { modifiers: mods(false, false, false, false), key: LetterKey::E });
    assert_eq!(hotkey_to_register("⇧x"), Hotkey { modifiers: mods(false, true, false, false), key: LetterKey::X });
}

#[test]
fn letter_keys() {
    assert_eq!(letter_key('a'), Some(LetterKey::A));
    assert_eq!(letter_key('M'), Some(LetterKey::M));
    assert_eq!(letter_key('z'), Some(LetterKey::Z));
    assert_eq!(letter_key('@'), None);
    assert_eq!(letter_key('['), None);
    assert_eq!(letter_key('`'), None);
    assert_eq!(letter_key('{'), None);
    assert_eq!(letter_key('ß'), None);
}

#[test]
fn accelerator_texts() {
    assert_eq!(accelerator(hotkey_to_register("⌃⌥H")), "Ctrl+Alt+H");
    assert_eq!(accelerator(Hotkey { modifiers: mods(true, true, true, true), key: LetterKey::K }), "Cmd+Shift+Ctrl+Alt+K");
    assert_eq!(accelerator(Hotkey { modifiers: mods(false, false, false, false), key: LetterKey::A }), "A");
    assert_eq!(accelerator(hotkey_to_register("⇧⌘z")), "Cmd+Shift+Z");
    assert_eq!(letter_text(LetterKey::Z), "Z");
    assert_eq!(letter_text(LetterKey::M), "M");
}
