use shouna::config::{apply, get, init, Config, ConfigPatch, ConfigStore};
use std::path::PathBuf;

fn stored(collapsed: bool, show: bool, hotkey: &str) -> Config {
    Config { collapsed, show_toggle_button: show, hotkey: hotkey.to_string() }
}

#[test]
fn default_config_values() {
    let c = Config::default();
    assert!(!c.collapsed);
    assert!(c.show_toggle_button);
    assert_eq!(c.hotkey, "⌃⌥H");
}

#[test]
fn default_patch_is_empty() {
    let p = ConfigPatch::default();
    assert!(p.collapsed.is_none());
    assert!(p.show_toggle_button.is_none());
    assert!(p.hotkey.is_none());
}

#[test]
fn clone_keeps_every_field() {
    let c = stored(true, false, "⌘K");
    let d = c.clone();
    assert!(d.collapsed);
    assert!(!d.show_toggle_button);
    assert_eq!(d.hotkey, "⌘K");
}

#[test]
fn get_before_init_is_default() {
    let store = ConfigStore::new();
    assert!(!store.is_initialized());
    assert!(store.path().is_none());
    let c = get(&store);
    assert!(!c.collapsed);
    assert!(c.show_toggle_button);
    assert_eq!(c.hotkey, "⌃⌥H");
}

#[test]
fn apply_before_init_changes_nothing_and_answers_default() {
    let mut store = ConfigStore::new();
    let patch = ConfigPatch { collapsed: Some(true), show_toggle_button: Some(false), hotkey: Some("⌘J".to_string()) };
    let c = apply(&mut store, patch);
    assert!(!c.collapsed);
    assert!(c.show_toggle_button);
    assert_eq!(c.hotkey, "⌃⌥H");
    assert!(!store.is_initialized());
    assert!(!get(&store).collapsed);
}

#[test]
fn init_with_loaded_config_keeps_it() {
    let mut store = ConfigStore::new();
    init(&mut store, PathBuf::from("/tmp/shouna/config.json"), Some(stored(true, false, "⌥Z")));
    assert!(store.is_initialized());
    assert_eq!(store.path(), Some(&PathBuf::from("/tmp/shouna/config.json")));
    let c = get(&store);
    assert!(c.collapsed);
    assert!(!c.show_toggle_button);
    assert_eq!(c.hotkey, "⌥Z");
}

#[test]
fn init_without_loaded_config_uses_default() {
    let mut store = ConfigStore::new();
    init(&mut store, PathBuf::from("cfg.json"), None);
    let c = get(&store);
    assert!(!c.collapsed);
    assert!(c.show_toggle_button);
    assert_eq!(c.hotkey, "⌃⌥H");
}

#[test]
fn second_init_is_ignored() {
    let mut store = ConfigStore::new();
    init(&mut store, PathBuf::from("first.json"), Some(stored(true, true, "⌘A")));
    init(&mut store, PathBuf::from("second.json"), Some(stored(false, false, "⌘B")));
    assert_eq!(store.path(), Some(&PathBuf::from("first.json")));
    let c = get(&store);
    assert!(c.collapsed);
    assert_eq!(c.hotkey, "⌘A");
}

#[test]
fn apply_sets_only_given_fields() {
    let mut store = ConfigStore::new();
    init(&mut store, PathBuf::from("c.json"), None);
    let c = apply(&mut store, ConfigPatch { collapsed: Some(true), show_toggle_button: None, hotkey: None });
    assert!(c.collapsed);
    assert!(c.show_toggle_button);
    assert_eq!(c.hotkey, "⌃⌥H");
    let c = apply(&mut store, ConfigPatch { collapsed: None, show_toggle_button: Some(false), hotkey: Some("⇧⌘S".to_string()) });
    assert!(c.collapsed);
    assert!(!c.show_toggle_button);
    assert_eq!(c.hotkey, "⇧⌘S");
}

#[test]
fn read_after_apply_gives_back_the_answer() {
    let mut store = ConfigStore::new();
    init(&mut store, PathBuf::from("c.json"), Some(stored(false, true, "⌥X")));
    let answered = apply(&mut store, ConfigPatch { collapsed: Some(true), show_toggle_button: Some(false), hotkey: None });
    let read = get(&store);
    assert_eq!(answered.collapsed, read.collapsed);
    assert_eq!(answered.show_toggle_button, read.show_toggle_button);
    assert_eq!(answered.hotkey, read.hotkey);
}

#[test]
fn apply_twice_is_apply_once() {
    let mut store = ConfigStore::new();
    init(&mut store, PathBuf::from("c.json"), None);
    let once = apply(&mut store, ConfigPatch { collapsed: Some(true), show_toggle_button: None, hotkey: Some("⌘Q".to_string()) });
    let twice = apply(&mut store, ConfigPatch { collapsed: Some(true), show_toggle_button: None, hotkey: Some("⌘Q".to_string()) });
    assert_eq!(once.collapsed, twice.collapsed);
    assert_eq!(once.show_toggle_button, twice.show_toggle_button);
    assert_eq!(once.hotkey, twice.hotkey);
}

#[test]
fn empty_patch_changes_nothing() {
    let mut store = ConfigStore::new();
    init(&mut store, PathBuf::from("c.json"), Some(stored(true, false, "⌘M")));
    let c = apply(&mut store, ConfigPatch::default());
    assert!(c.collapsed);
    assert!(!c.show_toggle_button);
    assert_eq!(c.hotkey, "⌘M");
    assert_eq!(store.path(), Some(&PathBuf::from("c.json")));
}

#[test]
fn patch_clone_keeps_every_field() {
    let p = ConfigPatch { collapsed: Some(true), show_toggle_button: None, hotkey: Some("⌘P".to_string()) };
    let q = p.clone();
    assert_eq!(q.collapsed, Some(true));
    assert_eq!(q.show_toggle_button, None);
    assert_eq!(q.hotkey.as_deref(), Some("⌘P"));
}
