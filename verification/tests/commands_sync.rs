use shouna::commands::{has_accessibility, hides_instead_of_closing, record_collapsed, update_config};
use shouna::config::{get, init, Config, ConfigPatch, ConfigStore};
use shouna::menubar::{install, is_collapsed, MenuBar, MenuBarAction, MenuBarState, ToggleGlyph};
use shouna::text::same_text;
use std::path::PathBuf;

fn ready_store() -> ConfigStore {
    let mut store = ConfigStore::new();
    init(&mut store, PathBuf::from("c.json"), Some(Config::default()));
    store
}

#[test]
fn update_config_syncs_menu_bar() {
    let mut store = ready_store();
    let mut m = MenuBar::new();
    install(&mut m, true, false, true);
    let patch = ConfigPatch { collapsed: Some(true), show_toggle_button: Some(false), hotkey: None };
    let (cfg, actions) = update_config(&mut store, &mut m, patch);
    assert!(cfg.collapsed);
    assert!(!cfg.show_toggle_button);
    assert_eq!(
        actions,
        vec![
            MenuBarAction::SetToggleLength { length: 0 },
            MenuBarAction::SetSeparatorLength { length: 10000 },
            MenuBarAction::SetToggleGlyph { glyph: ToggleGlyph::Expand },
            MenuBarAction::NotifyCollapsed { collapsed: true },
        ]
    );
    assert_eq!(is_collapsed(&m), get(&store).collapsed);
}

#[test]
fn update_config_before_anything_is_installed() {
    let mut store = ConfigStore::new();
    let mut m = MenuBar::new();
    let (cfg, actions) = update_config(&mut store, &mut m, ConfigPatch { collapsed: Some(true), show_toggle_button: None, hotkey: None });
    assert!(!cfg.collapsed);
    assert!(actions.is_empty());
    assert!(m.state.is_none());
}

#[test]
fn update_config_without_menu_bar_still_saves() {
    let mut store = ready_store();
    let mut m = MenuBar::new();
    let (cfg, actions) = update_config(&mut store, &mut m, ConfigPatch { collapsed: None, show_toggle_button: None, hotkey: Some("⌘T".to_string()) });
    assert_eq!(cfg.hotkey, "⌘T");
    assert!(actions.is_empty());
    assert_eq!(get(&store).hotkey, "⌘T");
}

#[test]
fn recorded_state_matches_menu_bar() {
    let mut store = ready_store();
    let mut m = MenuBar { state: Some(MenuBarState { collapsed: false, has_listener: true }) };
    let actions = shouna::menubar::toggle_from_anywhere(&mut m);
    let reported = match actions.last() {
        Some(MenuBarAction::NotifyCollapsed { collapsed }) => *collapsed,
        _ => panic!("no notice"),
    };
    let cfg = record_collapsed(&mut store, reported);
    assert!(cfg.collapsed);
    assert_eq!(get(&store).collapsed, is_collapsed(&m));
    assert!(cfg.show_toggle_button);
}

#[test]
fn record_collapsed_before_init_answers_default() {
    let mut store = ConfigStore::new();
    let cfg = record_collapsed(&mut store, true);
    assert!(!cfg.collapsed);
}

#[test]
fn close_request_on_main_hides() {
    assert!(hides_instead_of_closing(true, "main"));
    assert!(!hides_instead_of_closing(false, "main"));
    assert!(!hides_instead_of_closing(true, "other"));
    assert!(!hides_instead_of_closing(true, "mai"));
}

#[test]
fn accessibility_is_always_granted() {
    assert!(has_accessibility());
}

#[test]
fn text_comparison() {
    assert!(same_text("囤囤", "囤囤"));
    assert!(!same_text("a", "b"));
    assert!(!same_text("ab", "abc"));
    assert!(same_text("", ""));
}

#[test]
fn show_config_sets_toggle_then_state() {
    let mut m = MenuBar { state: Some(MenuBarState { collapsed: true, has_listener: false }) };
    let cfg = Config { collapsed: false, show_toggle_button: true, hotkey: "⌃⌥H".to_string() };
    let actions = shouna::commands::show_config(&mut m, &cfg);
    assert_eq!(
        actions,
        vec![
            MenuBarAction::SetToggleLength { length: 28 },
            MenuBarAction::SetSeparatorLength { length: 1 },
            MenuBarAction::SetToggleGlyph { glyph: ToggleGlyph::Collapse },
        ]
    );
    assert!(!is_collapsed(&m));
    let mut none = MenuBar::new();
    assert!(shouna::commands::show_config(&mut none, &cfg).is_empty());
}
