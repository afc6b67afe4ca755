use shouna::menubar::{
    autosave_name, separator_title, StatusItemKind,
    apply_collapsed, glyph_text, install, is_collapsed, set_toggle_visible, toggle_from_anywhere,
    MenuBar, MenuBarAction, MenuBarState, ToggleGlyph,
};

fn installed(collapsed: bool, has_listener: bool) -> MenuBar {
    MenuBar { state: Some(MenuBarState { collapsed, has_listener }) }
}

#[test]
fn nothing_happens_before_install() {
    let mut m = MenuBar::new();
    assert!(!is_collapsed(&m));
    assert!(apply_collapsed(&mut m, true).is_empty());
    assert!(!is_collapsed(&m));
    assert!(set_toggle_visible(&m, false).is_empty());
    assert!(toggle_from_anywhere(&mut m).is_empty());
    assert!(m.state.is_none());
}

#[test]
fn install_expanded_with_toggle() {
    let mut m = MenuBar::new();
    let a = install(&mut m, true, false, true);
    assert_eq!(
        a,
        vec![
            MenuBarAction::CreateSeparator { length: 1 },
            MenuBarAction::CreateToggle { length: 28, glyph: ToggleGlyph::Collapse },
        ]
    );
    assert_eq!(m.state, Some(MenuBarState { collapsed: false, has_listener: true }));
}

#[test]
fn install_collapsed_without_toggle() {
    let mut m = MenuBar::new();
    let a = install(&mut m, false, true, true);
    assert_eq!(
        a,
        vec![
            MenuBarAction::CreateSeparator { length: 1 },
            MenuBarAction::CreateToggle { length: 0, glyph: ToggleGlyph::Collapse },
            MenuBarAction::SetSeparatorLength { length: 10000 },
            MenuBarAction::SetToggleGlyph { glyph: ToggleGlyph::Expand },
            MenuBarAction::NotifyCollapsed { collapsed: true },
        ]
    );
    assert!(is_collapsed(&m));
}

#[test]
fn second_install_keeps_first_state() {
    let mut m = MenuBar::new();
    install(&mut m, true, false, false);
    let a = install(&mut m, true, true, true);
    assert_eq!(
        a,
        vec![
            MenuBarAction::CreateSeparator { length: 1 },
            MenuBarAction::CreateToggle { length: 28, glyph: ToggleGlyph::Collapse },
            MenuBarAction::SetSeparatorLength { length: 10000 },
            MenuBarAction::SetToggleGlyph { glyph: ToggleGlyph::Expand },
        ]
    );
    assert_eq!(m.state, Some(MenuBarState { collapsed: true, has_listener: false }));
}

#[test]
fn collapse_stretches_separator() {
    let mut m = installed(false, false);
    let a = apply_collapsed(&mut m, true);
    assert_eq!(
        a,
        vec![
            MenuBarAction::SetSeparatorLength { length: 10000 },
            MenuBarAction::SetToggleGlyph { glyph: ToggleGlyph::Expand },
        ]
    );
    assert!(is_collapsed(&m));
}

#[test]
fn expand_narrows_separator_and_notifies() {
    let mut m = installed(true, true);
    let a = apply_collapsed(&mut m, false);
    assert_eq!(
        a,
        vec![
            MenuBarAction::SetSeparatorLength { length: 1 },
            MenuBarAction::SetToggleGlyph { glyph: ToggleGlyph::Collapse },
            MenuBarAction::NotifyCollapsed { collapsed: false },
        ]
    );
    assert!(!is_collapsed(&m));
}

#[test]
fn toggle_twice_restores() {
    let mut m = installed(false, true);
    let first = toggle_from_anywhere(&mut m);
    assert!(is_collapsed(&m));
    assert_eq!(first[2], MenuBarAction::NotifyCollapsed { collapsed: true });
    let second = toggle_from_anywhere(&mut m);
    assert!(!is_collapsed(&m));
    assert_eq!(second[0], MenuBarAction::SetSeparatorLength { length: 1 });
    assert_eq!(m.state, Some(MenuBarState { collapsed: false, has_listener: true }));
}

#[test]
fn toggle_visibility_lengths() {
    let m = installed(true, false);
    assert_eq!(set_toggle_visible(&m, true), vec![MenuBarAction::SetToggleLength { length: 28 }]);
    assert_eq!(set_toggle_visible(&m, false), vec![MenuBarAction::SetToggleLength { length: 0 }]);
    assert_eq!(m.state, Some(MenuBarState { collapsed: true, has_listener: false }));
}

#[test]
fn glyph_texts() {
    assert_eq!(glyph_text(ToggleGlyph::Collapse), "▸");
    assert_eq!(glyph_text(ToggleGlyph::Expand), "▾");
}

/// The separator width, toggle width and title shown, as the app carries changes out.
#[derive(Default)]
struct Screen {
    items: Option<(u32, u32, ToggleGlyph)>,
    pending: Option<u32>,
}

impl Screen {
    fn carry_out(&mut self, actions: Vec<MenuBarAction>) {
        for a in actions {
            match a {
                MenuBarAction::CreateSeparator { length } => self.pending = Some(length),
                MenuBarAction::CreateToggle { length, glyph } => {
                    if let (None, Some(sep)) = (self.items, self.pending.take()) {
                        self.items = Some((sep, length, glyph));
                    }
                }
                MenuBarAction::SetSeparatorLength { length } => {
                    if let Some(it) = self.items.as_mut() {
                        it.0 = length;
                    }
                }
                MenuBarAction::SetToggleLength { length } => {
                    if let Some(it) = self.items.as_mut() {
                        it.1 = length;
                    }
                }
                MenuBarAction::SetToggleGlyph { glyph } => {
                    if let Some(it) = self.items.as_mut() {
                        it.2 = glyph;
                    }
                }
                MenuBarAction::NotifyCollapsed { .. } => {}
            }
        }
    }

    fn agrees(&self, m: &MenuBar) {
        assert!(self.pending.is_none());
        match (m.state, self.items) {
            (Some(s), Some((sep, toggle, glyph))) => {
                assert_eq!(s.collapsed, sep == 10000);
                assert_eq!(s.collapsed, glyph == ToggleGlyph::Expand);
                assert_eq!(!s.collapsed, sep == 1);
                assert!(toggle == 28 || toggle == 0);
            }
            (None, None) => {}
            _ => panic!("items and model disagree"),
        }
    }
}

#[test]
fn items_agree_over_a_run() {
    let mut m = MenuBar::new();
    let mut sc = Screen::default();
    sc.carry_out(apply_collapsed(&mut m, true));
    sc.agrees(&m);
    sc.carry_out(install(&mut m, true, true, true));
    sc.agrees(&m);
    sc.carry_out(toggle_from_anywhere(&mut m));
    sc.agrees(&m);
    sc.carry_out(set_toggle_visible(&m, false));
    sc.agrees(&m);
    sc.carry_out(install(&mut m, true, false, false));
    sc.agrees(&m);
    assert_eq!(sc.items, Some((1, 0, ToggleGlyph::Collapse)));
    sc.carry_out(install(&mut m, true, true, false));
    sc.agrees(&m);
    assert_eq!(sc.items, Some((10000, 0, ToggleGlyph::Expand)));
    sc.carry_out(apply_collapsed(&mut m, false));
    sc.agrees(&m);
    assert_eq!(sc.items, Some((1, 0, ToggleGlyph::Collapse)));
}

#[test]
fn item_names_and_separator_title() {
    assert_eq!(autosave_name(StatusItemKind::Separator), "com.tuntun.menubar.separator");
    assert_eq!(autosave_name(StatusItemKind::Toggle), "com.tuntun.menubar.toggle");
    assert_eq!(separator_title(), "");
}
