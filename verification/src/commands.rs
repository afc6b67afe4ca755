//! What the preferences window and the status items ask of the configuration and the
//! menu bar together.
use crate::config::{
    after_patch, applied, apply, seen, ConfigPatch, ConfigPatchView, ConfigStore, ConfigView,
    Config,
};
use crate::menubar::{
    actions_for, apply_collapsed, collapsed_of, set_toggle_visible, toggle_actions,
    with_collapsed, MenuBar, MenuBarAction, MenuBarState, ToggleGlyph,
};
use crate::text::same_text;
use vstd::prelude::*;

verus! {

/// The patch that records only the collapsed state `collapsed`.
pub open spec fn collapsed_patch(collapsed: bool) -> ConfigPatchView {
    ConfigPatchView { collapsed: Some(collapsed), show_toggle_button: None, hotkey: None }
}

/// The status-bar changes that show the configuration `c` on the slot `s`: the toggle
/// shown or hidden, then the collapsed state recorded.
pub open spec fn sync_actions(s: Option<MenuBarState>, c: ConfigView) -> Seq<MenuBarAction> {
    toggle_actions(s, c.show_toggle_button) + actions_for(s, c.collapsed)
}

/// Applies a patch from the preferences window, then brings the menu bar in line with
/// the configuration that results: the toggle shown or hidden as it says, and the
/// icons stashed or shown as it says. Answers that configuration and the changes.
pub fn update_config(store: &mut ConfigStore, menubar: &mut MenuBar, patch: ConfigPatch) -> (r: (
    Config,
    Vec<MenuBarAction>,
))
    ensures
        final(store).file() == old(store).file(),
        final(store).current() == after_patch(old(store).current(), patch@),
        r.0@ == applied(old(store).current(), patch@),
        final(menubar).state == with_collapsed(old(menubar).state, r.0.collapsed),
        r.1@ == sync_actions(old(menubar).state, r.0@),
{
    let new_cfg = apply(store, patch);
    let actions = show_config(menubar, &new_cfg);
    (new_cfg, actions)
}

/// Brings the menu bar in line with the configuration `cfg`: the toggle shown or hidden
/// as it says, then the icons stashed or shown as it says.
pub fn show_config(menubar: &mut MenuBar, cfg: &Config) -> (actions: Vec<MenuBarAction>)
    ensures
        final(menubar).state == with_collapsed(old(menubar).state, cfg.collapsed),
        actions@ == sync_actions(old(menubar).state, cfg@),
        old(menubar).state is Some ==> actions@[0] == (MenuBarAction::SetToggleLength {
            length: if cfg.show_toggle_button { 28u32 } else { 0u32 },
        }),
{
    let mut actions = set_toggle_visible(menubar, cfg.show_toggle_button);
    let mut more = apply_collapsed(menubar, cfg.collapsed);
    actions.append(&mut more);
    actions
}

/// Records in the configuration a collapsed state that the menu bar reports, and
/// answers the configuration that results.
pub fn record_collapsed(store: &mut ConfigStore, collapsed: bool) -> (c: Config)
    ensures
        final(store).file() == old(store).file(),
        final(store).current() == after_patch(old(store).current(), collapsed_patch(collapsed)),
        c@ == applied(old(store).current(), collapsed_patch(collapsed)),
        old(store).current() matches Some(v) ==> c@ == (ConfigView { collapsed, ..v }),
{
    let patch = ConfigPatch { collapsed: Some(collapsed), show_toggle_button: None, hotkey: None };
    apply(store, patch)
}

/// Whether a window event hides the window rather than closing it: a close request on
/// the window labelled "main".
pub fn hides_instead_of_closing(close_requested: bool, label: &str) -> (b: bool)
    ensures
        b == (close_requested && label@ == "main"@),
{
    close_requested && same_text(label, "main")
}

/// Whether the accessibility permission is held. The status items use public API only,
/// so the answer is always yes.
pub fn has_accessibility() -> (b: bool)
    ensures
        b,
{
    true
}

/// Recording a collapsed state that the menu bar reports changes only the collapsed
/// field: the toggle's visibility and the hotkey stay as the user set them.
pub proof fn law_record_changes_only_collapsed(cur: Option<ConfigView>, collapsed: bool)
    ensures
        cur matches Some(v) ==> seen(after_patch(cur, collapsed_patch(collapsed))) == (ConfigView {
            collapsed,
            show_toggle_button: v.show_toggle_button,
            hotkey: v.hotkey,
        }),
        cur is None ==> after_patch(cur, collapsed_patch(collapsed)) is None,
{
}

/// Showing a configuration on the installed menu bar sets the toggle 28 points wide
/// exactly when the configuration shows it (0 otherwise), whatever its collapsed state;
/// then the separator 10000 points wide and the title "▾" where it is collapsed, 1 point
/// and "▸" where it is not; then the notice, where a listener is attached.
pub proof fn law_show_config_actions(st: MenuBarState, c: ConfigView)
    ensures
        sync_actions(Some(st), c) == seq![
            MenuBarAction::SetToggleLength { length: if c.show_toggle_button { 28u32 } else { 0u32 } },
            MenuBarAction::SetSeparatorLength { length: if c.collapsed { 10000u32 } else { 1u32 } },
            MenuBarAction::SetToggleGlyph {
                glyph: if c.collapsed { ToggleGlyph::Expand } else { ToggleGlyph::Collapse },
            },
        ] + if st.has_listener {
            seq![MenuBarAction::NotifyCollapsed { collapsed: c.collapsed }]
        } else {
            Seq::<MenuBarAction>::empty()
        },
{
    let a = sync_actions(Some(st), c);
    let b = seq![
        MenuBarAction::SetToggleLength { length: if c.show_toggle_button { 28u32 } else { 0u32 } },
        MenuBarAction::SetSeparatorLength { length: if c.collapsed { 10000u32 } else { 1u32 } },
        MenuBarAction::SetToggleGlyph {
            glyph: if c.collapsed { ToggleGlyph::Expand } else { ToggleGlyph::Collapse },
        },
    ] + if st.has_listener {
        seq![MenuBarAction::NotifyCollapsed { collapsed: c.collapsed }]
    } else {
        Seq::<MenuBarAction>::empty()
    };
    assert(a =~= b);
}

/// After a patch from the preferences window, the menu bar (once installed) shows the
/// collapsed state that the configuration holds, and the configuration read back is the
/// one answered.
pub proof fn law_update_keeps_menu_bar_in_line(
    cur: Option<ConfigView>,
    s: Option<MenuBarState>,
    p: ConfigPatchView,
)
    requires
        s is Some,
    ensures
        collapsed_of(with_collapsed(s, applied(cur, p).collapsed)) == seen(after_patch(cur, p)).collapsed,
{
}

/// When the menu bar reports a new collapsed state and it is recorded, the configuration
/// (once initialised) holds the state that the menu bar shows.
pub proof fn law_recorded_state_matches_menu_bar(
    cur: Option<ConfigView>,
    s: Option<MenuBarState>,
    collapsed: bool,
)
    requires
        cur is Some,
        s is Some,
    ensures
        seen(after_patch(cur, collapsed_patch(collapsed))).collapsed == collapsed_of(
            with_collapsed(s, collapsed),
        ),
{
}

} // verus!
