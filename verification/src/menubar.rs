//! The two status items that stash menu-bar icons: a separator that widens to push the
//! icons on its left off screen, and a toggle button. This module holds the model that
//! the logic reads (installed or not, collapsed or not, whether a listener is attached)
//! and answers each operation with the status-bar changes to perform, in order.
use vstd::prelude::*;

verus! {

/// Width of the separator while the icons are shown, in points.
pub const SEPARATOR_EXPANDED_LENGTH: u32 = 1;

/// Width of the separator while the icons are stashed, in points: wide enough to push
/// every item on its left off screen.
pub const SEPARATOR_COLLAPSED_LENGTH: u32 = 10000;

/// Width of the toggle button while it is shown, in points.
pub const TOGGLE_VISIBLE_LENGTH: u32 = 28;

/// Width of the toggle button while it is hidden, in points.
pub const TOGGLE_HIDDEN_LENGTH: u32 = 0;

/// The title of the toggle button, which shows what a click will do.
#[derive(Clone, Copy, PartialEq, Eq, Structural, Debug)]
pub enum ToggleGlyph {
    /// "▸": a click stashes the icons (shown while expanded).
    Collapse,
    /// "▾": a click brings the icons back (shown while collapsed).
    Expand,
}

/// One change to the status bar, or the notice to the listener.
#[derive(Clone, Copy, PartialEq, Eq, Structural, Debug)]
pub enum MenuBarAction {
    /// Create the separator item with this width, the title [`separator_title`] and the
    /// autosave name [`autosave_name`] of [`StatusItemKind::Separator`].
    CreateSeparator { length: u32 },
    /// Create the toggle item with this width and title, the autosave name
    /// [`autosave_name`] of [`StatusItemKind::Toggle`] and its click target.
    CreateToggle { length: u32, glyph: ToggleGlyph },
    /// Set the width of the separator.
    SetSeparatorLength { length: u32 },
    /// Set the width of the toggle button.
    SetToggleLength { length: u32 },
    /// Set the title of the toggle button (where it has a button).
    SetToggleGlyph { glyph: ToggleGlyph },
    /// Tell the listener the new collapsed state.
    NotifyCollapsed { collapsed: bool },
}

/// What the logic reads of installed status items.
#[derive(Clone, Copy, PartialEq, Eq, Structural, Debug)]
pub struct MenuBarState {
    pub collapsed: bool,
    pub has_listener: bool,
}

/// The status-bar slot: empty until [`install`] fills it, once.
pub struct MenuBar {
    pub state: Option<MenuBarState>,
}

/// The separator width for a collapsed state.
pub open spec fn separator_length(collapsed: bool) -> u32 {
    if collapsed {
        SEPARATOR_COLLAPSED_LENGTH
    } else {
        SEPARATOR_EXPANDED_LENGTH
    }
}

/// The toggle width for a visibility.
pub open spec fn toggle_length(visible: bool) -> u32 {
    if visible {
        TOGGLE_VISIBLE_LENGTH
    } else {
        TOGGLE_HIDDEN_LENGTH
    }
}

/// The toggle title for a collapsed state.
pub open spec fn toggle_glyph(collapsed: bool) -> ToggleGlyph {
    if collapsed {
        ToggleGlyph::Expand
    } else {
        ToggleGlyph::Collapse
    }
}

/// The changes that show the collapsed state `collapsed`, then the notice where a
/// listener is attached.
pub open spec fn collapse_actions(collapsed: bool, has_listener: bool) -> Seq<MenuBarAction> {
    seq![
        MenuBarAction::SetSeparatorLength { length: separator_length(collapsed) },
        MenuBarAction::SetToggleGlyph { glyph: toggle_glyph(collapsed) },
    ] + if has_listener {
        seq![MenuBarAction::NotifyCollapsed { collapsed }]
    } else {
        Seq::<MenuBarAction>::empty()
    }
}

/// Whether the slot `s` shows the icons stashed: never before installation.
pub open spec fn collapsed_of(s: Option<MenuBarState>) -> bool {
    match s {
        Some(st) => st.collapsed,
        None => false,
    }
}

/// The slot `s` with the collapsed state `collapsed` recorded, where it is installed.
pub open spec fn with_collapsed(s: Option<MenuBarState>, collapsed: bool) -> Option<MenuBarState> {
    match s {
        Some(st) => Some(MenuBarState { collapsed, ..st }),
        None => None,
    }
}

/// The changes that recording `collapsed` in the slot `s` makes: none before
/// installation.
pub open spec fn actions_for(s: Option<MenuBarState>, collapsed: bool) -> Seq<MenuBarAction> {
    match s {
        Some(st) => collapse_actions(collapsed, st.has_listener),
        None => Seq::<MenuBarAction>::empty(),
    }
}

/// The changes that show or hide the toggle on the slot `s`: none before installation.
pub open spec fn toggle_actions(s: Option<MenuBarState>, visible: bool) -> Seq<MenuBarAction> {
    if s is Some {
        seq![MenuBarAction::SetToggleLength { length: toggle_length(visible) }]
    } else {
        Seq::<MenuBarAction>::empty()
    }
}

/// The state an installation keeps: the one already recorded, else a fresh expanded one
/// with or without a listener; collapsed afterwards where `initial_collapsed` holds.
pub open spec fn installed_state(
    s: Option<MenuBarState>,
    initial_collapsed: bool,
    has_listener: bool,
) -> Option<MenuBarState> {
    let s0 = match s {
        Some(st) => st,
        None => MenuBarState { collapsed: false, has_listener },
    };
    Some(
        if initial_collapsed {
            MenuBarState { collapsed: true, ..s0 }
        } else {
            s0
        },
    )
}

/// The changes an installation makes: create the separator (expanded) and the toggle
/// (shown or hidden, titled "▸"), then, where `initial_collapsed` holds, those that
/// record the collapsed state.
pub open spec fn install_actions(
    s: Option<MenuBarState>,
    show_toggle_button: bool,
    initial_collapsed: bool,
    has_listener: bool,
) -> Seq<MenuBarAction> {
    let s0 = match s {
        Some(st) => st,
        None => MenuBarState { collapsed: false, has_listener },
    };
    seq![
        MenuBarAction::CreateSeparator { length: SEPARATOR_EXPANDED_LENGTH },
        MenuBarAction::CreateToggle {
            length: toggle_length(show_toggle_button),
            glyph: ToggleGlyph::Collapse,
        },
    ] + if initial_collapsed {
        collapse_actions(true, s0.has_listener)
    } else {
        Seq::<MenuBarAction>::empty()
    }
}

/// One of the two status items.
#[derive(Clone, Copy, PartialEq, Eq, Structural, Debug)]
pub enum StatusItemKind {
    /// The separator that widens to stash the icons on its left.
    Separator,
    /// The toggle button.
    Toggle,
}

/// The autosave name of a status item, under which the system keeps its position (as
/// the user ⌘-drags it) across launches.
pub fn autosave_name(kind: StatusItemKind) -> (s: &'static str)
    ensures
        s@ == match kind {
            StatusItemKind::Separator => "com.tuntun.menubar.separator"@,
            StatusItemKind::Toggle => "com.tuntun.menubar.toggle"@,
        },
{
    match kind {
        StatusItemKind::Separator => "com.tuntun.menubar.separator",
        StatusItemKind::Toggle => "com.tuntun.menubar.toggle",
    }
}

/// The title the separator is created with: empty.
pub fn separator_title() -> (s: &'static str)
    ensures
        s@ == Seq::<char>::empty(),
{
    proof {
        reveal_strlit("");
    }
    ""
}

/// The text of a toggle title.
pub fn glyph_text(g: ToggleGlyph) -> (s: &'static str)
    ensures
        s@ == match g {
            ToggleGlyph::Collapse => "▸"@,
            ToggleGlyph::Expand => "▾"@,
        },
{
    match g {
        ToggleGlyph::Collapse => "▸",
        ToggleGlyph::Expand => "▾",
    }
}

impl MenuBar {
    /// An empty slot: nothing installed.
    pub fn new() -> (m: MenuBar)
        ensures
            m.state is None,
    {
        MenuBar { state: None }
    }
}

/// Whether the icons are stashed; `false` before installation.
pub fn is_collapsed(menubar: &MenuBar) -> (b: bool)
    ensures
        b == collapsed_of(menubar.state),
{
    match &menubar.state {
        Some(s) => s.collapsed,
        None => false,
    }
}

/// Shows the collapsed state `collapsed`: records it, widens or narrows the separator,
/// retitles the toggle and notifies the listener. Before installation nothing happens.
pub fn apply_collapsed(menubar: &mut MenuBar, collapsed: bool) -> (actions: Vec<MenuBarAction>)
    ensures
        final(menubar).state == with_collapsed(old(menubar).state, collapsed),
        actions@ == actions_for(old(menubar).state, collapsed),
        old(menubar).state matches Some(st) ==> final(menubar).state == Some(
            MenuBarState { collapsed, has_listener: st.has_listener },
        ),
{
    let mut actions: Vec<MenuBarAction> = Vec::new();
    match &mut menubar.state {
        Some(s) => {
            s.collapsed = collapsed;
            let length = if collapsed {
                SEPARATOR_COLLAPSED_LENGTH
            } else {
                SEPARATOR_EXPANDED_LENGTH
            };
            actions.push(MenuBarAction::SetSeparatorLength { length });
            let glyph = if collapsed {
                ToggleGlyph::Expand
            } else {
                ToggleGlyph::Collapse
            };
            actions.push(MenuBarAction::SetToggleGlyph { glyph });
            if s.has_listener {
                actions.push(MenuBarAction::NotifyCollapsed { collapsed });
            }
        },
        None => {},
    }
    actions
}

/// Shows or hides the toggle button. Before installation nothing happens.
pub fn set_toggle_visible(menubar: &MenuBar, visible: bool) -> (actions: Vec<MenuBarAction>)
    ensures
        actions@ == toggle_actions(menubar.state, visible),
{
    let mut actions: Vec<MenuBarAction> = Vec::new();
    if menubar.state.is_some() {
        let length = if visible {
            TOGGLE_VISIBLE_LENGTH
        } else {
            TOGGLE_HIDDEN_LENGTH
        };
        actions.push(MenuBarAction::SetToggleLength { length });
    }
    actions
}

/// Creates the separator (expanded) and the toggle (shown or hidden, titled "▸"), and
/// records the state, not collapsed, with or without a listener. A slot that is already
/// filled keeps its state; the items are created all the same. Where `initial_collapsed`
/// holds, the recorded state is then collapsed as [`apply_collapsed`] does.
pub fn install(
    menubar: &mut MenuBar,
    show_toggle_button: bool,
    initial_collapsed: bool,
    has_listener: bool,
) -> (actions: Vec<MenuBarAction>)
    ensures
        final(menubar).state == installed_state(old(menubar).state, initial_collapsed, has_listener),
        actions@[0] == (MenuBarAction::CreateSeparator { length: 1 }),
        actions@[1] == (MenuBarAction::CreateToggle {
            length: if show_toggle_button { 28u32 } else { 0u32 },
            glyph: ToggleGlyph::Collapse,
        }),
        actions@ == install_actions(
            old(menubar).state,
            show_toggle_button,
            initial_collapsed,
            has_listener,
        ),
{
    let mut actions: Vec<MenuBarAction> = Vec::new();
    actions.push(MenuBarAction::CreateSeparator { length: SEPARATOR_EXPANDED_LENGTH });
    let toggle_len = if show_toggle_button {
        TOGGLE_VISIBLE_LENGTH
    } else {
        TOGGLE_HIDDEN_LENGTH
    };
    actions.push(MenuBarAction::CreateToggle { length: toggle_len, glyph: ToggleGlyph::Collapse });
    if menubar.state.is_none() {
        menubar.state = Some(MenuBarState { collapsed: false, has_listener });
    }
    if initial_collapsed {
        let mut more = apply_collapsed(menubar, true);
        actions.append(&mut more);
    }
    actions
}

/// Flips the collapsed state (see [`apply_collapsed`]); before installation nothing
/// happens.
pub fn toggle_from_anywhere(menubar: &mut MenuBar) -> (actions: Vec<MenuBarAction>)
    ensures
        final(menubar).state == with_collapsed(old(menubar).state, !collapsed_of(old(menubar).state)),
        actions@ == actions_for(old(menubar).state, !collapsed_of(old(menubar).state)),
{
    let now = !is_collapsed(menubar);
    apply_collapsed(menubar, now)
}

/// After recording a collapsed state, it is what is read back; before installation
/// nothing is recorded and the icons read as shown.
pub proof fn law_read_after_apply_collapsed(s: Option<MenuBarState>, collapsed: bool)
    ensures
        s is Some ==> collapsed_of(with_collapsed(s, collapsed)) == collapsed,
        s is None ==> with_collapsed(s, collapsed) is None && !collapsed_of(with_collapsed(s, collapsed)),
{
}

/// Toggling twice restores the state, and each toggle flips what is read back.
pub proof fn law_toggle_twice(s: Option<MenuBarState>)
    ensures
        ({
            let once = with_collapsed(s, !collapsed_of(s));
            &&& s is Some ==> collapsed_of(once) == !collapsed_of(s)
            &&& with_collapsed(once, !collapsed_of(once)) == s
        }),
{
}

/// Every change that records a state leaves the separator at the width of that state
/// and the toggle titled for it: stretched and "▾" while collapsed, one point and "▸"
/// while expanded.
pub proof fn law_items_follow_state(collapsed: bool, has_listener: bool)
    ensures
        ({
            let a = collapse_actions(collapsed, has_listener);
            &&& a[0] == MenuBarAction::SetSeparatorLength {
                length: if collapsed { SEPARATOR_COLLAPSED_LENGTH } else { SEPARATOR_EXPANDED_LENGTH },
            }
            &&& a[1] == MenuBarAction::SetToggleGlyph {
                glyph: if collapsed { ToggleGlyph::Expand } else { ToggleGlyph::Collapse },
            }
            &&& a.len() == if has_listener { 3int } else { 2int }
            &&& has_listener ==> a[2] == MenuBarAction::NotifyCollapsed { collapsed }
        }),
{
}

/// What the status bar shows of installed items.
#[derive(Clone, Copy, PartialEq, Eq, Structural, Debug)]
pub struct ShownItems {
    pub separator_length: u32,
    pub toggle_length: u32,
    pub glyph: ToggleGlyph,
}

/// The status bar as the changes leave it: the items kept (those of the first
/// installation), and a separator just created whose toggle is still to come.
#[derive(Clone, Copy, PartialEq, Eq, Structural, Debug)]
pub struct StatusBarScreen {
    pub items: Option<ShownItems>,
    pub pending_separator: Option<u32>,
}

/// The status bar before anything is installed.
pub open spec fn empty_screen() -> StatusBarScreen {
    StatusBarScreen { items: None, pending_separator: None }
}

/// The status bar after one change. A separator and the toggle created after it become
/// the items where none are kept yet; otherwise they are discarded. Settings change the
/// kept items, where there are any; a notice changes nothing.
pub open spec fn screen_step(sc: StatusBarScreen, a: MenuBarAction) -> StatusBarScreen {
    match a {
        MenuBarAction::CreateSeparator { length } => StatusBarScreen {
            pending_separator: Some(length),
            ..sc
        },
        MenuBarAction::CreateToggle { length, glyph } => StatusBarScreen {
            items: match (sc.items, sc.pending_separator) {
                (None, Some(sep)) => Some(
                    ShownItems { separator_length: sep, toggle_length: length, glyph },
                ),
                _ => sc.items,
            },
            pending_separator: None,
        },
        MenuBarAction::SetSeparatorLength { length } => StatusBarScreen {
            items: match sc.items {
                Some(it) => Some(ShownItems { separator_length: length, ..it }),
                None => None,
            },
            ..sc
        },
        MenuBarAction::SetToggleLength { length } => StatusBarScreen {
            items: match sc.items {
                Some(it) => Some(ShownItems { toggle_length: length, ..it }),
                None => None,
            },
            ..sc
        },
        MenuBarAction::SetToggleGlyph { glyph } => StatusBarScreen {
            items: match sc.items {
                Some(it) => Some(ShownItems { glyph, ..it }),
                None => None,
            },
            ..sc
        },
        MenuBarAction::NotifyCollapsed { .. } => sc,
    }
}

/// The status bar after the changes `a`, in order.
pub open spec fn screen_after(sc: StatusBarScreen, a: Seq<MenuBarAction>) -> StatusBarScreen
    decreases a.len(),
{
    if a.len() == 0 {
        sc
    } else {
        screen_step(screen_after(sc, a.drop_last()), a.last())
    }
}

/// The model and the status bar agree: items are shown exactly when installed, and then
/// the separator is 10000 points wide and the toggle titled "▾" exactly when collapsed,
/// 1 point wide and titled "▸" exactly when not, and the toggle is 28 or 0 points wide.
pub open spec fn agrees(s: Option<MenuBarState>, sc: StatusBarScreen) -> bool {
    &&& sc.pending_separator is None
    &&& match (s, sc.items) {
        (Some(st), Some(it)) => {
            &&& (st.collapsed <==> it.separator_length == SEPARATOR_COLLAPSED_LENGTH)
            &&& (st.collapsed <==> it.glyph == ToggleGlyph::Expand)
            &&& (!st.collapsed <==> it.separator_length == SEPARATOR_EXPANDED_LENGTH)
            &&& (!st.collapsed <==> it.glyph == ToggleGlyph::Collapse)
            &&& (it.toggle_length == TOGGLE_VISIBLE_LENGTH || it.toggle_length
                == TOGGLE_HIDDEN_LENGTH)
        },
        (None, None) => true,
        _ => false,
    }
}

/// An operation on the status items.
#[derive(Clone, Copy, PartialEq, Eq, Structural, Debug)]
pub enum MenuBarOp {
    /// [`install`].
    Install { show_toggle_button: bool, initial_collapsed: bool, has_listener: bool },
    /// [`apply_collapsed`].
    ApplyCollapsed { collapsed: bool },
    /// [`set_toggle_visible`].
    SetToggleVisible { visible: bool },
    /// [`toggle_from_anywhere`]: the hotkey, the tray entry or a click on the toggle.
    Toggle,
    /// The toggle shown or hidden, then the collapsed state recorded, as a patch from the
    /// preferences window does.
    ShowConfig { show_toggle_button: bool, collapsed: bool },
}

/// The state an operation leaves, as the operation's contract states it.
pub open spec fn state_after_op(s: Option<MenuBarState>, op: MenuBarOp) -> Option<MenuBarState> {
    match op {
        MenuBarOp::Install { initial_collapsed, has_listener, .. } => installed_state(
            s,
            initial_collapsed,
            has_listener,
        ),
        MenuBarOp::ApplyCollapsed { collapsed } => with_collapsed(s, collapsed),
        MenuBarOp::SetToggleVisible { .. } => s,
        MenuBarOp::Toggle => with_collapsed(s, !collapsed_of(s)),
        MenuBarOp::ShowConfig { collapsed, .. } => with_collapsed(s, collapsed),
    }
}

/// The changes an operation answers, as the operation's contract states them.
pub open spec fn actions_of_op(s: Option<MenuBarState>, op: MenuBarOp) -> Seq<MenuBarAction> {
    match op {
        MenuBarOp::Install { show_toggle_button, initial_collapsed, has_listener } => install_actions(
            s,
            show_toggle_button,
            initial_collapsed,
            has_listener,
        ),
        MenuBarOp::ApplyCollapsed { collapsed } => actions_for(s, collapsed),
        MenuBarOp::SetToggleVisible { visible } => toggle_actions(s, visible),
        MenuBarOp::Toggle => actions_for(s, !collapsed_of(s)),
        MenuBarOp::ShowConfig { show_toggle_button, collapsed } => toggle_actions(
            s,
            show_toggle_button,
        ) + actions_for(s, collapsed),
    }
}

/// The model and the status bar after the operations `ops`, in order, from nothing
/// installed and an empty status bar, each change carried out as it is answered.
pub open spec fn run_ops(ops: Seq<MenuBarOp>) -> (Option<MenuBarState>, StatusBarScreen)
    decreases ops.len(),
{
    if ops.len() == 0 {
        (None, empty_screen())
    } else {
        let (s, sc) = run_ops(ops.drop_last());
        (state_after_op(s, ops.last()), screen_after(sc, actions_of_op(s, ops.last())))
    }
}

/// Carrying out two lists of changes is carrying out the first, then the second.
pub proof fn lemma_screen_after_concat(sc: StatusBarScreen, a: Seq<MenuBarAction>, b: Seq<MenuBarAction>)
    ensures
        screen_after(sc, a + b) == screen_after(screen_after(sc, a), b),
    decreases b.len(),
{
    if b.len() == 0 {
        assert(a + b =~= a);
    } else {
        assert((a + b).drop_last() =~= a + b.drop_last());
        assert((a + b).last() == b.last());
        lemma_screen_after_concat(sc, a, b.drop_last());
    }
}

/// Carrying out one more change is one more step.
proof fn lemma_screen_after_push(sc: StatusBarScreen, a: Seq<MenuBarAction>, x: MenuBarAction)
    ensures
        screen_after(sc, a.push(x)) == screen_step(screen_after(sc, a), x),
{
    assert(a.push(x).drop_last() =~= a);
}

/// Carrying out one change is one step; carrying out none changes nothing.
proof fn lemma_screen_after_one(sc: StatusBarScreen, x: MenuBarAction)
    ensures
        screen_after(sc, seq![x]) == screen_step(sc, x),
        screen_after(sc, Seq::<MenuBarAction>::empty()) == sc,
{
    let e = Seq::<MenuBarAction>::empty();
    lemma_screen_after_push(sc, e, x);
    assert(e.push(x) =~= seq![x]);
}

/// Carrying out two changes is two steps.
proof fn lemma_screen_after_two(sc: StatusBarScreen, x: MenuBarAction, y: MenuBarAction)
    ensures
        screen_after(sc, seq![x, y]) == screen_step(screen_step(sc, x), y),
{
    lemma_screen_after_one(sc, x);
    lemma_screen_after_push(sc, seq![x], y);
    assert(seq![x].push(y) =~= seq![x, y]);
}

/// Recording `collapsed` sets the kept separator and title to that state and touches
/// nothing else.
proof fn lemma_collapse_effect(sc: StatusBarScreen, collapsed: bool, has_listener: bool)
    ensures
        screen_after(sc, collapse_actions(collapsed, has_listener)) == (StatusBarScreen {
            items: match sc.items {
                Some(it) => Some(
                    ShownItems {
                        separator_length: separator_length(collapsed),
                        glyph: toggle_glyph(collapsed),
                        ..it
                    },
                ),
                None => None,
            },
            ..sc
        }),
{
    let x = MenuBarAction::SetSeparatorLength { length: separator_length(collapsed) };
    let y = MenuBarAction::SetToggleGlyph { glyph: toggle_glyph(collapsed) };
    let n = MenuBarAction::NotifyCollapsed { collapsed };
    let rest = if has_listener {
        seq![n]
    } else {
        Seq::<MenuBarAction>::empty()
    };
    lemma_screen_after_concat(sc, seq![x, y], rest);
    lemma_screen_after_two(sc, x, y);
    lemma_screen_after_one(screen_after(sc, seq![x, y]), n);
}

/// Each operation keeps the model and the status bar in agreement.
pub proof fn law_op_keeps_agreement(s: Option<MenuBarState>, sc: StatusBarScreen, op: MenuBarOp)
    requires
        agrees(s, sc),
    ensures
        agrees(state_after_op(s, op), screen_after(sc, actions_of_op(s, op))),
{
    match op {
        MenuBarOp::Install { show_toggle_button, initial_collapsed, has_listener } => {
            let s0 = match s {
                Some(st) => st,
                None => MenuBarState { collapsed: false, has_listener },
            };
            let create = seq![
                MenuBarAction::CreateSeparator { length: SEPARATOR_EXPANDED_LENGTH },
                MenuBarAction::CreateToggle {
                    length: toggle_length(show_toggle_button),
                    glyph: ToggleGlyph::Collapse,
                },
            ];
            let rest = if initial_collapsed {
                collapse_actions(true, s0.has_listener)
            } else {
                Seq::<MenuBarAction>::empty()
            };
            lemma_screen_after_concat(sc, create, rest);
            lemma_screen_after_two(sc, create[0], create[1]);
            assert(create =~= seq![create[0], create[1]]);
            let mid = screen_after(sc, create);
            lemma_screen_after_one(mid, create[0]);
            assert(agrees(Some(s0), mid));
            if initial_collapsed {
                lemma_collapse_effect(mid, true, s0.has_listener);
            }
        },
        MenuBarOp::ApplyCollapsed { collapsed } => {
            if let Some(st) = s {
                lemma_collapse_effect(sc, collapsed, st.has_listener);
            }
        },
        MenuBarOp::SetToggleVisible { visible } => {
            lemma_screen_after_one(sc, MenuBarAction::SetToggleLength { length: toggle_length(visible) });
        },
        MenuBarOp::Toggle => {
            if let Some(st) = s {
                lemma_collapse_effect(sc, !st.collapsed, st.has_listener);
            }
        },
        MenuBarOp::ShowConfig { show_toggle_button, collapsed } => {
            let t = toggle_actions(s, show_toggle_button);
            lemma_screen_after_concat(sc, t, actions_for(s, collapsed));
            lemma_screen_after_one(
                sc,
                MenuBarAction::SetToggleLength { length: toggle_length(show_toggle_button) },
            );
            let mid = screen_after(sc, t);
            if let Some(st) = s {
                lemma_collapse_effect(mid, collapsed, st.has_listener);
            }
        },
    }
}

/// Over any sequence of operations (installations, collapsed states recorded, the
/// toggle shown or hidden, toggles, configurations shown), with every change carried out
/// as answered, the status bar agrees with the model: no items before the first
/// installation; after it, the icons read as stashed exactly when the separator is 10000
/// points wide and the toggle titled "▾", and as shown exactly when the separator is 1
/// point wide and the toggle titled "▸". A later installation's new items are discarded.
pub proof fn law_items_agree_over_any_run(ops: Seq<MenuBarOp>)
    ensures
        agrees(run_ops(ops).0, run_ops(ops).1),
    decreases ops.len(),
{
    if ops.len() > 0 {
        law_items_agree_over_any_run(ops.drop_last());
        let (s, sc) = run_ops(ops.drop_last());
        law_op_keeps_agreement(s, sc, ops.last());
    }
}

/// Recording a collapsed state sets only that state: the listener stays attached, so
/// every later change is reported as well.
pub proof fn law_listener_stays(s: Option<MenuBarState>, first: bool, then: bool)
    ensures
        s matches Some(st) ==> with_collapsed(s, first) == Some(
            MenuBarState { collapsed: first, has_listener: st.has_listener },
        ),
        s is None ==> with_collapsed(s, first) is None,
        actions_for(with_collapsed(s, first), then) == actions_for(s, then),
        s matches Some(st) ==> (actions_for(s, then).len() == 3 <==> st.has_listener),
        s matches Some(st) && st.has_listener ==> actions_for(s, then)[2]
            == (MenuBarAction::NotifyCollapsed { collapsed: then }),
{
}

/// Installing creates an expanded separator one point wide, then the toggle titled "▸",
/// 28 points wide exactly when it is to be shown and 0 otherwise, whatever the starting
/// state and the slot; an earlier installation's state and listener are kept; the state
/// is collapsed afterwards where asked, and stays as it was otherwise.
pub proof fn law_install_creates_as_asked(
    s: Option<MenuBarState>,
    show_toggle_button: bool,
    initial_collapsed: bool,
    has_listener: bool,
)
    ensures
        install_actions(s, show_toggle_button, initial_collapsed, has_listener)[0]
            == (MenuBarAction::CreateSeparator { length: 1 }),
        install_actions(s, show_toggle_button, initial_collapsed, has_listener)[1]
            == (MenuBarAction::CreateToggle {
            length: if show_toggle_button { 28u32 } else { 0u32 },
            glyph: ToggleGlyph::Collapse,
        }),
        installed_state(s, initial_collapsed, has_listener) == Some(
            MenuBarState {
                collapsed: initial_collapsed || (s matches Some(st) && st.collapsed),
                has_listener: match s {
                    Some(st) => st.has_listener,
                    None => has_listener,
                },
            },
        ),
{
}

} // verus!
