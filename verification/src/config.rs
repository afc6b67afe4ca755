//! The persisted preferences and the store that holds them.
use std::path::PathBuf;
use vstd::prelude::*;

verus! {

/// `std::path::PathBuf`, carried through the store without being read.
#[verifier::external_type_specification]
#[verifier::external_body]
pub struct ExPathBuf(PathBuf);

/// The user's preferences.
#[derive(Debug)]
pub struct Config {
    pub collapsed: bool,
    pub show_toggle_button: bool,
    pub hotkey: String,
}

/// The mathematical value of a [`Config`].
pub struct ConfigView {
    pub collapsed: bool,
    pub show_toggle_button: bool,
    pub hotkey: Seq<char>,
}

impl View for Config {
    type V = ConfigView;

    open spec fn view(&self) -> ConfigView {
        ConfigView {
            collapsed: self.collapsed,
            show_toggle_button: self.show_toggle_button,
            hotkey: self.hotkey@,
        }
    }
}

/// The text of the hotkey a fresh configuration carries: Control, Option, H.
pub open spec fn default_hotkey_text() -> Seq<char> {
    "⌃⌥H"@
}

/// The configuration used when nothing was stored.
pub open spec fn default_config() -> ConfigView {
    ConfigView { collapsed: false, show_toggle_button: true, hotkey: default_hotkey_text() }
}

impl Clone for Config {
    fn clone(&self) -> (c: Config)
        ensures
            c@ == self@,
    {
        Config {
            collapsed: self.collapsed,
            show_toggle_button: self.show_toggle_button,
            hotkey: self.hotkey.clone(),
        }
    }
}

impl Default for Config {
    fn default() -> (c: Config)
        ensures
            c@ == default_config(),
    {
        Config {
            collapsed: false,
            show_toggle_button: true,
            hotkey: String::from_str("⌃⌥H"),
        }
    }
}

/// A partial update of a [`Config`]: each field that is `Some` replaces the stored one.
#[derive(Debug)]
pub struct ConfigPatch {
    pub collapsed: Option<bool>,
    pub show_toggle_button: Option<bool>,
    pub hotkey: Option<String>,
}

/// The mathematical value of a [`ConfigPatch`].
pub struct ConfigPatchView {
    pub collapsed: Option<bool>,
    pub show_toggle_button: Option<bool>,
    pub hotkey: Option<Seq<char>>,
}

impl View for ConfigPatch {
    type V = ConfigPatchView;

    open spec fn view(&self) -> ConfigPatchView {
        ConfigPatchView {
            collapsed: self.collapsed,
            show_toggle_button: self.show_toggle_button,
            hotkey: match self.hotkey {
                Some(h) => Some(h@),
                None => None,
            },
        }
    }
}

/// The patch that changes nothing.
pub open spec fn empty_patch() -> ConfigPatchView {
    ConfigPatchView { collapsed: None, show_toggle_button: None, hotkey: None }
}

impl Clone for ConfigPatch {
    fn clone(&self) -> (p: ConfigPatch)
        ensures
            p@ == self@,
    {
        ConfigPatch {
            collapsed: self.collapsed,
            show_toggle_button: self.show_toggle_button,
            hotkey: match &self.hotkey {
                Some(h) => Some(h.clone()),
                None => None,
            },
        }
    }
}

impl Default for ConfigPatch {
    fn default() -> (p: ConfigPatch)
        ensures
            p@ == empty_patch(),
    {
        ConfigPatch { collapsed: None, show_toggle_button: None, hotkey: None }
    }
}

/// `c` with every field that `p` carries replaced by `p`'s value.
pub open spec fn patched(c: ConfigView, p: ConfigPatchView) -> ConfigView {
    ConfigView {
        collapsed: match p.collapsed {
            Some(v) => v,
            None => c.collapsed,
        },
        show_toggle_button: match p.show_toggle_button {
            Some(v) => v,
            None => c.show_toggle_button,
        },
        hotkey: match p.hotkey {
            Some(v) => v,
            None => c.hotkey,
        },
    }
}

/// What a reader sees of the slot `cur`: the configuration held, or the default.
pub open spec fn seen(cur: Option<ConfigView>) -> ConfigView {
    match cur {
        Some(v) => v,
        None => default_config(),
    }
}

/// The slot `cur` after the patch `p`: patched where it holds a configuration, else
/// still empty.
pub open spec fn after_patch(cur: Option<ConfigView>, p: ConfigPatchView) -> Option<ConfigView> {
    match cur {
        Some(v) => Some(patched(v, p)),
        None => None,
    }
}

/// What applying `p` to the slot `cur` answers: the patched configuration, or the
/// default where the slot is empty.
pub open spec fn applied(cur: Option<ConfigView>, p: ConfigPatchView) -> ConfigView {
    match cur {
        Some(v) => patched(v, p),
        None => default_config(),
    }
}

/// The file a store persists to, with the configuration it holds.
struct Store {
    path: PathBuf,
    cfg: Config,
}

/// The process-wide configuration slot: empty until [`init`] fills it, once.
pub struct ConfigStore {
    slot: Option<Store>,
}

impl ConfigStore {
    /// The configuration held, or `None` before initialisation.
    pub closed spec fn current(&self) -> Option<ConfigView> {
        match self.slot {
            Some(s) => Some(s.cfg@),
            None => None,
        }
    }

    /// The file the configuration is persisted to, or `None` before initialisation.
    pub closed spec fn file(&self) -> Option<PathBuf> {
        match self.slot {
            Some(s) => Some(s.path),
            None => None,
        }
    }

    /// An empty slot.
    pub fn new() -> (s: ConfigStore)
        ensures
            s.current() is None,
            s.file() is None,
    {
        ConfigStore { slot: None }
    }

    /// Whether [`init`] has filled the slot.
    pub fn is_initialized(&self) -> (b: bool)
        ensures
            b == self.current() is Some,
            b == self.file() is Some,
    {
        self.slot.is_some()
    }

    /// The file to persist to, once initialised.
    pub fn path(&self) -> (p: Option<&PathBuf>)
        ensures
            match p {
                Some(q) => self.file() == Some(*q),
                None => self.file() is None,
            },
    {
        match &self.slot {
            Some(s) => Some(&s.path),
            None => None,
        }
    }
}

/// Fills the slot with `path` and the configuration read from it (`loaded`, or the
/// default where nothing could be read). A slot that is already filled is kept as it is.
pub fn init(store: &mut ConfigStore, path: PathBuf, loaded: Option<Config>)
    ensures
        old(store).current() is Some ==> *final(store) == *old(store),
        old(store).current() is None ==> {
            &&& final(store).file() == Some(path)
            &&& final(store).current() == Some(
                match loaded {
                    Some(c) => c@,
                    None => default_config(),
                },
            )
        },
{
    if store.slot.is_none() {
        let cfg = match loaded {
            Some(c) => c,
            None => Config::default(),
        };
        store.slot = Some(Store { path, cfg });
    }
}

/// The configuration held, or the default before initialisation.
pub fn get(store: &ConfigStore) -> (c: Config)
    ensures
        c@ == seen(store.current()),
{
    match &store.slot {
        Some(s) => s.cfg.clone(),
        None => Config::default(),
    }
}

/// Applies `patch` to the held configuration and returns the result. Before
/// initialisation nothing is changed and the default is returned.
pub fn apply(store: &mut ConfigStore, patch: ConfigPatch) -> (c: Config)
    ensures
        final(store).file() == old(store).file(),
        final(store).current() == after_patch(old(store).current(), patch@),
        c@ == applied(old(store).current(), patch@),
        old(store).current() is None ==> *final(store) == *old(store),
{
    match &mut store.slot {
        Some(s) => {
            if let Some(v) = patch.collapsed {
                s.cfg.collapsed = v;
            }
            if let Some(v) = patch.show_toggle_button {
                s.cfg.show_toggle_button = v;
            }
            if let Some(v) = patch.hotkey {
                s.cfg.hotkey = v;
            }
            s.cfg.clone()
        },
        None => Config::default(),
    }
}

/// Reading the configuration after a patch gives back exactly what applying the patch
/// answered, whether or not the store was initialised.
pub proof fn law_read_after_apply(cur: Option<ConfigView>, p: ConfigPatchView)
    ensures
        seen(after_patch(cur, p)) == applied(cur, p),
{
}

/// Applying the same patch twice leaves the configuration as applying it once.
pub proof fn law_apply_idempotent(cur: Option<ConfigView>, p: ConfigPatchView)
    ensures
        after_patch(after_patch(cur, p), p) == after_patch(cur, p),
        applied(after_patch(cur, p), p) == applied(cur, p),
{
}

/// The empty patch changes nothing.
pub proof fn law_empty_patch(cur: Option<ConfigView>)
    ensures
        after_patch(cur, empty_patch()) == cur,
        applied(cur, empty_patch()) == seen(cur),
{
}

/// A patch sets the fields it carries and keeps every other field.
pub proof fn law_patch_fields(c: ConfigView, p: ConfigPatchView)
    ensures
        p.collapsed matches Some(v) ==> patched(c, p).collapsed == v,
        p.collapsed is None ==> patched(c, p).collapsed == c.collapsed,
        p.show_toggle_button matches Some(v) ==> patched(c, p).show_toggle_button == v,
        p.show_toggle_button is None ==> patched(c, p).show_toggle_button == c.show_toggle_button,
        p.hotkey matches Some(v) ==> patched(c, p).hotkey == v,
        p.hotkey is None ==> patched(c, p).hotkey == c.hotkey,
{
}

} // verus!
