//! The configuration that the components are given.

use crate::action::ActionView;
use crate::keys::{KeyBindings, KeyEvent};
use vstd::prelude::*;

verus! {

/// Where the application keeps its files.
#[derive(Clone, Debug)]
pub struct AppConfig {
    pub data_dir: String,
    pub config_dir: String,
}

impl Default for AppConfig {
    fn default() -> (r: AppConfig)
        ensures
            r.data_dir@ == Seq::<char>::empty(),
            r.config_dir@ == Seq::<char>::empty(),
    {
        AppConfig { data_dir: String::new(), config_dir: String::new() }
    }
}

/// The configuration: the key bindings.
pub struct Config {
    pub keybindings: KeyBindings,
}

impl Config {
    /// An owned copy of the configuration, with the same bindings.
    pub fn copy(&self) -> (r: Config)
        ensures
            r.keybindings@ == self.keybindings@,
    {
        Config { keybindings: self.keybindings.copy() }
    }

    /// The configuration that the application starts with.
    pub fn new() -> (r: Config)
        ensures
            r.keybindings@ == Map::<Seq<KeyEvent>, ActionView>::empty().insert(
                crate::keys::normalized_keys(seq![KeyEvent::spec_quit_key()]),
                ActionView::Quit,
            ),
    {
        Config { keybindings: KeyBindings::default() }
    }
}

} // verus!
