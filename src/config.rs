use crate::history::{truncated, ClipboardHistory};
use vstd::prelude::*;

verus! {

/// User settings: whether the application starts with the session, and how
/// many clipboard entries the history keeps.
#[derive(Debug, Clone, Copy, PartialEq, Eq, Structural)]
pub struct Config {
    pub autostart: bool,
    pub history_limit: usize,
}

impl Config {
    pub fn new(autostart: bool, history_limit: usize) -> (r: Self)
        ensures
            r.autostart == autostart,
            r.history_limit == history_limit,
    {
        Config { autostart, history_limit }
    }

    pub fn autostart(&self) -> (r: bool)
        ensures
            r == self.autostart,
    {
        self.autostart
    }

    pub fn history_limit(&self) -> (r: usize)
        ensures
            r == self.history_limit,
    {
        self.history_limit
    }
}

impl Default for Config {
    /// Autostart off and a history limit of zero.
    fn default() -> (r: Self)
        ensures
            r.autostart == false,
            r.history_limit == 0,
    {
        Config { autostart: false, history_limit: 0 }
    }
}

/// Applies `config` to the history: its capacity becomes the configured limit,
/// dropping the oldest entries that no longer fit. Returns whether autostart is
/// to be enabled (`true`) or disabled (`false`).
pub fn configure(config: &Config, store: &mut ClipboardHistory) -> (autostart: bool)
    requires
        old(store).wf(),
    ensures
        autostart == config.autostart,
        final(store).wf(),
        final(store).capacity() == config.history_limit,
        final(store).entries() == truncated(old(store).entries(), config.history_limit as nat),
{
    store.resize(config.history_limit);
    config.autostart
}

/// Replaces the current settings by `config` and applies them (see
/// `configure`). Returns whether autostart is to be enabled.
pub fn set_config(current: &mut Config, store: &mut ClipboardHistory, config: Config) -> (autostart:
    bool)
    requires
        old(store).wf(),
    ensures
        *final(current) == config,
        autostart == config.autostart,
        final(store).wf(),
        final(store).capacity() == config.history_limit,
        final(store).entries() == truncated(old(store).entries(), config.history_limit as nat),
{
    *current = config;
    configure(current, store)
}

/// A copy of the current settings.
pub fn get_config(current: &Config) -> (r: Config)
    ensures
        r == *current,
{
    *current
}

} // verus!
