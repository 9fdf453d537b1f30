//! The contents of `~/.basalto/config.toml`.
use vstd::prelude::*;

verus! {

/// The `[library]` section: where the personal library is kept.
pub struct Library {
    pub url: String,
    pub branch: String,
}

/// The `[core]` section: where the core itself is fetched from.
pub struct CoreConfig {
    pub source: String,
}

/// The optional `[tui]` section: where the terminal interface is fetched from.
pub struct TuiConfig {
    pub source: String,
}

/// The whole config file.
pub struct Config {
    pub library: Library,
    pub core: CoreConfig,
    pub tui: Option<TuiConfig>,
}

/// Returns the `[core]` section of a config.
pub fn read_core(config: Config) -> (core: CoreConfig)
    ensures
        core == config.core,
{
    config.core
}

} // verus!
