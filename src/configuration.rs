//! Settings the client starts from. Loading them from disk happens outside
//! the library; these are the values once read.
use vstd::prelude::*;

verus! {

/// The whole set of settings.
pub struct Configuration {
    pub provider: String,
    pub provider_opts: ProviderOpts,
    pub tools: Option<ToolOptions>,
}

/// Settings of each backend.
pub struct ProviderOpts {
    pub gemini: GeminiProviderOpts,
}

/// Where a backend reached over the network lives and which model it runs.
pub struct OnlineProviderOpts {
    pub url: String,
    pub model: String,
}

/// Defaults of the capability flags.
pub struct ToolOptions {
    pub search_default: Option<bool>,
}

/// Settings of the Gemini backend.
pub struct GeminiProviderOpts {
    pub online_opts: OnlineProviderOpts,
}

/// Holder of the settings in force.
pub struct ConfigManager {
    pub config: Configuration,
}

/// The search default that `config` gives: off unless it says on.
pub open spec fn search_default_of(config: &Configuration) -> bool {
    match config.tools {
        Some(t) => t.search_default == Some(true),
        None => false,
    }
}

impl ConfigManager {
    /// Wraps settings that have already been read.
    pub fn from_config(config: Configuration) -> (r: ConfigManager)
        ensures
            r.config == config,
    {
        ConfigManager { config }
    }
}

} // verus!
