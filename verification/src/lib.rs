pub mod config;
pub mod format;
pub mod plugin;

pub use plugin::PluginInfo;
pub use plugin::StyluaPluginHandler;

pub use config::CallParentheses;
pub use config::CollapsePolicy;
pub use config::ConfigEntry;
pub use config::ConfigValue;
pub use config::NewLineKind;
pub use config::QuotePreference;
pub use config::RawConfig;
