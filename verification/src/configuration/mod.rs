//! The plugin's configuration: the map it is given, the typed configuration it
//! resolves, and the resolution itself.

pub mod config_map;
pub mod resolve_config;
pub mod types;
pub mod values;

pub use config_map::ConfigKeyMap;
pub use config_map::ConfigKeyValue;
pub use resolve_config::resolve_config;
pub use types::AlignOption;
pub use types::Configuration;
pub use types::ConfigurationDiagnostic;
pub use types::DuplicateRule;
pub use types::DuplicatesOption;
pub use types::EscapeOption;
pub use types::FieldListOrBool;
pub use types::GenerateKeysOption;
pub use types::GlobalConfiguration;
pub use types::LineEnding;
pub use types::MergeOption;
pub use types::MergeStrategy;
pub use types::NewLineKind;
pub use types::ResolveConfigurationResult;
pub use types::WrapOption;
