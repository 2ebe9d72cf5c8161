//! Configuration resolution and output shaping for a dprint plugin that formats
//! BibTeX files through bibtex-tidy.
//!
//! The library reads the plugin's configuration map into a typed
//! [`configuration::Configuration`], turns that configuration into the options
//! handed to bibtex-tidy, and applies the requested line endings to the text
//! that bibtex-tidy produces.

pub mod configuration;
pub mod format_text;
pub mod text;
