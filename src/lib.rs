//! Renders window descriptors as text: tables, CSV, one-line and multi-line
//! summaries, and user templates. The structured-document formats (JSON and YAML)
//! take the encoder's output as an argument and fall back to a fixed document when
//! the encoder failed.
use vstd::prelude::*;

pub mod formatter;
pub mod laws;
pub mod models;
pub mod prelude;
pub mod text;

pub use formatter::{
    FormatConfig, OutputFormat, TemplateFormat, WindowFormatter, WindowListFormat,
};
pub use models::{WindowInfo, WindowInfoBuilder, WindowPosition};

verus! {

use crate::formatter::{config_for, window_text};

impl WindowInfo {
    /// Format this window according to the configuration; `document` is what the
    /// structured-document encoder made of it (`None` where it failed).
    pub fn format(&self, config: &FormatConfig, document: Option<String>) -> (r: String)
        ensures
            r@ == window_text(*self, *config, document),
    {
        WindowFormatter::format_window(self, config, document)
    }

    /// Format this window in `format` with the default settings.
    pub fn format_with(&self, format: OutputFormat, document: Option<String>) -> (r: String)
        ensures
            r@ == window_text(*self, config_for(format), document),
    {
        let config = FormatConfig { format, ..FormatConfig::default() };
        self.format(&config, document)
    }
}

} // verus!
