//! The items most callers need, for a single glob import.
pub use crate::{
    FormatConfig, OutputFormat, TemplateFormat, WindowInfo, WindowListFormat, WindowPosition,
};
