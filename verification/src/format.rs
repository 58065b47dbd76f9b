//! Output formats of the command line.

use vstd::prelude::*;

verus! {

/// How a command's result is rendered.
#[derive(Debug, Clone, Copy, PartialEq, Eq, Structural)]
pub enum OutputFormat {
    /// Indented JSON.
    Json,
    /// YAML.
    Yaml,
    /// JSON on one line.
    Minify,
}

impl Default for OutputFormat {
    fn default() -> (format: Self)
        ensures
            format == OutputFormat::Json,
    {
        OutputFormat::Json
    }
}

} // verus!
