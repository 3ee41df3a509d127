//! The parameters of an export request and their defaults.

use vstd::prelude::*;
use vstd::string::StringExecFns;

verus! {

/// The parameters of one export request.
#[derive(Debug, PartialEq, Eq)]
pub struct ExportQuery {
    pub format: String,
    pub width: u32,
    pub height: u32,
}

/// The format that an export request without one asks for.
pub fn default_format() -> (format: String)
    ensures
        format@ == "svg"@,
{
    String::from_str("svg")
}

/// The canvas width, in pixels, of an export request that names none.
pub fn default_width() -> (width: u32)
    ensures
        width == 800,
{
    800
}

/// The canvas height, in pixels, of an export request that names none.
pub fn default_height() -> (height: u32)
    ensures
        height == 600,
{
    600
}

impl Default for ExportQuery {
    /// The request that names nothing: SVG at 800 by 600.
    fn default() -> (query: ExportQuery)
        ensures
            query.format@ == "svg"@,
            query.width == 800,
            query.height == 600,
    {
        ExportQuery { format: default_format(), width: default_width(), height: default_height() }
    }
}

} // verus!
