//! Column descriptions for the tabular renderer: a header text, the dotted
//! path of the field it shows, and whether it appears only in wide output.
//! The rendering itself happens outside the library.

use vstd::prelude::*;

verus! {

/// One column of a rendered table: header text, dotted field path, and
/// whether the column shows only in wide output.
pub struct Column {
    pub header: &'static str,
    pub path: &'static str,
    pub wide_only: bool,
}

impl Column {
    /// A column shown in every table format.
    pub fn new(header: &'static str, path: &'static str) -> (c: Self)
        ensures
            c.header == header,
            c.path == path,
            !c.wide_only,
    {
        Column { header, path, wide_only: false }
    }

    /// A column shown only in wide output.
    pub fn wide(header: &'static str, path: &'static str) -> (c: Self)
        ensures
            c.header == header,
            c.path == path,
            c.wide_only,
    {
        Column { header, path, wide_only: true }
    }
}

} // verus!
