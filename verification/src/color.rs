//! Colorspaces.

use vstd::prelude::*;
use vstd::string::*;
use crate::error::UnknownColorspace;
use crate::text::str_eq;

verus! {

/// Colorspace identifier.
#[derive(Debug, PartialEq, Eq, Structural, Clone, Copy, Hash)]
pub enum Colorspace {
    /// Default RGBA colorspace.
    RGBA,
}

/// The colorspace that a name stands for.
pub open spec fn colorspace_named(name: Seq<char>) -> Option<Colorspace> {
    if name == "RGBA"@ {
        Some(Colorspace::RGBA)
    } else {
        None
    }
}

impl Colorspace {
    /// Reads a colorspace from its name. Any other text is refused, and
    /// given back in the error.
    pub fn try_from(value: &str) -> (r: Result<Colorspace, UnknownColorspace>)
        ensures
            match r {
                Ok(colorspace) => colorspace_named(value@) == Some(colorspace),
                Err(e) => colorspace_named(value@).is_none() && e.0@ == value@,
            },
    {
        if str_eq(value, "RGBA") {
            Ok(Colorspace::RGBA)
        } else {
            Err(UnknownColorspace(value.to_owned()))
        }
    }

    /// The name of the colorspace.
    pub fn name(self) -> (name: &'static str)
        ensures
            colorspace_named(name@) == Some(self),
    {
        match self {
            Colorspace::RGBA => "RGBA",
        }
    }
}

impl Default for Colorspace {
    fn default() -> (colorspace: Colorspace)
        ensures
            colorspace == Colorspace::RGBA,
    {
        Colorspace::RGBA
    }
}

} // verus!
