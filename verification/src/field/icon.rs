//! Icons declared for the component, one variant per `type` attribute.

use vstd::prelude::*;
use crate::text::str_eq;

verus! {

/// One declared icon, selected by the `type` attribute of its element.
#[derive(Clone, Debug, Eq, Hash, PartialEq)]
pub enum Icon {
    /// A stock icon referenced by symbolic name.
    Stock { id: String },
    /// An icon cached under a plain name.
    Cached { name: String },
    /// A local file, optionally with its size.
    Local { path: String, width: Option<u32>, height: Option<u32> },
    /// A remote resource, optionally with its size.
    Remote { url: String, width: Option<u32>, height: Option<u32> },
}

impl Icon {
    /// Builds the icon variant selected by the `type` attribute: `stock` and
    /// `cached` icons take no size attributes, `local` and `remote` icons may
    /// carry a width and a height; any other type is rejected.
    pub fn construct(kind: &str, value: String, width: Option<u32>, height: Option<u32>) -> (r:
        Result<Icon, ParseError>)
        ensures
            match r {
                Ok(icon) => match icon {
                    Icon::Stock { id } => kind@ == "stock"@ && id@ == value@ && width is None
                        && height is None,
                    Icon::Cached { name } => kind@ == "cached"@ && name@ == value@
                        && width is None && height is None,
                    Icon::Local { path, width: w, height: h } => kind@ == "local"@
                        && path@ == value@ && w == width && h == height,
                    Icon::Remote { url, width: w, height: h } => kind@ == "remote"@
                        && url@ == value@ && w == width && h == height,
                },
                Err(ParseError::UnexpectedAttribute { field, value: v }) => {
                    &&& kind@ == "stock"@ || kind@ == "cached"@
                    &&& v@ == kind@
                    &&& (field@ == "width"@ && width is Some) || (field@ == "height"@
                        && width is None && height is Some)
                },
                Err(ParseError::InvalidType(t)) => t@ == kind@ && kind@ != "stock"@
                    && kind@ != "cached"@ && kind@ != "local"@ && kind@ != "remote"@,
            },
    {
        if str_eq(kind, "stock") || str_eq(kind, "cached") {
            if width.is_some() {
                return Err(ParseError::UnexpectedAttribute {
                    field: String::from_str("width"),
                    value: kind.to_owned(),
                });
            }
            if height.is_some() {
                return Err(ParseError::UnexpectedAttribute {
                    field: String::from_str("height"),
                    value: kind.to_owned(),
                });
            }
            if str_eq(kind, "stock") {
                Ok(Icon::Stock { id: value })
            } else {
                Ok(Icon::Cached { name: value })
            }
        } else if str_eq(kind, "local") {
            Ok(Icon::Local { path: value, width, height })
        } else if str_eq(kind, "remote") {
            Ok(Icon::Remote { url: value, width, height })
        } else {
            Err(ParseError::InvalidType(kind.to_owned()))
        }
    }
}

/// What icon validation rejects.
#[derive(Clone, Debug, Eq, Hash, PartialEq)]
pub enum ParseError {
    /// An attribute the selected icon type does not take; carries the
    /// attribute name and the icon type.
    UnexpectedAttribute { field: String, value: String },
    /// An unrecognized `type` attribute; carries its text.
    InvalidType(String),
}

} // verus!
