//! The kind of software component a metadata document describes.

use vstd::prelude::*;
use crate::text::str_eq;

verus! {

#[derive(Clone, Debug, Eq, Hash, PartialEq)]
pub enum ComponentType {
    DesktopApp,
    ConsoleApp,
    WebApp,
    Service,
    Addon,
    Font,
    Codec,
    InputMethod,
    Firmware,
    Driver,
    Localization,
}

/// The canonical attribute text of each component type.
pub open spec fn canonical_text(t: ComponentType) -> Seq<char> {
    match t {
        ComponentType::DesktopApp => "desktop-application"@,
        ComponentType::ConsoleApp => "console-application"@,
        ComponentType::WebApp => "web-application"@,
        ComponentType::Service => "service"@,
        ComponentType::Addon => "addon"@,
        ComponentType::Font => "font"@,
        ComponentType::Codec => "codec"@,
        ComponentType::InputMethod => "inputmethod"@,
        ComponentType::Firmware => "firmware"@,
        ComponentType::Driver => "driver"@,
        ComponentType::Localization => "localization"@,
    }
}

/// The component type named by a `type` attribute value, if any.
/// `desktop` is accepted as a historical alias of `desktop-application`.
pub open spec fn comp_type_of(s: Seq<char>) -> Option<ComponentType> {
    if s == "desktop"@ || s == "desktop-application"@ {
        Some(ComponentType::DesktopApp)
    } else if s == "console-application"@ {
        Some(ComponentType::ConsoleApp)
    } else if s == "web-application"@ {
        Some(ComponentType::WebApp)
    } else if s == "service"@ {
        Some(ComponentType::Service)
    } else if s == "addon"@ {
        Some(ComponentType::Addon)
    } else if s == "font"@ {
        Some(ComponentType::Font)
    } else if s == "codec"@ {
        Some(ComponentType::Codec)
    } else if s == "inputmethod"@ {
        Some(ComponentType::InputMethod)
    } else if s == "firmware"@ {
        Some(ComponentType::Firmware)
    } else if s == "driver"@ {
        Some(ComponentType::Driver)
    } else if s == "localization"@ {
        Some(ComponentType::Localization)
    } else {
        None
    }
}

impl ComponentType {
    /// Parses a `type` attribute value into a component type; any value
    /// outside the fixed vocabulary is rejected and carried in the error.
    pub fn parse(s: &str) -> (r: Result<ComponentType, InvalidComponentType>)
        ensures
            match r {
                Ok(t) => comp_type_of(s@) == Some(t),
                Err(e) => comp_type_of(s@) is None && e.0@ == s@,
            },
    {
        if str_eq(s, "desktop") || str_eq(s, "desktop-application") {
            Ok(ComponentType::DesktopApp)
        } else if str_eq(s, "console-application") {
            Ok(ComponentType::ConsoleApp)
        } else if str_eq(s, "web-application") {
            Ok(ComponentType::WebApp)
        } else if str_eq(s, "service") {
            Ok(ComponentType::Service)
        } else if str_eq(s, "addon") {
            Ok(ComponentType::Addon)
        } else if str_eq(s, "font") {
            Ok(ComponentType::Font)
        } else if str_eq(s, "codec") {
            Ok(ComponentType::Codec)
        } else if str_eq(s, "inputmethod") {
            Ok(ComponentType::InputMethod)
        } else if str_eq(s, "firmware") {
            Ok(ComponentType::Firmware)
        } else if str_eq(s, "driver") {
            Ok(ComponentType::Driver)
        } else if str_eq(s, "localization") {
            Ok(ComponentType::Localization)
        } else {
            Err(InvalidComponentType(s.to_owned()))
        }
    }

    /// The canonical attribute text for this component type.
    pub fn as_str(&self) -> (r: &'static str)
        ensures
            r@ == canonical_text(*self),
    {
        match self {
            ComponentType::DesktopApp => "desktop-application",
            ComponentType::ConsoleApp => "console-application",
            ComponentType::WebApp => "web-application",
            ComponentType::Service => "service",
            ComponentType::Addon => "addon",
            ComponentType::Font => "font",
            ComponentType::Codec => "codec",
            ComponentType::InputMethod => "inputmethod",
            ComponentType::Firmware => "firmware",
            ComponentType::Driver => "driver",
            ComponentType::Localization => "localization",
        }
    }
}

impl core::str::FromStr for ComponentType {
    type Err = InvalidComponentType;

    fn from_str(s: &str) -> Result<Self, Self::Err> {
        ComponentType::parse(s)
    }
}

/// A `type` attribute value outside the component-type vocabulary.
#[derive(Clone, Debug, Eq, Hash, PartialEq)]
pub struct InvalidComponentType(pub String);

} // verus!
