//! Component-kind markers, each naming the `type` attribute it stands for.

use vstd::prelude::*;

verus! {

/// A component kind, carrying the `type` attribute text that selects it.
pub trait Component {
    fn attribute() -> &'static str;
}

/// Marker for desktop applications.
pub struct DesktopApp;

impl Component for DesktopApp {
    fn attribute() -> &'static str {
        "desktop"
    }
}

} // verus!
