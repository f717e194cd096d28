//! The application theme.  The concrete colour palettes belong to the
//! terminal rendering layer outside this crate; the library only tracks
//! which theme is chosen.

use vstd::prelude::*;

verus! {

/// The two looks the interface offers.
#[derive(Debug, Clone, Copy, PartialEq, Eq, Structural)]
pub enum Theme {
    Light,
    Dark,
}

/// The other theme.
pub open spec fn spec_other_theme(t: Theme) -> Theme {
    match t {
        Theme::Light => Theme::Dark,
        Theme::Dark => Theme::Light,
    }
}

impl Theme {
    /// The theme a toggle switches to.
    pub fn toggled(self) -> (r: Theme)
        ensures
            r == spec_other_theme(self),
    {
        match self {
            Theme::Light => Theme::Dark,
            Theme::Dark => Theme::Light,
        }
    }
}

} // verus!
