//! The Arch Linux logo pill at the left end of the bar.

use vstd::prelude::*;

verus! {

/// The Arch Linux logo glyph of the icon font.
pub const ARCH_GLYPH: &'static str = "\u{f08c7}";

/// A pill that only shows the logo.
#[derive(Debug, Clone, Copy, PartialEq, Eq, Structural)]
pub struct ArchLogoPill;

impl ArchLogoPill {
    pub fn new() -> (r: Self)
        ensures
            r == ArchLogoPill,
    {
        ArchLogoPill
    }

    /// The text the pill draws.
    pub fn glyph(&self) -> (r: &'static str)
        ensures
            r@ == ARCH_GLYPH@,
    {
        ARCH_GLYPH
    }
}

} // verus!
