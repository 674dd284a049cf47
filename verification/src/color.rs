//! The overlay's colours.

use vstd::prelude::*;

verus! {

/// A colour as four bytes: red, green, blue and opacity, the colour
/// channels already scaled by the opacity.
#[derive(Clone, Copy, Debug, PartialEq, Eq, Structural)]
pub struct Rgba {
    pub r: u8,
    pub g: u8,
    pub b: u8,
    pub a: u8,
}

impl Rgba {
    /// The fully opaque colour with the given channels.
    pub open spec fn spec_opaque(r: u8, g: u8, b: u8) -> Rgba {
        Rgba { r, g, b, a: 255 }
    }

    /// Black at the opacity `a`.
    pub open spec fn spec_black_alpha(a: u8) -> Rgba {
        Rgba { r: 0, g: 0, b: 0, a }
    }

    /// The fully opaque colour with the given channels.
    #[verifier::when_used_as_spec(spec_opaque)]
    pub fn opaque(r: u8, g: u8, b: u8) -> (c: Rgba)
        ensures
            c == Rgba::spec_opaque(r, g, b),
    {
        Rgba { r, g, b, a: 255 }
    }

    /// Black at the opacity `a`.
    #[verifier::when_used_as_spec(spec_black_alpha)]
    pub fn black_alpha(a: u8) -> (c: Rgba)
        ensures
            c == Rgba::spec_black_alpha(a),
    {
        Rgba { r: 0, g: 0, b: 0, a }
    }
}

/// The colour in which plain values are written.
pub open spec fn white() -> Rgba {
    Rgba::spec_opaque(255, 255, 255)
}

/// The meaning that a colour carries in the overlay.
#[derive(Clone, Copy, Debug, PartialEq, Eq, Structural)]
pub enum ColorCategory {
    /// All is well: aiming is on, a lock is held with the safety on, nobody
    /// is watching.
    Green,
    /// A lock is held with the safety off.
    Orange,
    /// Grenade assistance is on.
    Blue,
    /// Aiming is off or in an unusual mode; somebody is watching.
    Red,
    /// The aim subsystem is offline.
    Gray,
}

impl ColorCategory {
    /// The colour that is painted for this category.
    pub open spec fn spec_rgba(self) -> Rgba {
        match self {
            ColorCategory::Green => Rgba::spec_opaque(0, 255, 0),
            ColorCategory::Orange => Rgba::spec_opaque(255, 165, 0),
            ColorCategory::Blue => Rgba::spec_opaque(0, 0, 255),
            ColorCategory::Red => Rgba::spec_opaque(255, 0, 0),
            ColorCategory::Gray => Rgba::spec_opaque(160, 160, 160),
        }
    }

    /// The colour that is painted for this category.
    #[verifier::when_used_as_spec(spec_rgba)]
    pub fn rgba(self) -> (c: Rgba)
        ensures
            c == self.spec_rgba(),
    {
        match self {
            ColorCategory::Green => Rgba::opaque(0, 255, 0),
            ColorCategory::Orange => Rgba::opaque(255, 165, 0),
            ColorCategory::Blue => Rgba::opaque(0, 0, 255),
            ColorCategory::Red => Rgba::opaque(255, 0, 0),
            ColorCategory::Gray => Rgba::opaque(160, 160, 160),
        }
    }
}

/// No two categories are painted alike.
pub proof fn categories_are_told_apart(a: ColorCategory, b: ColorCategory)
    requires
        a.spec_rgba() == b.spec_rgba(),
    ensures
        a == b,
{
}

} // verus!
