//! Colour values as the scene descriptions record them.
//!
//! The host renderer works with fractional sRGB channels; the model
//! stores each custom channel as an integer number of thousandths of
//! the sRGB unit, so a channel written `0.15` in the host's unit scale
//! is recorded as `150`. Palette entries that the demos take from the
//! host's named colour tables are recorded by name.

use vstd::prelude::*;

verus! {

/// A colour from the host's named palettes.
#[derive(Clone, Copy, PartialEq, Eq, Debug)]
pub enum NamedColor {
    /// Pure black.
    Black,
    /// Pure white.
    White,
    /// The web palette's red.
    Red,
    /// The web palette's blue.
    Blue,
    /// The web palette's green.
    Green,
    /// The web palette's grey.
    Grey,
    /// The basic palette's mid gray.
    Gray,
    /// The web palette's pink.
    Pink,
    /// The tailwind palette's cyan, shade 400.
    Cyan400,
    /// The tailwind palette's blue, shade 400.
    Blue400,
}

/// A colour as a scene description records it.
#[derive(Clone, Copy, PartialEq, Eq, Debug)]
pub enum ColorSpec {
    /// A named palette entry.
    Named(NamedColor),
    /// Custom sRGB channels, each in thousandths of the sRGB unit.
    Srgb(u32, u32, u32),
    /// Custom 8-bit RGB channels, as the rich-text editor takes them.
    Rgb8(u8, u8, u8),
}

/// The resting button fill shared by several demos: sRGB (0.15, 0.15, 0.15).
pub open spec fn spec_normal_button() -> ColorSpec {
    ColorSpec::Srgb(150, 150, 150)
}

/// The hovered button fill: sRGB (0.25, 0.25, 0.25).
pub open spec fn spec_hovered_button() -> ColorSpec {
    ColorSpec::Srgb(250, 250, 250)
}

/// The pressed button fill: sRGB (0.35, 0.75, 0.35).
pub open spec fn spec_pressed_button() -> ColorSpec {
    ColorSpec::Srgb(350, 750, 350)
}

/// Returns the resting button fill.
pub fn normal_button() -> (c: ColorSpec)
    ensures
        c == spec_normal_button(),
{
    ColorSpec::Srgb(150, 150, 150)
}

/// Returns the hovered button fill.
pub fn hovered_button() -> (c: ColorSpec)
    ensures
        c == spec_hovered_button(),
{
    ColorSpec::Srgb(250, 250, 250)
}

/// Returns the pressed button fill.
pub fn pressed_button() -> (c: ColorSpec)
    ensures
        c == spec_pressed_button(),
{
    ColorSpec::Srgb(350, 750, 350)
}

} // verus!
