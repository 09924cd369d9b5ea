//! Value types of a layout session: styles, fonts, positioned glyphs, the
//! run-level outputs, and the error taxonomy.

use vstd::prelude::*;

use crate::geom::Vec2;

verus! {

/// The style of a text run: the requested size, in scaled device units
/// (the same units every scaled coordinate is expressed in).
#[derive(Clone, Copy, Debug, PartialEq, Eq, Structural)]
pub struct TextStyle {
    pub size: u32,
}

/// What this core reads of an application font: its design-unit scale.
/// The raw font bytes stay with the caller, which also owns the native
/// face built from them.
#[derive(Clone, Copy, Debug, PartialEq, Eq, Structural)]
pub struct FontRef {
    pub units_per_em: u32,
}

/// Why a layout call failed.
#[derive(Clone, Copy, Debug, PartialEq, Eq, Structural)]
pub enum LayoutError {
    /// The font abstraction could not hand out the raw font data.
    FontDataUnavailable,
    /// The font reports zero units per em, which no scaling can divide by.
    InvalidUnitsPerEm,
}

/// One positioned glyph of the simple layout path.
#[derive(Clone, Copy, Debug, PartialEq, Eq, Structural)]
pub struct Glyph {
    /// The font the glyph identifier indexes into.
    pub font: FontRef,
    /// The engine-assigned glyph index, not a Unicode code point.
    pub glyph_id: u32,
    /// Pen position at which this glyph paints, relative to the run origin.
    pub offset: Vec2,
}

/// One positioned glyph of a layout fragment.
#[derive(Clone, Copy, Debug, PartialEq, Eq, Structural)]
pub struct FragmentGlyph {
    /// The engine-assigned glyph index, not a Unicode code point.
    pub glyph_id: u32,
    /// Byte offset into the source text of the cluster this glyph belongs to.
    pub cluster: u32,
    /// This glyph's own contribution to the run length, in device units.
    pub advance: Vec2,
    /// Pen position at which this glyph paints, relative to the run origin.
    pub offset: Vec2,
    /// True when the engine forbids breaking the run immediately before
    /// this glyph without reshaping.
    pub unsafe_to_break: bool,
}

/// The simple run-level output: an ordered glyph sequence and its total
/// advance, with no cluster or break-safety data.
#[derive(Clone, Debug)]
pub struct Layout {
    /// The size the run was laid out at.
    pub size: u32,
    /// Glyphs in the order the engine produced them.
    pub glyphs: Vec<Glyph>,
    /// Vector sum of every glyph's advance.
    pub advance: Vec2,
}

/// The rich run-level output, ready for a line-breaking consumer.
#[derive(Clone, Debug)]
pub struct LayoutFragment {
    /// Byte length of the source substring this run consumed.
    pub substr_len: usize,
    /// The script tag the run was shaped with.
    pub script: u32,
    /// Glyphs in the order the engine produced them.
    pub glyphs: Vec<FragmentGlyph>,
    /// Vector sum of every glyph's advance.
    pub advance: Vec2,
    /// The font the run was shaped with, shared with the caller.
    pub font: FontRef,
}

} // verus!
