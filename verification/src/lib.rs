//! Verified core of a text-shaping integration layer.
//!
//! The crate adapts the output of an opaque shaping engine — parallel arrays
//! of glyph infos and glyph positions in font design units — into positioned
//! layout runs: it scales positions into device units, accumulates advances,
//! decodes per-glyph break-safety flags, and assembles immutable fragments
//! for a line-layout consumer. The engine call itself, a foreign-function
//! boundary, stays with the caller; this crate works on the plain values the
//! engine hands back.

pub mod geom;
pub mod session;
pub mod shaping;
