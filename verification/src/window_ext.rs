//! Window-chrome decisions: the extended style word that makes the
//! overlay window click-through (or clickable again).
//!
//! Reading and writing the style word is the platform layer's part; which
//! bits change is decided here. Click-through sets the transparent bit,
//! clickable clears it, and the layered bit is set either way.

use vstd::prelude::*;

verus! {

/// The extended style bit that lets clicks pass through the window.
pub const WS_EX_TRANSPARENT: u32 = 0x20;

/// The extended style bit for layered (per-pixel composited) windows.
pub const WS_EX_LAYERED: u32 = 0x80000;

/// The extended style word that turns click-through on or off: with
/// click-through the transparent bit is set, without it that bit is
/// cleared, and the layered bit is set in both cases; all other bits
/// stay.
pub open spec fn passthrough_style(style: u32, passthrough: bool) -> u32 {
    if passthrough {
        style | WS_EX_TRANSPARENT | WS_EX_LAYERED
    } else {
        (style & !WS_EX_TRANSPARENT) | WS_EX_LAYERED
    }
}

/// Compute the new extended style word for the given click-through
/// setting.
pub fn click_passthrough_style(style: u32, passthrough: bool) -> (r: u32)
    ensures
        r == passthrough_style(style, passthrough),
{
    if passthrough {
        style | WS_EX_TRANSPARENT | WS_EX_LAYERED
    } else {
        (style & !WS_EX_TRANSPARENT) | WS_EX_LAYERED
    }
}

} // verus!
