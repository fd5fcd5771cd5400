//! The window style bit fields: named bits, the embedded-child restyling,
//! and the host frame's clip-children fix.

use vstd::prelude::*;

verus! {

// Basic window style bits, as the target window manager defines them.
pub const WS_POPUP: u32 = 0x8000_0000;
pub const WS_CHILD: u32 = 0x4000_0000;
pub const WS_MINIMIZE: u32 = 0x2000_0000;
pub const WS_VISIBLE: u32 = 0x1000_0000;
pub const WS_CLIPCHILDREN: u32 = 0x0200_0000;
pub const WS_CAPTION: u32 = 0x00C0_0000;
pub const WS_BORDER: u32 = 0x0080_0000;
pub const WS_DLGFRAME: u32 = 0x0040_0000;
pub const WS_SYSMENU: u32 = 0x0008_0000;
pub const WS_THICKFRAME: u32 = 0x0004_0000;
pub const WS_MINIMIZEBOX: u32 = 0x0002_0000;
pub const WS_MAXIMIZEBOX: u32 = 0x0001_0000;

/// The standard overlapped (free-standing, decorated) window style.
pub const WS_OVERLAPPEDWINDOW: u32 = WS_CAPTION | WS_SYSMENU | WS_THICKFRAME | WS_MINIMIZEBOX
    | WS_MAXIMIZEBOX;

/// Decoration and popup bits stripped from a window when it becomes an
/// embedded child pane: caption, resizable frame, minimize/maximize/system
/// menu buttons, popup flag, thin and dialog borders.
pub const STRIP_MASK: u32 = WS_CAPTION | WS_THICKFRAME | WS_MINIMIZEBOX | WS_MAXIMIZEBOX
    | WS_SYSMENU | WS_POPUP | WS_BORDER | WS_DLGFRAME;

/// Bits added to an embedded child pane.
pub const EMBED_MASK: u32 = WS_CHILD | WS_VISIBLE;

/// The style an embedded window carries: the original style with every
/// decoration bit cleared and the child and visible bits set.
pub open spec fn spec_embedded_style(s: u32) -> u32 {
    (s & !STRIP_MASK) | EMBED_MASK
}

pub fn embedded_style(s: u32) -> (r: u32)
    ensures
        r == spec_embedded_style(s),
{
    (s & !STRIP_MASK) | EMBED_MASK
}

pub open spec fn has_clip_children(s: u32) -> bool {
    s & WS_CLIPCHILDREN != 0
}

pub open spec fn spec_with_clip_children(s: u32) -> u32 {
    s | WS_CLIPCHILDREN
}

pub fn host_has_clip_children(s: u32) -> (r: bool)
    ensures
        r == has_clip_children(s),
{
    s & WS_CLIPCHILDREN != 0
}

pub fn with_clip_children(s: u32) -> (r: u32)
    ensures
        r == spec_with_clip_children(s),
{
    s | WS_CLIPCHILDREN
}

/// An embedded window's style carries the child and visible bits and none of
/// the decoration or popup bits, whatever style it had before.
pub proof fn lemma_embedded_style_bits(s: u32)
    by (bit_vector)
    ensures
        spec_embedded_style(s) & WS_CHILD == WS_CHILD,
        spec_embedded_style(s) & WS_VISIBLE == WS_VISIBLE,
        spec_embedded_style(s) & WS_CAPTION == 0,
        spec_embedded_style(s) & WS_BORDER == 0,
        spec_embedded_style(s) & WS_DLGFRAME == 0,
        spec_embedded_style(s) & WS_THICKFRAME == 0,
        spec_embedded_style(s) & WS_SYSMENU == 0,
        spec_embedded_style(s) & WS_MINIMIZEBOX == 0,
        spec_embedded_style(s) & WS_MAXIMIZEBOX == 0,
        spec_embedded_style(s) & WS_POPUP == 0,
{
}

/// Setting the clip-children bit is idempotent, so the host frame is fixed at
/// most once.
pub proof fn lemma_clip_children_idempotent(s: u32)
    by (bit_vector)
    ensures
        has_clip_children(spec_with_clip_children(s)),
        has_clip_children(s) ==> spec_with_clip_children(s) == s,
{
}

} // verus!
