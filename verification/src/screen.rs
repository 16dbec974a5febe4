//! The screens of the player.
use vstd::prelude::*;

verus! {

/// The screen shown in the main area.
#[derive(Debug, Clone, Copy, PartialEq, Eq, Structural)]
pub enum View {
    NowPlaying,
    Library,
    Queue,
    Playlists,
    Settings,
    Stats,
}

/// How the window arranges its parts.
#[derive(Debug, Clone, Copy, PartialEq, Eq, Structural)]
pub enum Layout {
    /// An icon rail for the sidebar (narrow windows).
    Compact,
    /// Sidebar and main area.
    Standard,
    /// Sidebar, main area and a queue panel.
    Wide,
}

/// The layout for a window width in pixels: compact under 700, standard up
/// to 1100, wide beyond.
pub open spec fn layout_spec(width: u32) -> Layout {
    if width < 700 {
        Layout::Compact
    } else if width <= 1100 {
        Layout::Standard
    } else {
        Layout::Wide
    }
}

/// The layout for a window width in pixels (see `layout_spec`).
pub fn layout_for(width: u32) -> (r: Layout)
    ensures
        r == layout_spec(width),
{
    if width < 700 {
        Layout::Compact
    } else if width <= 1100 {
        Layout::Standard
    } else {
        Layout::Wide
    }
}

} // verus!
