//! Geometry of the primary surface and of the region that tabs occupy.
//!
//! All lengths are logical pixels. The window's size comes in as signed
//! integers so that a malformed size can be told apart and refused; every
//! rectangle that goes out has non-negative coordinates and extents.

use vstd::prelude::*;

verus! {

/// Height of the control bar when tabs run along the top, before the
/// suggestions panel is added to it.
pub const BASE_TOP_HEIGHT: u64 = 104;

/// Width of the rail that holds the tabs when they run down the side.
pub const SIDEBAR_WIDTH: u64 = 200;

/// Width that the overlay panel takes from the tab region while it is open.
pub const MENU_WIDTH: u64 = 320;

/// Height of the toolbar above the tab region when tabs run down the side.
pub const TOOLBAR_HEIGHT: u64 = 60;

/// A rectangle on the window, in logical pixels.
#[derive(Clone, Copy, Debug, PartialEq, Eq, Structural)]
pub struct Rect {
    pub x: u64,
    pub y: u64,
    pub width: u64,
    pub height: u64,
}

/// A rectangle over the mathematical integers.
pub struct RectModel {
    pub x: int,
    pub y: int,
    pub width: int,
    pub height: int,
}

impl View for Rect {
    type V = RectModel;

    open spec fn view(&self) -> RectModel {
        RectModel {
            x: self.x as int,
            y: self.y as int,
            width: self.width as int,
            height: self.height as int,
        }
    }
}

/// Where the primary surface and the active tab lie.
#[derive(Clone, Copy, Debug, PartialEq, Eq, Structural)]
pub struct Geometry {
    pub primary: Rect,
    pub secondary: Rect,
}

/// A pair of rectangles over the mathematical integers.
pub struct GeometryModel {
    pub primary: RectModel,
    pub secondary: RectModel,
}

impl View for Geometry {
    type V = GeometryModel;

    open spec fn view(&self) -> GeometryModel {
        GeometryModel { primary: self.primary@, secondary: self.secondary@ }
    }
}

/// The interface toggles that shape the layout.
#[derive(Clone, Copy, Debug, PartialEq, Eq, Structural)]
pub struct PanelState {
    pub sidebar_open: bool,
    pub suggestions_height: u32,
    pub vertical_tabs: bool,
}

/// The inner size of the host window.
#[derive(Clone, Copy, Debug, PartialEq, Eq, Structural)]
pub struct WindowSize {
    pub width: i64,
    pub height: i64,
}

/// Why a window size was refused.
#[derive(Clone, Copy, Debug, PartialEq, Eq, Structural)]
pub enum GeometryError {
    /// The width is below zero.
    NegativeWidth,
    /// The width is fine and the height is below zero.
    NegativeHeight,
}

/// `a - b`, or zero where that would be negative.
pub open spec fn clamped_sub(a: int, b: int) -> int {
    if a >= b {
        a - b
    } else {
        0
    }
}

/// Height of the control bar when tabs run along the top.
pub open spec fn top_bar_height(panel: PanelState) -> int {
    BASE_TOP_HEIGHT as int + panel.suggestions_height as int
}

/// Width that the overlay panel takes from the tab region.
pub open spec fn panel_width(panel: PanelState) -> int {
    if panel.sidebar_open {
        MENU_WIDTH as int
    } else {
        0
    }
}

/// The layout of a window `width` by `height`.
///
/// With vertical tabs the primary surface is a rail down the left edge and
/// the tab region starts right of it, below the toolbar. With horizontal tabs
/// the primary surface is a bar across the top, and grows to the whole window
/// while the overlay panel is open; the tab region starts below the bar. The
/// open panel narrows the tab region in both modes.
pub open spec fn layout_of(width: int, height: int, panel: PanelState) -> GeometryModel {
    if panel.vertical_tabs {
        GeometryModel {
            primary: RectModel { x: 0, y: 0, width: SIDEBAR_WIDTH as int, height: height },
            secondary: RectModel {
                x: SIDEBAR_WIDTH as int,
                y: TOOLBAR_HEIGHT as int,
                width: clamped_sub(width, SIDEBAR_WIDTH as int + panel_width(panel)),
                height: clamped_sub(height, TOOLBAR_HEIGHT as int),
            },
        }
    } else {
        GeometryModel {
            primary: RectModel {
                x: 0,
                y: 0,
                width: width,
                height: if panel.sidebar_open {
                    height
                } else {
                    top_bar_height(panel)
                },
            },
            secondary: RectModel {
                x: 0,
                y: top_bar_height(panel),
                width: clamped_sub(width, panel_width(panel)),
                height: clamped_sub(height, top_bar_height(panel)),
            },
        }
    }
}

/// The answer that [`calculate_layout`] owes for a window size.
pub open spec fn layout_result(window: WindowSize, panel: PanelState) -> Result<
    GeometryModel,
    GeometryError,
> {
    if window.width < 0 {
        Err(GeometryError::NegativeWidth)
    } else if window.height < 0 {
        Err(GeometryError::NegativeHeight)
    } else {
        Ok(layout_of(window.width as int, window.height as int, panel))
    }
}

/// No rectangle of a layout has a negative coordinate or extent, whatever the
/// panel state, as long as the window's own size is not negative.
pub proof fn lemma_layout_is_non_negative(width: int, height: int, panel: PanelState)
    requires
        width >= 0,
        height >= 0,
    ensures
        layout_of(width, height, panel).primary.x >= 0,
        layout_of(width, height, panel).primary.y >= 0,
        layout_of(width, height, panel).primary.width >= 0,
        layout_of(width, height, panel).primary.height >= 0,
        layout_of(width, height, panel).secondary.x >= 0,
        layout_of(width, height, panel).secondary.y >= 0,
        layout_of(width, height, panel).secondary.width >= 0,
        layout_of(width, height, panel).secondary.height >= 0,
{
}

/// Every window whose width and height are not negative gets a layout, and no
/// rectangle of it has a negative coordinate or extent.
pub proof fn lemma_layout_of_valid_window(window: WindowSize, panel: PanelState)
    requires
        window.width >= 0,
        window.height >= 0,
    ensures
        layout_result(window, panel) is Ok,
        ({
            let geometry = layout_result(window, panel)->Ok_0;
            &&& geometry.primary.x >= 0 && geometry.primary.y >= 0
            &&& geometry.primary.width >= 0 && geometry.primary.height >= 0
            &&& geometry.secondary.x >= 0 && geometry.secondary.y >= 0
            &&& geometry.secondary.width >= 0 && geometry.secondary.height >= 0
        }),
{
    lemma_layout_is_non_negative(window.width as int, window.height as int, panel);
}

/// The tab region never reaches past the right or the bottom edge of a window
/// that is large enough to show any of it.
pub proof fn lemma_secondary_stays_inside(width: int, height: int, panel: PanelState)
    requires
        width >= 0,
        height >= 0,
    ensures
        ({
            let s = layout_of(width, height, panel).secondary;
            &&& s.width > 0 ==> s.x + s.width + panel_width(panel) == width
            &&& s.height > 0 ==> s.y + s.height == height
        }),
{
}

fn saturating_less(a: u64, b: u64) -> (r: u64)
    ensures
        r as int == clamped_sub(a as int, b as int),
{
    if a >= b {
        a - b
    } else {
        0
    }
}

/// Computes the rectangles of the primary surface and of the tab region.
///
/// A window with a negative width or height is refused; every other window
/// gets the layout that [`layout_of`] describes.
pub fn calculate_layout(window: WindowSize, panel: PanelState) -> (result: Result<
    Geometry,
    GeometryError,
>)
    ensures
        match result {
            Ok(geometry) => layout_result(window, panel) == Ok::<GeometryModel, GeometryError>(
                geometry@,
            ),
            Err(e) => layout_result(window, panel) == Err::<GeometryModel, GeometryError>(e),
        },
{
    if window.width < 0 {
        return Err(GeometryError::NegativeWidth);
    }
    if window.height < 0 {
        return Err(GeometryError::NegativeHeight);
    }
    let width: u64 = window.width as u64;
    let height: u64 = window.height as u64;
    let taken: u64 = if panel.sidebar_open {
        MENU_WIDTH
    } else {
        0
    };
    if panel.vertical_tabs {
        Ok(
            Geometry {
                primary: Rect { x: 0, y: 0, width: SIDEBAR_WIDTH, height },
                secondary: Rect {
                    x: SIDEBAR_WIDTH,
                    y: TOOLBAR_HEIGHT,
                    width: saturating_less(width, SIDEBAR_WIDTH + taken),
                    height: saturating_less(height, TOOLBAR_HEIGHT),
                },
            },
        )
    } else {
        let bar: u64 = BASE_TOP_HEIGHT + panel.suggestions_height as u64;
        Ok(
            Geometry {
                primary: Rect {
                    x: 0,
                    y: 0,
                    width,
                    height: if panel.sidebar_open {
                        height
                    } else {
                        bar
                    },
                },
                secondary: Rect {
                    x: 0,
                    y: bar,
                    width: saturating_less(width, taken),
                    height: saturating_less(height, bar),
                },
            },
        )
    }
}

impl PanelState {
    /// Opens or closes the overlay panel.
    pub fn toggle_sidebar(&mut self, open: bool)
        ensures
            *final(self) == (PanelState { sidebar_open: open, ..*old(self) }),
    {
        self.sidebar_open = open;
    }

    /// Sets the height that the suggestions panel adds to the top bar.
    pub fn set_suggestions_height(&mut self, height: u32)
        ensures
            *final(self) == (PanelState { suggestions_height: height, ..*old(self) }),
    {
        self.suggestions_height = height;
    }
}

} // verus!
