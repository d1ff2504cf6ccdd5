//! What a redraw has to paint, and where the menu goes on the display.

use vstd::prelude::*;
use crate::screen::actions::{Action, ActionSet};
use crate::screen::{dirty, DataSource, Page, ScreenState};
use crate::valve::ValveState;
use crate::water_meter::WaterMeterState;

verus! {

/// The extent of a display or of a region on it, in pixels.
#[derive(Clone, Copy, Debug, PartialEq, Eq, Structural)]
pub struct Size {
    pub width: u32,
    pub height: u32,
}

/// A pixel position; the display's top left corner is at zero.
#[derive(Clone, Copy, Debug, PartialEq, Eq, Structural)]
pub struct Point {
    pub x: i32,
    pub y: i32,
}

/// A region of the display.
#[derive(Clone, Copy, Debug, PartialEq, Eq, Structural)]
pub struct Rectangle {
    pub top_left: Point,
    pub size: Size,
}

/// The size of type in which the menu is set.
#[derive(Clone, Copy, Debug, PartialEq, Eq, Structural)]
pub enum MenuFont {
    Point12,
    Point24,
}

/// The margin, in pixels, by which the menu is narrower than the display.
pub const MENU_MARGIN: u32 = 10;

/// The widest display on which the menu is set in the small type.
pub const SMALL_DISPLAY_WIDTH: u32 = 128;

/// The offset that centres a span of `inner` pixels in one of `outer`
/// pixels: half of the difference, rounded towards zero. It is negative
/// where the inner span is the longer one.
pub open spec fn centred(outer: u32, inner: u32) -> int {
    if outer >= inner {
        (outer - inner) / 2
    } else {
        -((inner - outer) / 2)
    }
}

/// The type in which the menu is set on a display `width` pixels wide.
pub open spec fn spec_menu_font(width: u32) -> MenuFont {
    if width <= SMALL_DISPLAY_WIDTH {
        MenuFont::Point12
    } else {
        MenuFont::Point24
    }
}

/// The region of the menu on `display`, for a menu that wants
/// `menu_height` pixels: as wide as the display but for the margin, as high
/// as it wants, and centred both ways.
pub open spec fn spec_menu_region(display: Size, menu_height: u32) -> Rectangle {
    let width = (display.width - MENU_MARGIN) as u32;
    Rectangle {
        top_left: Point {
            x: centred(display.width, width) as i32,
            y: centred(display.height, menu_height) as i32,
        },
        size: Size { width, height: menu_height },
    }
}

/// The type in which the menu is set on a display `width` pixels wide.
#[verifier::when_used_as_spec(spec_menu_font)]
pub fn menu_font(width: u32) -> (font: MenuFont)
    ensures
        font == spec_menu_font(width),
{
    if width <= SMALL_DISPLAY_WIDTH {
        MenuFont::Point12
    } else {
        MenuFont::Point24
    }
}

/// The offset that centres `inner` pixels in `outer` pixels.
fn centre(outer: u32, inner: u32) -> (offset: i32)
    requires
        outer <= i32::MAX,
        inner <= i32::MAX,
    ensures
        offset == centred(outer, inner),
{
    if outer >= inner {
        let half: u32 = (outer - inner) / 2;
        half as i32
    } else {
        let half: u32 = (inner - outer) / 2;
        -(half as i32)
    }
}

/// The region of the menu on `display`, for a menu that wants
/// `menu_height` pixels.
pub fn menu_region(display: Size, menu_height: u32) -> (region: Rectangle)
    requires
        MENU_MARGIN <= display.width <= i32::MAX,
        display.height <= i32::MAX,
        menu_height <= i32::MAX,
    ensures
        region == spec_menu_region(display, menu_height),
        region.top_left.x == MENU_MARGIN / 2,
        region.size.width + MENU_MARGIN == display.width,
        region.size.height == menu_height,
{
    let width: u32 = display.width - MENU_MARGIN;
    Rectangle {
        top_left: Point { x: centre(display.width, width), y: centre(display.height, menu_height) },
        size: Size { width, height: menu_height },
    }
}

/// The open menu as it is to be painted.
#[derive(Clone, Copy, Debug)]
pub struct MenuFrame {
    /// The actions on the menu.
    pub enabled: ActionSet,
    /// The one that is selected.
    pub selected: Action,
    /// The type to set it in.
    pub font: MenuFont,
    /// The region to paint it in; nothing is painted outside of it.
    pub region: Rectangle,
}

/// What one redraw has to paint, in this order: the cleared display, the
/// widgets of the page, the menu. The display is flushed after that.
#[derive(Debug)]
pub struct Frame<B> {
    /// Whether the whole display is cleared first.
    pub clear: bool,
    /// The page whose widgets are painted.
    pub page: Page,
    /// The valve state to paint, if its widget is on the page and out of date.
    pub valve: Option<Option<ValveState>>,
    /// The water meter state to paint, if its widget is on the page and out
    /// of date.
    pub wm: Option<WaterMeterState>,
    /// The battery state to paint, if its widget is out of date.
    pub battery: Option<B>,
    /// The menu to paint over the page, if one is open.
    pub menu: Option<MenuFrame>,
}

/// What drawing `state` has to paint on a display of `display` pixels,
/// given the data as they stand and the height that the menu wants when set
/// in the type for this display.
///
/// The display is cleared only where the page changed. Of the page's
/// widgets, that is valve, water meter and battery on the summary page and
/// the battery alone on the battery page, those are painted whose source
/// changed, and all of them where the page changed.
pub fn draw<B>(
    state: &ScreenState,
    display: Size,
    valve: Option<ValveState>,
    wm: WaterMeterState,
    battery: B,
    menu_height: u32,
) -> (frame: Frame<B>)
    requires
        state@.page_actions is Some ==> MENU_MARGIN <= display.width <= i32::MAX && display.height
            <= i32::MAX && menu_height <= i32::MAX,
    ensures
        frame.clear == state@.changeset.contains(DataSource::Page),
        frame.page == state@.active_page,
        frame.valve == if state@.active_page == Page::Summary && dirty(
            state@.changeset,
            DataSource::Valve,
        ) {
            Some(valve)
        } else {
            None
        },
        frame.wm == if state@.active_page == Page::Summary && dirty(
            state@.changeset,
            DataSource::WM,
        ) {
            Some(wm)
        } else {
            None
        },
        frame.battery == if dirty(state@.changeset, DataSource::Battery) {
            Some(battery)
        } else {
            None
        },
        match frame.menu {
            Some(menu) => {
                &&& state@.page_actions == Some((menu.enabled@, menu.selected))
                &&& menu.font == spec_menu_font(display.width)
                &&& menu.region == spec_menu_region(display, menu_height)
            },
            None => state@.page_actions is None,
        },
{
    let clear = state.changeset().contains(DataSource::Page);
    let (shown_valve, shown_wm) = match state.active_page() {
        Page::Summary => (state.valve(valve), state.wm(wm)),
        Page::Battery => (None, None),
    };
    let menu = match state.page_actions() {
        Some((enabled, selected)) => Some(
            MenuFrame {
                enabled,
                selected,
                font: menu_font(display.width),
                region: menu_region(display, menu_height),
            },
        ),
        None => None,
    };
    Frame {
        clear,
        page: state.active_page(),
        valve: shown_valve,
        wm: shown_wm,
        battery: state.battery(battery),
        menu,
    }
}

} // verus!
