//! Popovers and the sheets that stand for them on touch screens.
use crate::geometry::Edges;
use crate::terminal::drawer::MouseButton;
use vstd::prelude::*;

verus! {

/// The corner of its trigger that a popover hangs on.
#[derive(Clone, Copy, Debug, PartialEq, Eq, Structural)]
pub enum Anchor {
    TopLeft,
    TopCenter,
    TopRight,
    BottomLeft,
    BottomCenter,
    BottomRight,
}

pub struct Popover {
    pub id: String,
    pub sheet_title: Option<String>,
    pub anchor: Anchor,
    pub default_open: bool,
    /// Whether it is open, where its owner says so.
    pub open: Option<bool>,
    pub tracked_focus: Option<u64>,
    pub trigger: Option<u64>,
    pub content: Option<u64>,
    pub mouse_button: MouseButton,
    pub overlay_closable: bool,
    pub appearance: bool,
    pub on_open_change: Option<u64>,
}

impl Popover {
    pub fn new(id: String) -> (popover: Self)
        ensures
            popover == (Popover {
                id,
                sheet_title: None,
                anchor: Anchor::TopLeft,
                default_open: false,
                open: None,
                tracked_focus: None,
                trigger: None,
                content: None,
                mouse_button: MouseButton::Left,
                overlay_closable: true,
                appearance: true,
                on_open_change: None,
            }),
    {
        Popover {
            id,
            sheet_title: None,
            anchor: Anchor::TopLeft,
            default_open: false,
            open: None,
            tracked_focus: None,
            trigger: None,
            content: None,
            mouse_button: MouseButton::Left,
            overlay_closable: true,
            appearance: true,
            on_open_change: None,
        }
    }

    /// Present the same content in a touch-sized sheet at the bottom.
    pub fn bottom_sheet(self, title: String) -> (popover: Self)
        ensures
            popover == (Popover { sheet_title: Some(title), ..self }),
    {
        let mut popover = self;
        popover.sheet_title = Some(title);
        popover
    }

    pub fn anchor(self, anchor: Anchor) -> (popover: Self)
        ensures
            popover == (Popover { anchor, ..self }),
    {
        let mut popover = self;
        popover.anchor = anchor;
        popover
    }

    pub fn mouse_button(self, button: MouseButton) -> (popover: Self)
        ensures
            popover == (Popover { mouse_button: button, ..self }),
    {
        let mut popover = self;
        popover.mouse_button = button;
        popover
    }

    pub fn default_open(self, open: bool) -> (popover: Self)
        ensures
            popover == (Popover { default_open: open, ..self }),
    {
        let mut popover = self;
        popover.default_open = open;
        popover
    }

    pub fn open(self, open: bool) -> (popover: Self)
        ensures
            popover == (Popover { open: Some(open), ..self }),
    {
        let mut popover = self;
        popover.open = Some(open);
        popover
    }

    pub fn overlay_closable(self, value: bool) -> (popover: Self)
        ensures
            popover == (Popover { overlay_closable: value, ..self }),
    {
        let mut popover = self;
        popover.overlay_closable = value;
        popover
    }

    pub fn appearance(self, value: bool) -> (popover: Self)
        ensures
            popover == (Popover { appearance: value, ..self }),
    {
        let mut popover = self;
        popover.appearance = value;
        popover
    }

    pub fn track_focus(self, focus: u64) -> (popover: Self)
        ensures
            popover == (Popover { tracked_focus: Some(focus), ..self }),
    {
        let mut popover = self;
        popover.tracked_focus = Some(focus);
        popover
    }

    pub fn on_open_change(self, handler: u64) -> (popover: Self)
        ensures
            popover == (Popover { on_open_change: Some(handler), ..self }),
    {
        let mut popover = self;
        popover.on_open_change = Some(handler);
        popover
    }

    pub fn trigger(self, trigger: u64) -> (popover: Self)
        ensures
            popover == (Popover { trigger: Some(trigger), ..self }),
    {
        let mut popover = self;
        popover.trigger = Some(trigger);
        popover
    }

    pub fn content(self, builder: u64) -> (popover: Self)
        ensures
            popover == (Popover { content: Some(builder), ..self }),
    {
        let mut popover = self;
        popover.content = Some(builder);
        popover
    }

    /// Whether it is presented as a sheet.
    pub fn is_sheet(&self) -> (sheet: bool)
        ensures
            sheet == (self.sheet_title is Some),
    {
        self.sheet_title.is_some()
    }

    /// Whether a press outside dismisses it.
    pub fn closes_outside(&self) -> (closes: bool)
        ensures
            closes == self.overlay_closable,
    {
        self.overlay_closable
    }
}

/// Whether a trigger shows as selected: where it is, and while its popover is
/// open.
pub fn trigger_selected(selected: bool, open: bool) -> (shown: bool)
    ensures
        shown == (selected || open),
{
    selected || open
}

/// Whether a sheet is there to be touched. One that fades out stays until it is
/// gone; one that was never opened must not lie, unseen, over its trigger.
pub fn sheet_mounted(should_render: bool, open: bool, visible: bool) -> (mounted: bool)
    ensures
        mounted == (should_render && (open || visible)),
{
    should_render && (open || visible)
}

/// The room that a sheet leaves above it, in pixels.
pub const SHEET_CLEARANCE: i64 = 52;

/// How high a sheet can be: below the window's top inset and the clearance, above
/// its bottom inset. `pixel` is how much a pixel is.
pub open spec fn sheet_height(viewport: i64, insets: Edges, pixel: i64) -> int {
    let room = viewport - insets.top - SHEET_CLEARANCE * pixel - insets.bottom;
    if room > 0 {
        room
    } else {
        0
    }
}

pub fn max_sheet_height(viewport: i64, insets: Edges, pixel: i64) -> (height: i128)
    ensures
        height == sheet_height(viewport, insets, pixel),
{
    let clearance: i128 = SHEET_CLEARANCE as i128;
    let unit: i128 = pixel as i128;
    assert(clearance * unit == 52 * unit);
    let room: i128 = viewport as i128 - insets.top as i128 - clearance * unit
        - insets.bottom as i128;
    if room > 0 {
        room
    } else {
        0
    }
}

/// A sheet never reaches under the window's insets: with them and the clearance it
/// fits the window, unless those alone fill it.
pub proof fn law_a_sheet_fits_its_window(viewport: i64, insets: Edges, pixel: i64)
    requires
        insets.top + SHEET_CLEARANCE * pixel + insets.bottom <= viewport,
    ensures
        insets.top + SHEET_CLEARANCE * pixel + insets.bottom + sheet_height(
            viewport,
            insets,
            pixel,
        ) == viewport,
{
}

} // verus!
