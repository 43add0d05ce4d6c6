//! What a window's surroundings decide.
//!
//! A window is not always the rectangle it reports: a status bar, a notch, a home
//! indicator or a software keyboard can cover part of it. Those edges belong to
//! the window, not to the host that the workspace is attached to.
use crate::geometry::{greater, larger, Edges};
use vstd::prelude::*;

verus! {

/// Where the client runs.
#[derive(Clone, Copy, Debug, PartialEq, Eq, Structural)]
pub enum Platform {
    MacOs,
    Windows,
    Linux,
    Ios,
    Android,
    Web,
}

/// Whether text entry here is a software keyboard. This is an input-device
/// capability, not a width: a wide tablet still types on glass, and a desktop
/// window dragged narrow still has a hardware Enter key.
pub fn soft_keyboard(platform: Platform) -> (soft: bool)
    ensures
        soft == (platform == Platform::Ios || platform == Platform::Android),
{
    match platform {
        Platform::Ios | Platform::Android => true,
        _ => false,
    }
}

/// The application's phase, as the platform reports it.
#[derive(Clone, Copy, Debug, PartialEq, Eq, Structural)]
pub enum AppLifecyclePhase {
    Inactive,
    Background,
    Foreground,
    Active,
}

/// What the recovery of the link is to do.
#[derive(Clone, Copy, Debug, PartialEq, Eq, Structural)]
pub enum Wake {
    /// Ask whether the link still stands.
    Probe,
    /// Take it for lost.
    Reconnect,
}

/// How long an absence may be for the link to be probed only, in milliseconds.
pub const PROBE_MILLIS: u64 = 10_000;

/// When the application went to the background, if it did.
#[derive(Clone, Copy, Debug, PartialEq, Eq, Structural)]
pub struct Lifecycle {
    pub away_since: Option<u64>,
}

impl Default for Lifecycle {
    fn default() -> (lifecycle: Self)
        ensures
            lifecycle.away_since is None,
    {
        Lifecycle { away_since: None }
    }
}

/// What coming back after an absence wakes. A clock that was set back makes the
/// absence a short one, which still gets its probe.
pub open spec fn wake_after(away_since: Option<u64>, now: u64) -> Option<Wake> {
    match away_since {
        Some(since) => if now - since >= PROBE_MILLIS {
            Some(Wake::Reconnect)
        } else {
            Some(Wake::Probe)
        },
        None => None,
    }
}

/// Follow the application's phase. Coming to the foreground wakes the link once
/// for each absence, in whichever of its phases it is noticed first.
pub fn lifecycle_wake(
    lifecycle: &mut Lifecycle,
    phase: AppLifecyclePhase,
    now: u64,
) -> (wake: Option<
    Wake,
>)
    ensures
        match phase {
            AppLifecyclePhase::Background => wake is None && final(lifecycle).away_since == Some(
                now,
            ),
            AppLifecyclePhase::Foreground | AppLifecyclePhase::Active => wake == wake_after(
                old(lifecycle).away_since,
                now,
            ) && final(lifecycle).away_since is None,
            AppLifecyclePhase::Inactive => wake is None && *final(lifecycle) == *old(lifecycle),
        },
{
    match phase {
        AppLifecyclePhase::Background => {
            lifecycle.away_since = Some(now);
            None
        },
        AppLifecyclePhase::Foreground | AppLifecyclePhase::Active => {
            let away_since = lifecycle.away_since;
            lifecycle.away_since = None;
            match away_since {
                Some(since) => if now >= since && now - since >= PROBE_MILLIS {
                    Some(Wake::Reconnect)
                } else {
                    Some(Wake::Probe)
                },
                None => None,
            }
        },
        AppLifecyclePhase::Inactive => None,
    }
}

/// Where the system covers a window, and where the keyboard does.
#[derive(Clone, Copy, Debug, PartialEq, Eq, Structural)]
pub struct WindowInsets {
    pub safe_area: Edges,
    pub ime: Edges,
}

impl WindowInsets {
    /// The insets that content keeps: of each edge the greater, never their sum. A
    /// keyboard that already covers the home indicator does not need it counted a
    /// second time.
    pub open spec fn spec_effective(self) -> Edges {
        Edges {
            top: greater(self.safe_area.top, self.ime.top),
            right: greater(self.safe_area.right, self.ime.right),
            bottom: greater(self.safe_area.bottom, self.ime.bottom),
            left: greater(self.safe_area.left, self.ime.left),
        }
    }

    pub fn effective(self) -> (edges: Edges)
        ensures
            edges == self.spec_effective(),
    {
        Edges {
            top: larger(self.safe_area.top, self.ime.top),
            right: larger(self.safe_area.right, self.ime.right),
            bottom: larger(self.safe_area.bottom, self.ime.bottom),
            left: larger(self.safe_area.left, self.ime.left),
        }
    }
}

/// A window's surroundings, as they are in a frame.
#[derive(Clone, Copy, Debug, PartialEq, Eq, Structural)]
pub struct WindowSeam {
    pub insets: WindowInsets,
}

impl WindowSeam {
    pub fn new(insets: WindowInsets) -> (seam: Self)
        ensures
            seam.insets == insets,
    {
        WindowSeam { insets }
    }

    /// A window that the system does not cover: a desktop window, and a browser
    /// canvas, whose own element is already resized around the keyboard.
    pub fn flush() -> (seam: Self)
        ensures
            seam.insets == (WindowInsets { safe_area: Edges::none(), ime: Edges::none() }),
    {
        let none = Edges { top: 0, right: 0, bottom: 0, left: 0 };
        WindowSeam { insets: WindowInsets { safe_area: none, ime: none } }
    }

    pub fn insets(&self) -> (insets: WindowInsets)
        ensures
            insets == self.insets,
    {
        self.insets
    }

    /// The one safe content rectangle shared by pages, palette, dialogs and
    /// sheets. Backgrounds still paint from edge to edge.
    pub fn content_insets(&self) -> (edges: Edges)
        ensures
            edges == self.insets.spec_effective(),
    {
        self.insets.effective()
    }

    /// This window's surroundings, or those of a flush one where none are known.
    pub fn current(installed: Option<WindowSeam>) -> (seam: Self)
        ensures
            match installed {
                Some(known) => seam == known,
                None => seam.insets == (WindowInsets {
                    safe_area: Edges::none(),
                    ime: Edges::none(),
                }),
            },
    {
        match installed {
            Some(known) => known,
            None => WindowSeam::flush(),
        }
    }
}

/// The single layout rule: below this much usable content width, in the design's
/// pixels, the shell uses its compact layout, at or above it the wide split.
pub const COMPACT_BREAKPOINT: i64 = 900;

/// How many of the design's pixels make up its unit.
pub const DESIGN_REM: i64 = 16;

/// Whether the width in which a window can lay content out is under the
/// breakpoint: the viewport less what the system covers on its left and right.
/// Insets are in actual pixels, the breakpoint scales with the design's unit.
pub open spec fn is_compact(viewport_width: i64, insets: WindowInsets, rem_size: i64) -> bool {
    (viewport_width - insets.safe_area.left - insets.safe_area.right) * DESIGN_REM
        < COMPACT_BREAKPOINT * rem_size
}

pub fn compact_for(viewport_width: i64, insets: &WindowInsets, rem_size: i64) -> (compact: bool)
    ensures
        compact == is_compact(viewport_width, *insets, rem_size),
{
    let width: i128 = viewport_width as i128 - insets.safe_area.left as i128
        - insets.safe_area.right as i128;
    let breakpoint: i128 = COMPACT_BREAKPOINT as i128;
    let design: i128 = DESIGN_REM as i128;
    let unit: i128 = rem_size as i128;
    proof {
        assert(width * design == width * 16);
        assert(breakpoint * unit == 900 * unit);
    }
    width * design < breakpoint * unit
}

/// A wider window is never the more compact one.
pub proof fn law_widening_leaves_compact(
    narrow: i64,
    wide: i64,
    insets: WindowInsets,
    rem_size: i64,
)
    requires
        narrow <= wide,
        is_compact(wide, insets, rem_size),
    ensures
        is_compact(narrow, insets, rem_size),
{
}

/// Each absence wakes the link once: what follows the first return wakes nothing
/// until the application goes to the background again.
pub proof fn law_an_absence_wakes_once(now: u64)
    ensures
        wake_after(None, now) is None,
        forall|since: u64| #[trigger] wake_after(Some(since), now) is Some,
{
}

/// A return after ten seconds or more reconnects the link, and an earlier one asks
/// whether it is still there.
pub proof fn law_a_long_absence_reconnects(since: u64, now: u64)
    ensures
        now - since >= 10_000 ==> wake_after(Some(since), now) == Some(Wake::Reconnect),
        now - since < 10_000 ==> wake_after(Some(since), now) == Some(Wake::Probe),
{
}

/// What is covered at each edge is what covers more of it, the system or the keyboard.
pub proof fn law_the_larger_inset_counts(insets: WindowInsets)
    ensures
        ({
            let edges = insets.spec_effective();
            &&& edges.top >= insets.safe_area.top && edges.top >= insets.ime.top
            &&& edges.top == insets.safe_area.top || edges.top == insets.ime.top
            &&& edges.right >= insets.safe_area.right && edges.right >= insets.ime.right
            &&& edges.right == insets.safe_area.right || edges.right == insets.ime.right
            &&& edges.bottom >= insets.safe_area.bottom && edges.bottom >= insets.ime.bottom
            &&& edges.bottom == insets.safe_area.bottom || edges.bottom == insets.ime.bottom
            &&& edges.left >= insets.safe_area.left && edges.left >= insets.ime.left
            &&& edges.left == insets.safe_area.left || edges.left == insets.ime.left
        }),
{
}

/// At the design's own scale a window is compact below nine hundred pixels beside what
/// the system covers, and at twice the scale below twice as many.
pub proof fn law_compact_goes_by_the_scale(width: i64, insets: WindowInsets, pixel: i64)
    requires
        pixel > 0,
        pixel <= 1_000_000,
    ensures
        is_compact(width, insets, (16 * pixel) as i64) <==> width - insets.safe_area.left
            - insets.safe_area.right < 900 * pixel,
        is_compact(width, insets, (32 * pixel) as i64) <==> width - insets.safe_area.left
            - insets.safe_area.right < 1800 * pixel,
{
}

} // verus!
