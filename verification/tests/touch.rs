//! Scrolling, zooming and the window's surroundings.
use tcode_ui::geometry::{Bounds, Edges, Point};
use tcode_ui::touch_scroll::wheel::{
    after_layout, asked_travel, eases, goes_on, line_step, release_tail, survives_before_layout,
    target, travel, Motion, Position, Reach, WheelEvent,
};
use tcode_ui::touch_scroll::{
    apply, bounded_offset, leaves_vertical, Entry, HandleKind, Registry, ScrollEvent, TouchPhase,
    Viewport,
};
use tcode_ui::window_seam::{
    compact_for, lifecycle_wake, soft_keyboard, AppLifecyclePhase as Phase, Lifecycle, Platform,
    Wake, WindowInsets, WindowSeam,
};
use tcode_ui::zoom::Zoom;

fn point(x: i64, y: i64) -> Point {
    Point { x, y }
}

fn entry(name: &str, parent: Option<&str>, y: i64, height: i64) -> Entry {
    Entry {
        id: name.to_string(),
        parent: parent.map(str::to_string),
        bounds: Bounds { origin: point(0, y), width: 100, height },
        line_height: 20,
        kind: HandleKind::Scroll,
        handle: name.len() as u64,
    }
}

fn scroll(phase: TouchPhase, y: i64) -> ScrollEvent {
    ScrollEvent { position: point(50, y), phase }
}

#[test]
fn captures_innermost_at_down_even_when_child_moves_under_anchor() {
    let mut registry = Registry::new();
    registry.entries = vec![
        entry("page", None, 0, 500),
        entry("textarea", Some("page"), 200, 80),
    ];
    assert_eq!(registry.hit_test(point(50, 220)).unwrap().target.id, "textarea");
    registry.start(point(50, 50));
    // A new frame moves the textarea beneath the initial touch point.
    registry.entries[1].bounds.origin.y = 30;
    let capture = registry.take_scroll(scroll(TouchPhase::Started, 50)).unwrap();
    assert_eq!(capture.target.id, "page");
    registry.finish_scroll(capture, TouchPhase::Started);
    let capture = registry.take_scroll(scroll(TouchPhase::Moved, 230)).unwrap();
    assert_eq!(capture.target.id, "page");
    registry.finish_scroll(capture, TouchPhase::Moved);
    registry.start(point(50, 50));
    assert!(registry.active.is_none());
    assert_eq!(
        registry.take_scroll(scroll(TouchPhase::Started, 50)).unwrap().target.id,
        "textarea"
    );
}

#[test]
fn release_retains_only_momentum_and_cancel_or_next_gesture_clears_it() {
    for end in [TouchPhase::Ended, TouchPhase::Cancelled] {
        let mut registry = Registry::new();
        registry.entries.push(entry("page", None, 0, 500));
        registry.start(point(50, 50));
        let capture = registry.take_scroll(scroll(TouchPhase::Started, 50)).unwrap();
        registry.finish_scroll(capture, end);
        assert!(registry.active.is_none());
        assert!(registry.pending.is_none());
        if end == TouchPhase::Ended {
            let capture = registry.take_scroll(scroll(TouchPhase::Moved, 400)).unwrap();
            assert_eq!(capture.target.id, "page");
            registry.finish_scroll(capture, TouchPhase::Moved);
            let capture = registry.take_scroll(scroll(TouchPhase::Ended, 400)).unwrap();
            registry.finish_scroll(capture, TouchPhase::Ended);
        }
        assert!(registry.momentum.is_none());
        registry.start(point(500, 500));
        assert!(registry.take_scroll(scroll(TouchPhase::Moved, 50)).is_none());
    }
}

const STILL: Viewport = Viewport { offset: Point { x: 0, y: 0 }, max: Point { x: 0, y: 0 } };

#[test]
fn at_limit_chains_once_to_registered_parent() {
    let mut registry = Registry::new();
    registry.entries = vec![
        entry("grandparent", None, 0, 500),
        entry("parent", Some("grandparent"), 0, 300),
        entry("child", Some("parent"), 10, 50),
    ];
    let mut capture = registry.hit_test(point(20, 20)).unwrap();
    capture.apply(point(0, -20), 1, STILL, STILL);
    assert_eq!(capture.target.id, "parent");
    assert!(capture.ancestor.is_none());
    capture.apply(point(0, -20), 1, STILL, STILL);
    assert_eq!(capture.target.id, "parent");
}

#[test]
fn what_a_child_leaves_its_parent_takes() {
    let mut registry = Registry::new();
    registry.entries = vec![entry("page", None, 0, 300), entry("child", Some("page"), 0, 80)];
    let mut capture = registry.hit_test(point(20, 20)).unwrap();
    let child = Viewport { offset: point(0, -500), max: point(0, 520) };
    let page = Viewport { offset: point(0, 0), max: point(0, 600) };
    let sets = capture.apply(point(0, -70), 1, child, page);
    assert_eq!(
        sets.iter().map(|set| (set.handle, set.offset.y)).collect::<Vec<_>>(),
        vec![(5, -520), (4, -50)]
    );
    let result = apply(HandleKind::Scroll, child, point(0, -70));
    assert_eq!(result.remaining, point(0, -50));
}

#[test]
fn lists_and_textareas_take_motion_their_own_way() {
    let view = Viewport { offset: point(0, -10), max: point(0, 100) };
    let still = apply(HandleKind::List, view, point(5, 0));
    assert_eq!((still.offset, still.remaining), (None, point(5, 0)));
    let moved = apply(HandleKind::List, view, point(0, 30));
    assert_eq!((moved.offset, moved.remaining), (Some(point(0, 20)), point(0, 20)));
    let area = apply(HandleKind::Textarea, view, point(0, 30));
    assert_eq!((area.offset, area.remaining), (Some(point(0, 20)), point(0, 0)));
    // Two motions in one frame add up before the area is laid out again.
    let mut registry = Registry::new();
    let mut field = entry("area", None, 0, 80);
    field.kind = HandleKind::Textarea;
    registry.entries = vec![field];
    let mut capture = registry.hit_test(point(20, 20)).unwrap();
    assert_eq!(capture.apply(point(0, -5), 7, view, STILL)[0].offset, point(0, -15));
    assert_eq!(capture.apply(point(0, -5), 7, view, STILL)[0].offset, point(0, -20));
    assert_eq!(capture.apply(point(0, -5), 8, view, STILL)[0].offset, point(0, -15));
}

#[test]
fn offsets_stay_within_their_limits() {
    assert_eq!(bounded_offset(point(5, -50), point(10, 30)), point(0, -30));
    assert_eq!(bounded_offset(point(-5, -5), point(-10, 30)), point(0, -5));
    assert!(leaves_vertical(HandleKind::Scroll, point(10, 0), point(3, -4)));
    assert!(!leaves_vertical(HandleKind::Scroll, point(10, 0), point(-4, 3)));
    assert!(!leaves_vertical(HandleKind::Scroll, point(10, 5), point(3, -4)));
    assert!(!leaves_vertical(HandleKind::List, point(10, 0), point(3, -4)));
}

#[test]
fn viewports_register_inside_each_other() {
    let mut registry = Registry::new();
    let bounds = Bounds { origin: point(0, 0), width: 10, height: 10 };
    registry.begin_frame();
    registry.enter(&"page".to_string(), bounds, 20, HandleKind::Scroll, 1);
    registry.enter(&"child".to_string(), bounds, 20, HandleKind::List, 2);
    registry.leave();
    registry.enter(&"sibling".to_string(), bounds, 20, HandleKind::List, 3);
    registry.leave();
    registry.leave();
    let parents: Vec<Option<&str>> =
        registry.entries.iter().map(|entry| entry.parent.as_deref()).collect();
    assert_eq!(parents, vec![None, Some("page"), Some("page")]);
    assert!(registry.parents.is_empty());
    assert_eq!(registry.frame, 1);
    registry.discard_occluded(&vec![true, false]);
    assert_eq!(registry.entries.len(), 1);
    assert!(!bounds.contains(point(10, 0)) && bounds.contains(point(9, 0)));
    registry.begin_frame();
    assert!(registry.entries.is_empty());
}

#[test]
fn a_notch_goes_to_the_innermost_viewport_with_room() {
    let entries = vec![entry("outer", None, 0, 100), entry("inner", Some("outer"), 0, 60)];
    let room = |offset, delta| Some(Reach { offset, max: 100, delta });
    assert_eq!(target(&entries, &vec![room(0, -60), room(0, -60)], 1), Some(1));
    assert_eq!(target(&entries, &vec![room(0, -60), room(-100, -60)], 1), Some(0));
    assert_eq!(target(&entries, &vec![room(-100, -60), room(-100, -60)], 1), None);
    assert_eq!(target(&entries, &vec![room(0, -60), None], 1), None);
    // A viewport that is its own parent is asked only so often.
    let circle = vec![entry("self", Some("self"), 0, 60)];
    assert_eq!(target(&circle, &vec![room(-100, -60)], 0), None);
}

#[test]
fn motions_end_when_something_else_moves_their_viewport() {
    let event = WheelEvent { position: point(0, 0), by_lines: true, vertical: true, shift: false };
    assert!(eases(event, false));
    assert!(!eases(event, true));
    assert!(!eases(WheelEvent { by_lines: false, ..event }, false));
    assert!(!eases(WheelEvent { shift: true, ..event }, false));
    let place = Position::List { item: 3, offset: 4, count: 10 };
    let motion = Motion { id: "list".to_string(), expected: place };
    assert!(goes_on(&motion, &"list".to_string(), place));
    assert!(goes_on(
        &motion,
        &"list".to_string(),
        Position::List { item: 8, offset: 4, count: 15 }
    ));
    assert!(!goes_on(
        &motion,
        &"list".to_string(),
        Position::List { item: 4, offset: 4, count: 10 }
    ));
    assert!(!goes_on(&motion, &"other".to_string(), place));
    assert!(!Position::Scroll(3).matches(place));
    assert!(survives_before_layout(&motion, None));
    assert!(!survives_before_layout(&motion, Some(Position::Scroll(1))));
    let moved = Position::List { item: 1, offset: 0, count: 1 };
    assert_eq!(after_layout(motion, Some(moved)).unwrap().expected, moved);
    let gone = Motion { id: "list".to_string(), expected: place };
    assert!(after_layout(gone, None).is_none());
}

#[test]
fn zoom_steps_through_its_levels() {
    assert_eq!(Zoom::restore(None).percent(), 100);
    assert_eq!(Zoom::restore(Some(10)).percent(), 75);
    assert_eq!(Zoom::set(900).percent(), 200);
    let mut up = vec![75];
    while let Some(next) = Zoom(*up.last().unwrap()).step(true) {
        up.push(next.percent());
    }
    assert_eq!(up, vec![75, 90, 100, 110, 125, 150, 175, 200]);
    for pair in up.windows(2) {
        assert_eq!(Zoom(pair[1]).step(false), Some(Zoom(pair[0])));
    }
    assert_eq!(Zoom(75).step(false), None);
    assert_eq!(Zoom(120).step(true), Some(Zoom(125)));
    assert_eq!(Zoom(120).step(false), Some(Zoom(110)));
    assert_eq!(Zoom(125).rem_size(), 2000);
}

#[test]
fn native_lifecycle_phase_hook_probes_or_reconnects_once() {
    let mut lifecycle = Lifecycle::default();
    assert_eq!(lifecycle_wake(&mut lifecycle, Phase::Background, 0), None);
    assert_eq!(lifecycle_wake(&mut lifecycle, Phase::Foreground, 9_999), Some(Wake::Probe));
    assert_eq!(lifecycle_wake(&mut lifecycle, Phase::Active, 10_000), None);
    assert_eq!(lifecycle_wake(&mut lifecycle, Phase::Background, 20_000), None);
    assert_eq!(lifecycle_wake(&mut lifecycle, Phase::Active, 30_000), Some(Wake::Reconnect));
    // A clock that was set back makes the absence short.
    lifecycle_wake(&mut lifecycle, Phase::Background, 50_000);
    assert_eq!(lifecycle_wake(&mut lifecycle, Phase::Inactive, 50_001), None);
    assert_eq!(lifecycle_wake(&mut lifecycle, Phase::Active, 10), Some(Wake::Probe));
}

fn insets(left: i64, right: i64, bottom: i64, ime_bottom: i64) -> WindowInsets {
    WindowInsets {
        safe_area: Edges { top: 0, right, bottom, left },
        ime: Edges { top: 0, right: 0, bottom: ime_bottom, left: 0 },
    }
}

#[test]
fn the_breakpoint_measures_content_width_and_is_wide_at_nine_hundred() {
    let flush = WindowSeam::flush().insets();
    assert!(compact_for(899, &flush, 16));
    assert!(!compact_for(900, &flush, 16));
    assert!(compact_for(1349, &flush, 24));
    assert!(!compact_for(1350, &flush, 24));
    assert!(compact_for(1400, &insets(30, 30, 0, 0), 24));
    // A landscape phone whose notch eats 59px on each side is 918px wide but has
    // only 800px to lay out in.
    assert!(compact_for(918, &insets(59, 59, 21, 0), 16));
}

#[test]
fn keyboard_and_home_indicator_do_not_stack() {
    let content = insets(0, 0, 34, 300).effective();
    assert_eq!(content.bottom, 300);
    assert_eq!(WindowSeam::new(insets(1, 2, 34, 30)).content_insets().bottom, 34);
    assert_eq!(WindowSeam::current(None).content_insets().left, 0);
    assert!(soft_keyboard(Platform::Android) && !soft_keyboard(Platform::Web));
}

#[test]
fn notches_add_up_reverse_and_stop_at_the_ends() {
    let room = 900;
    assert_eq!(travel(None, -60, 0, room), -60);
    assert_eq!(travel(Some(-60), -60, 0, room), -120);
    assert_eq!(travel(Some(-500), 20, -100, room), 20, "reversing discards the old destination");
    assert_eq!(travel(None, -2000, 0, room), -900);
    assert_eq!(asked_travel(Some(-60), -2000), -2060, "what is asked for is not bounded");
    assert_eq!(asked_travel(Some(60), -2000), -2000);
    assert_eq!(asked_travel(None, -2000), -2000);
    // Extra input against the limit does not accumulate.
    assert_eq!(travel(Some(0), -2000, -900, room), 0);
    assert_eq!(travel(Some(0), 20, -900, room), 20);
    assert_eq!(release_tail(true, 60, 1), 2);
    assert_eq!(release_tail(true, 1, 1), 1);
    assert_eq!(release_tail(false, 60, 1), 0);
    assert_eq!(release_tail(true, -60, 1), 0);
    assert_eq!(line_step(HandleKind::List, 24, 64), 1280);
    assert_eq!(line_step(HandleKind::Scroll, 24, 64), 24);
}
