//! Which viewport a motion moves, and how far.

use super::wheel::{asked, gives_way, reached, same_position, wheel_target, Position, Reach};
use super::{
    bounded, captured, entry_of, innermost, is_length, scrolled, step, uncovered, Capture, Entry,
    HandleKind, PendingOffset, Registry, ScrollEvent, SetOffset, TouchPhase, Viewport,
};
use crate::geometry::{Bounds, Point};
use vstd::prelude::*;

verus! {

/// A viewport's offset stays between its limits, and is what was asked for where that
/// lies between them; beyond, it is the limit.
pub proof fn law_offsets_stay_within_limits(offset: i64, max: i64)
    requires
        max >= 0,
    ensures
        -max <= bounded(offset, max) <= 0,
        -max <= offset <= 0 ==> bounded(offset, max) == offset,
        offset > 0 ==> bounded(offset, max) == 0,
        offset < -max ==> bounded(offset, max) == -max,
{
}

/// A point lies in a rectangle up to its right and lower edges, which do not belong
/// to it.
pub proof fn law_edges_of_a_rectangle(bounds: Bounds, point: Point)
    ensures
        bounds.has(point) <==> point.x >= bounds.origin.x && point.y >= bounds.origin.y && point.x
            < bounds.origin.x + bounds.width && point.y < bounds.origin.y + bounds.height,
{
}

/// Whether the viewport at a place is the last of those that a point lies in.
pub open spec fn last_under(entries: Seq<Entry>, position: Point, at: int) -> bool {
    &&& 0 <= at < entries.len()
    &&& entries[at].bounds.has(position)
    &&& forall|j: int| at < j < entries.len() ==> !(#[trigger] entries[j]).bounds.has(position)
}

/// A gesture goes to the viewport under the finger that was registered last, and
/// to none where no viewport is under it.
pub proof fn law_a_gesture_takes_the_innermost_viewport(
    entries: Seq<Entry>,
    position: Point,
    at: int,
)
    ensures
        last_under(entries, position, at) ==> {
            &&& innermost(entries, position) == Some(entries[at])
            &&& captured(entries, position) is Some
            &&& captured(entries, position)->0.target == entries[at]
            &&& !captured(entries, position)->0.momentum
            &&& captured(entries, position)->0.textarea_pending is None
            &&& entries[at].parent is None ==> captured(entries, position)->0.ancestor is None
        },
        (forall|j: int| 0 <= j < entries.len() ==> !(#[trigger] entries[j]).bounds.has(position))
            ==> captured(entries, position) is None,
    decreases entries.len(),
{
    if entries.len() > 0 {
        let init = entries.drop_last();
        law_a_gesture_takes_the_innermost_viewport(init, position, at);
        if last_under(entries, position, at) && at < init.len() {
            assert(!entries[entries.len() - 1].bounds.has(position));
            assert forall|j: int| at < j < init.len() implies !(#[trigger] init[j]).bounds.has(
                position,
            ) by {
                assert(init[j] == entries[j]);
            }
            assert(init[at] == entries[at]);
        }
        if forall|j: int| 0 <= j < entries.len() ==> !(#[trigger] entries[j]).bounds.has(position) {
            assert(!entries[entries.len() - 1].bounds.has(position));
            assert forall|j: int| 0 <= j < init.len() implies !(#[trigger] init[j]).bounds.has(
                position,
            ) by {
                assert(init[j] == entries[j]);
            }
        }
    }
}

/// The viewport that a gesture hands over to is the first with the identity of the
/// captured one's parent.
pub proof fn law_a_gesture_hands_over_to_the_parent(
    entries: Seq<Entry>,
    position: Point,
    at: int,
    up: int,
)
    requires
        last_under(entries, position, at),
        entries[at].parent is Some,
        0 <= up < entries.len(),
        entries[up].id@ == entries[at].parent->0@,
        forall|j: int| 0 <= j < up ==> (#[trigger] entries[j]).id@ != entries[at].parent->0@,
    ensures
        captured(entries, position)->0.ancestor == Some(entries[up]),
{
    law_a_gesture_takes_the_innermost_viewport(entries, position, at);
    lemma_entry(entries, entries[at].parent->0@, up);
}

proof fn lemma_entry(entries: Seq<Entry>, id: Seq<char>, at: int)
    requires
        0 <= at < entries.len(),
        entries[at].id@ == id,
        forall|j: int| 0 <= j < at ==> (#[trigger] entries[j]).id@ != id,
    ensures
        entry_of(entries, id) == Some(entries[at]),
    decreases at,
{
    if at > 0 {
        let rest = entries.drop_first();
        assert(entries[0].id@ != id);
        assert forall|j: int| 0 <= j < at - 1 implies (#[trigger] rest[j]).id@ != id by {
            assert(rest[j] == entries[j + 1]);
        }
        lemma_entry(rest, id, at - 1);
    }
}

/// A plain viewport moves by the motion and stops at its limits; it hands on what it
/// did not move by.
pub proof fn law_a_viewport_stops_at_its_limits(view: Viewport, delta: Point)
    requires
        view.max.x >= 0,
        view.max.y >= 0,
        is_length(view.offset.x + delta.x),
        is_length(view.offset.y + delta.y),
    ensures
        ({
            let result = scrolled(HandleKind::Scroll, view, delta);
            &&& result.offset is Some
            &&& -view.max.x <= result.offset->0.x <= 0
            &&& -view.max.y <= result.offset->0.y <= 0
            &&& -view.max.y <= view.offset.y + delta.y <= 0 ==> result.offset->0.y == view.offset.y
                + delta.y && result.remaining.y == 0
            &&& -view.max.x <= view.offset.x + delta.x <= 0 ==> result.offset->0.x == view.offset.x
                + delta.x && result.remaining.x == 0
            &&& view.offset.y + delta.y > 0 ==> result.offset->0.y == 0
            &&& view.offset.y + delta.y < -view.max.y ==> result.offset->0.y == -view.max.y
        }),
{
}

/// A list is told where a motion down or up leads, its limits being its own, and is
/// not moved across; a text area takes every motion whole.
pub proof fn law_lists_and_text_areas_have_their_own_limits(view: Viewport, delta: Point)
    requires
        is_length(view.offset.x + delta.x),
        is_length(view.offset.y + delta.y),
    ensures
        delta.y == 0 ==> scrolled(HandleKind::List, view, delta).offset is None && scrolled(
            HandleKind::List,
            view,
            delta,
        ).remaining == delta,
        delta.y != 0 ==> {
            let told = scrolled(HandleKind::List, view, delta).offset;
            told is Some && told->0.x == view.offset.x + delta.x && told->0.y == view.offset.y
                + delta.y
        },
        delta.y != 0 ==> scrolled(HandleKind::List, view, delta).remaining == scrolled(
            HandleKind::Scroll,
            view,
            delta,
        ).remaining,
        scrolled(HandleKind::Textarea, view, delta).remaining.x == 0,
        scrolled(HandleKind::Textarea, view, delta).remaining.y == 0,
        scrolled(HandleKind::Textarea, view, delta).offset is Some,
        scrolled(HandleKind::Textarea, view, delta).offset->0.y == view.offset.y + delta.y,
{
}

/// Motions within one frame add up in a text area, which takes none of them on before
/// the next layout.
pub proof fn law_motions_in_a_text_area_add_up(
    entry: Entry,
    view: Viewport,
    asked: Point,
    delta: Point,
    frame: u64,
    later: u64,
)
    requires
        entry.kind == HandleKind::Textarea,
        frame != later,
        is_length(asked.x + delta.x),
        is_length(asked.y + delta.y),
        is_length(view.offset.x + delta.x),
        is_length(view.offset.y + delta.y),
    ensures
        ({
            let pending = Some(PendingOffset { frame, offset: asked });
            let now = step(entry, pending, view, delta, frame).offset;
            let then = step(entry, pending, view, delta, later).offset;
            &&& now is Some && now->0.x == asked.x + delta.x && now->0.y == asked.y + delta.y
            &&& then is Some && then->0.x == view.offset.x + delta.x && then->0.y == view.offset.y
                + delta.y
        }),
{
}

/// A motion sets the captured viewport alone while it takes the whole of it; what it
/// leaves is the parent's, which has the gesture from then on.
pub proof fn law_a_motion_sets_what_it_moves(
    capture: Capture,
    delta: Point,
    frame: u64,
    target: Viewport,
    ancestor: Viewport,
)
    requires
        capture.target.kind == HandleKind::Scroll,
        capture.ancestor is Some ==> capture.ancestor->0.kind == HandleKind::Scroll,
    ensures
        ({
            let first = scrolled(HandleKind::Scroll, target, delta);
            let done = capture.sets(delta, frame, target, ancestor);
            let after = capture.after(delta, frame, target, ancestor);
            &&& done.len() >= 1
            &&& done[0] == (SetOffset {
                handle: capture.target.handle,
                offset: first.offset->0,
            })
            &&& (first.remaining.x == 0 && first.remaining.y == 0) || capture.ancestor is None ==> {
                &&& done.len() == 1
                &&& after.target == capture.target
                &&& after.ancestor == capture.ancestor
            }
            &&& (first.remaining.x != 0 || first.remaining.y != 0) && capture.ancestor is Some ==> {
                let second = scrolled(HandleKind::Scroll, ancestor, first.remaining);
                &&& done.len() == 2
                &&& done[1] == (SetOffset {
                    handle: capture.ancestor->0.handle,
                    offset: second.offset->0,
                })
                &&& after.target == capture.ancestor->0
                &&& after.ancestor is None
            }
            &&& after.momentum == capture.momentum
        }),
{
}

/// A pan without a finger's start goes on with what is under way, and once nothing is
/// with what runs out; one that starts with no finger down takes what is under it.
pub proof fn law_a_pan_goes_on(registry: Registry, event: ScrollEvent)
    ensures
        event.phase == TouchPhase::Started && registry.pending is None ==> registry.taken(event)
            == captured(registry.entries@, event.position),
        event.phase != TouchPhase::Started && registry.active is Some ==> registry.taken(event)
            == registry.active,
        event.phase != TouchPhase::Started && registry.active is None ==> registry.taken(event)
            == registry.momentum,
{
}

/// Covered viewports are forgotten, the others stay, in their order.
pub proof fn law_covered_viewports_are_forgotten(
    entries: Seq<Entry>,
    kept: Seq<bool>,
    n: int,
    i: int,
)
    requires
        0 <= i < n <= entries.len(),
    ensures
        i < kept.len() && kept[i] ==> uncovered(entries, kept, n).contains(entries[i]),
        forall|k: int|
            0 <= k < uncovered(entries, kept, n).len() ==> exists|j: int|
                0 <= j < n && j < kept.len() && kept[j] && #[trigger] entries[j]
                    == #[trigger] uncovered(entries, kept, n)[k],
        uncovered(entries, kept, n).len() <= n,
    decreases n,
{
    let all = uncovered(entries, kept, n);
    let before = uncovered(entries, kept, n - 1);
    if n > 1 {
        law_covered_viewports_are_forgotten(
            entries,
            kept,
            n - 1,
            if i < n - 1 {
                i
            } else {
                0
            },
        );
    } else {
        assert(before.len() == 0);
    }
    if i < kept.len() && kept[i] {
        if i < n - 1 {
            let k = choose|k: int| 0 <= k < before.len() && before[k] == entries[i];
            assert(all[k] == entries[i]);
        } else {
            assert(all[before.len() as int] == entries[i]);
        }
    }
    assert forall|k: int| 0 <= k < all.len() implies exists|j: int|
        0 <= j < n && j < kept.len() && kept[j] && #[trigger] entries[j] == #[trigger] all[k] by {
        if k < before.len() {
            assert(all[k] == before[k]);
            let j = choose|j: int|
                0 <= j < n - 1 && j < kept.len() && kept[j] && #[trigger] entries[j] == before[k];
            assert(entries[j] == all[k]);
        } else {
            assert(entries[n - 1] == all[k]);
        }
    }
}

/// A notch moves a viewport exactly if there is room in the way that it goes.
pub proof fn law_a_notch_needs_room(reach: Reach)
    requires
        reach.max >= 0,
        -reach.max <= reach.offset <= 0,
    ensures
        reach.delta > 0 ==> (gives_way(reach) <==> reach.offset < 0),
        reach.delta < 0 ==> (gives_way(reach) <==> reach.offset > -reach.max),
        reach.delta == 0 ==> !gives_way(reach),
{
}

/// At its limit a viewport leaves the notch to its parent, and where it has none
/// nothing moves; nothing is decided for a text area.
pub proof fn law_a_notch_goes_to_the_parent(
    entries: Seq<Entry>,
    reaches: Seq<Option<Reach>>,
    at: int,
    hops: nat,
)
    requires
        0 <= at < entries.len(),
        at < reaches.len(),
        hops > 0,
    ensures
        reaches[at] is None ==> wheel_target(entries, reaches, at, hops) is None,
        reaches[at] is Some && gives_way(reaches[at]->0) ==> wheel_target(
            entries,
            reaches,
            at,
            hops,
        ) == Some(at),
        reaches[at] is Some && !gives_way(reaches[at]->0) && entries[at].parent is None
            ==> wheel_target(entries, reaches, at, hops) is None,
{
}

/// Whatever takes a notch is moved by it.
pub proof fn law_what_takes_a_notch_moves(
    entries: Seq<Entry>,
    reaches: Seq<Option<Reach>>,
    at: int,
    hops: nat,
)
    requires
        wheel_target(entries, reaches, at, hops) is Some,
    ensures
        ({
            let taken = wheel_target(entries, reaches, at, hops)->0;
            reaches[taken] is Some && gives_way(reaches[taken]->0)
        }),
    decreases hops,
{
    if hops > 0 && at < reaches.len() && reaches[at] is Some && !gives_way(reaches[at]->0) {
        if let Some(parent) = super::wheel::parent_place(entries, at) {
            law_what_takes_a_notch_moves(entries, reaches, parent, (hops - 1) as nat);
        }
    }
}

/// A notch goes as far as it asks where there is room, and else to the limit.
pub proof fn law_a_notch_goes_to_the_limit(delta: i64, offset: i64, max: i64)
    requires
        max >= 0,
        -max <= offset <= 0,
    ensures
        asked(None, delta) == delta,
        -max <= offset + delta <= 0 ==> reached(None, delta, offset, max) == delta,
        offset + delta > 0 ==> offset + reached(None, delta, offset, max) == 0,
        offset + delta < -max ==> offset + reached(None, delta, offset, max) == -max,
{
}

/// A viewport that something else scrolled is no longer where a motion left it.
pub proof fn law_a_moved_viewport_is_elsewhere(
    item: usize,
    offset: i64,
    count: usize,
    elsewhere: i64,
    other: usize,
)
    requires
        elsewhere != offset,
        other != item,
    ensures
        !same_position(
            Position::List { item, offset, count },
            Position::List { item, offset: elsewhere, count },
        ),
        !same_position(
            Position::List { item, offset, count },
            Position::List { item: other, offset, count },
        ),
        same_position(
            Position::List { item, offset, count },
            Position::List { item, offset, count },
        ),
{
}

} // verus!
