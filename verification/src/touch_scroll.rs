//! Which viewport a pan scrolls.
//!
//! Viewports register themselves as they are laid out, the outer ones first. A
//! gesture captures the innermost one under it and keeps it, whatever moves under
//! the finger meanwhile; at its limit it hands over to its parent, once.
use crate::geometry::{greater, larger, plus, Bounds, Point};
use vstd::prelude::*;

pub mod reach_laws;
pub mod wheel;

verus! {

/// What scrolls.
#[derive(Clone, Copy, Debug, PartialEq, Eq, Structural)]
pub enum HandleKind {
    Scroll,
    List,
    Textarea,
}

/// A registered viewport.
#[derive(Debug)]
pub struct Entry {
    pub id: String,
    /// The viewport that it was registered in.
    pub parent: Option<String>,
    pub bounds: Bounds,
    pub line_height: i64,
    pub kind: HandleKind,
    /// The handle by which the painter scrolls it.
    pub handle: u64,
}

impl Clone for Entry {
    fn clone(&self) -> (copy: Self)
        ensures
            copy == *self,
    {
        Entry {
            id: self.id.clone(),
            parent: crate::protocol::copy_text(&self.parent),
            bounds: self.bounds,
            line_height: self.line_height,
            kind: self.kind,
            handle: self.handle,
        }
    }
}

/// How far a viewport is scrolled, and how far it can be; offsets go from zero
/// down to the negated maximum.
#[derive(Clone, Copy, Debug, PartialEq, Eq, Structural)]
pub struct Viewport {
    pub offset: Point,
    pub max: Point,
}

pub open spec fn bounded(offset: i64, max: i64) -> i64 {
    let least = -greater(max, 0);
    if offset < least {
        least as i64
    } else if offset > 0 {
        0
    } else {
        offset
    }
}

pub open spec fn spec_bounded_offset(offset: Point, max: Point) -> Point {
    Point { x: bounded(offset.x, max.x), y: bounded(offset.y, max.y) }
}

fn bound(offset: i64, max: i64) -> (within: i64)
    ensures
        within == bounded(offset, max),
{
    let least: i64 = -larger(max, 0);
    if offset < least {
        least
    } else if offset > 0 {
        0
    } else {
        offset
    }
}

pub fn bounded_offset(offset: Point, max: Point) -> (within: Point)
    ensures
        within == spec_bounded_offset(offset, max),
{
    Point { x: bound(offset.x, max.x), y: bound(offset.y, max.y) }
}

/// What scrolling does: where the handle is set to, if it is, and what is left of
/// the motion.
#[derive(Clone, Copy, Debug, PartialEq, Eq, Structural)]
pub struct Scrolled {
    pub offset: Option<Point>,
    pub remaining: Point,
}

/// How a viewport takes a motion. A list clamps its own padded extent, so it is
/// told the whole offset; a text area clamps after layout, so it keeps all.
pub open spec fn scrolled(kind: HandleKind, view: Viewport, delta: Point) -> Scrolled {
    let wanted = view.offset.spec_plus(delta);
    let next = spec_bounded_offset(wanted, view.max);
    let left = delta.spec_minus(next.spec_minus(view.offset));
    match kind {
        HandleKind::Scroll => Scrolled { offset: Some(next), remaining: left },
        HandleKind::List => if delta.y == 0 {
            Scrolled { offset: None, remaining: delta }
        } else {
            Scrolled { offset: Some(wanted), remaining: left }
        },
        HandleKind::Textarea => Scrolled { offset: Some(wanted), remaining: Point::zero() },
    }
}

pub fn apply(kind: HandleKind, view: Viewport, delta: Point) -> (result: Scrolled)
    ensures
        result == scrolled(kind, view, delta),
{
    let wanted = view.offset.plus(delta);
    let next = bounded_offset(wanted, view.max);
    let left = delta.minus(next.minus(view.offset));
    match kind {
        HandleKind::Scroll => Scrolled { offset: Some(next), remaining: left },
        HandleKind::List => if delta.y == 0 {
            Scrolled { offset: None, remaining: delta }
        } else {
            Scrolled { offset: Some(wanted), remaining: left }
        },
        HandleKind::Textarea => Scrolled { offset: Some(wanted), remaining: Point { x: 0, y: 0 } },
    }
}

/// An offset asked of a text area in a frame, which it takes on at the next
/// layout.
#[derive(Clone, Copy, Debug, PartialEq, Eq, Structural)]
pub struct PendingOffset {
    pub frame: u64,
    pub offset: Point,
}

/// A gesture's hold on a viewport.
#[derive(Debug)]
pub struct Capture {
    pub target: Entry,
    pub ancestor: Option<Entry>,
    /// Whether the finger is lifted and the motion runs out.
    pub momentum: bool,
    pub textarea_pending: Option<PendingOffset>,
}

/// An offset that a handle is set to.
#[derive(Clone, Copy, Debug, PartialEq, Eq, Structural)]
pub struct SetOffset {
    pub handle: u64,
    pub offset: Point,
}

/// Where a text area is scrolled from: what was asked of it in this frame, else
/// where it is.
pub open spec fn textarea_base(
    pending: Option<PendingOffset>,
    frame: u64,
    view: Viewport,
) -> Point {
    match pending {
        Some(p) => if p.frame == frame {
            p.offset
        } else {
            view.offset
        },
        None => view.offset,
    }
}

/// The effect of a motion on one viewport.
pub open spec fn step(
    entry: Entry,
    pending: Option<PendingOffset>,
    view: Viewport,
    delta: Point,
    frame: u64,
) -> Scrolled {
    if entry.kind == HandleKind::Textarea {
        Scrolled {
            offset: Some(textarea_base(pending, frame, view).spec_plus(delta)),
            remaining: Point::zero(),
        }
    } else {
        scrolled(entry.kind, view, delta)
    }
}

pub open spec fn moved(entry: Entry, result: Scrolled) -> Seq<SetOffset> {
    match result.offset {
        Some(offset) => seq![SetOffset { handle: entry.handle, offset }],
        None => Seq::empty(),
    }
}

/// What a text area remembers of a motion.
pub open spec fn remembered(
    entry: Entry,
    pending: Option<PendingOffset>,
    result: Scrolled,
    frame: u64,
) -> Option<PendingOffset> {
    if entry.kind == HandleKind::Textarea {
        match result.offset {
            Some(offset) => Some(PendingOffset { frame, offset }),
            None => pending,
        }
    } else {
        pending
    }
}

impl Capture {
    /// Whether a motion goes over to the ancestor: the target leaves some of it.
    pub open spec fn hands_over(self, delta: Point, frame: u64, target: Viewport) -> bool {
        self.ancestor is Some && step(
            self.target,
            self.textarea_pending,
            target,
            delta,
            frame,
        ).remaining != Point::zero()
    }

    /// The capture after a motion.
    pub open spec fn after(
        self,
        delta: Point,
        frame: u64,
        target: Viewport,
        ancestor: Viewport,
    ) -> Capture {
        let first = step(self.target, self.textarea_pending, target, delta, frame);
        if self.hands_over(delta, frame, target) {
            let parent = self.ancestor->0;
            let second = step(parent, self.textarea_pending, ancestor, first.remaining, frame);
            Capture {
                target: parent,
                ancestor: None,
                textarea_pending: remembered(parent, self.textarea_pending, second, frame),
                ..self
            }
        } else {
            Capture {
                textarea_pending: remembered(self.target, self.textarea_pending, first, frame),
                ..self
            }
        }
    }

    /// The offsets that a motion sets.
    pub open spec fn sets(
        self,
        delta: Point,
        frame: u64,
        target: Viewport,
        ancestor: Viewport,
    ) -> Seq<
        SetOffset,
    > {
        let first = step(self.target, self.textarea_pending, target, delta, frame);
        if self.hands_over(delta, frame, target) {
            moved(self.target, first) + moved(
                self.ancestor->0,
                step(
                    self.ancestor->0,
                    self.textarea_pending,
                    ancestor,
                    first.remaining,
                    frame,
                ),
            )
        } else {
            moved(self.target, first)
        }
    }

    fn step_one(
        entry: &Entry,
        pending: Option<PendingOffset>,
        view: Viewport,
        delta: Point,
        frame: u64,
    ) -> (result: Scrolled)
        ensures
            result == step(*entry, pending, view, delta, frame),
    {
        if entry.kind == HandleKind::Textarea {
            let base = match pending {
                Some(p) => if p.frame == frame {
                    p.offset
                } else {
                    view.offset
                },
                None => view.offset,
            };
            Scrolled { offset: Some(base.plus(delta)), remaining: Point { x: 0, y: 0 } }
        } else {
            apply(entry.kind, view, delta)
        }
    }

    fn record(&mut self, result: Scrolled, frame: u64, sets: &mut Vec<SetOffset>)
        ensures
            *final(self) == (Capture {
                textarea_pending: remembered(
                    old(self).target,
                    old(self).textarea_pending,
                    result,
                    frame,
                ),
                ..*old(self)
            }),
            final(sets)@ == old(sets)@ + moved(old(self).target, result),
    {
        let ghost before = sets@;
        if let Some(offset) = result.offset {
            if self.target.kind == HandleKind::Textarea {
                self.textarea_pending = Some(PendingOffset { frame, offset });
            }
            sets.push(SetOffset { handle: self.target.handle, offset });
        }
        assert(sets@ =~= before + moved(old(self).target, result));
    }

    /// Take a motion, given how the target and its ancestor are scrolled.
    pub fn apply(
        &mut self,
        delta: Point,
        frame: u64,
        target: Viewport,
        ancestor: Viewport,
    ) -> (sets:
        Vec<SetOffset>)
        ensures
            *final(self) == old(self).after(delta, frame, target, ancestor),
            sets@ == old(self).sets(delta, frame, target, ancestor),
    {
        let mut sets: Vec<SetOffset> = Vec::new();
        let pending = self.textarea_pending;
        let first = Self::step_one(&self.target, pending, target, delta, frame);
        self.record(first, frame, &mut sets);
        if first.remaining.x != 0 || first.remaining.y != 0 {
            let mut taken: Option<Entry> = None;
            std::mem::swap(&mut taken, &mut self.ancestor);
            if let Some(parent) = taken {
                let second = Self::step_one(&parent, pending, ancestor, first.remaining, frame);
                self.target = parent;
                self.record(second, frame, &mut sets);
            }
        }
        assert(sets@ =~= old(self).sets(delta, frame, target, ancestor));
        sets
    }
}

/// Where a gesture is.
#[derive(Clone, Copy, Debug, PartialEq, Eq, Structural)]
pub enum TouchPhase {
    Started,
    Moved,
    Ended,
    Cancelled,
}

/// A pan as it reaches a window.
#[derive(Clone, Copy, Debug, PartialEq, Eq, Structural)]
pub struct ScrollEvent {
    pub position: Point,
    pub phase: TouchPhase,
}

/// The viewports of a window and the gesture over them.
pub struct Registry {
    pub entries: Vec<Entry>,
    pub parents: Vec<String>,
    pub frame: u64,
    pub pending: Option<Capture>,
    pub active: Option<Capture>,
    pub momentum: Option<Capture>,
}

/// The first viewport of an identity.
pub open spec fn entry_of(entries: Seq<Entry>, id: Seq<char>) -> Option<Entry>
    decreases entries.len(),
{
    if entries.len() == 0 {
        None
    } else if entries[0].id@ == id {
        Some(entries[0])
    } else {
        entry_of(entries.drop_first(), id)
    }
}

/// The last viewport under a point: the innermost.
pub open spec fn innermost(entries: Seq<Entry>, position: Point) -> Option<Entry>
    decreases entries.len(),
{
    if entries.len() == 0 {
        None
    } else if entries.last().bounds.has(position) {
        Some(entries.last())
    } else {
        innermost(entries.drop_last(), position)
    }
}

/// The capture of the innermost viewport under a point.
pub open spec fn captured(entries: Seq<Entry>, position: Point) -> Option<Capture> {
    match innermost(entries, position) {
        Some(target) => Some(
            Capture {
                target,
                ancestor: match target.parent {
                    Some(id) => entry_of(entries, id@),
                    None => None,
                },
                momentum: false,
                textarea_pending: None,
            },
        ),
        None => None,
    }
}

proof fn lemma_entry_skips(entries: Seq<Entry>, id: Seq<char>, at: int)
    requires
        0 <= at <= entries.len(),
        forall|j: int| 0 <= j < at ==> (#[trigger] entries[j]).id@ != id,
    ensures
        entry_of(entries, id) == entry_of(entries.skip(at), id),
    decreases at,
{
    if at == 0 {
        assert(entries.skip(0) =~= entries);
    } else {
        lemma_entry_skips(entries, id, at - 1);
        assert(entries.skip(at - 1).drop_first() =~= entries.skip(at));
        assert(entries.skip(at - 1)[0] == entries[at - 1]);
    }
}

/// The place of the first viewport of an identity.
pub(crate) fn position_of(entries: &Vec<Entry>, id: &String) -> (at: Option<usize>)
    ensures
        match (at, entry_of(entries@, id@)) {
            (Some(i), Some(entry)) => i < entries@.len() && entries@[i as int] == entry,
            (None, None) => true,
            _ => false,
        },
{
    let mut i: usize = 0;
    while i < entries.len()
        invariant
            i <= entries@.len(),
            forall|j: int| 0 <= j < i ==> (#[trigger] entries@[j]).id@ != id@,
        decreases entries@.len() - i,
    {
        if entries[i].id == *id {
            proof {
                lemma_entry_skips(entries@, id@, i as int);
                assert(entries@.skip(i as int)[0] == entries@[i as int]);
            }
            return Some(i);
        }
        i += 1;
    }
    proof {
        lemma_entry_skips(entries@, id@, entries@.len() as int);
        assert(entries@.skip(entries@.len() as int) =~= Seq::<Entry>::empty());
    }
    None
}

/// The place of the innermost viewport under a point.
pub(crate) fn position_under(entries: &Vec<Entry>, position: Point) -> (at: Option<usize>)
    ensures
        match (at, innermost(entries@, position)) {
            (Some(i), Some(entry)) => i < entries@.len() && entries@[i as int] == entry,
            (None, None) => true,
            _ => false,
        },
{
    let mut i: usize = entries.len();
    assert(entries@.take(i as int) =~= entries@);
    while i > 0
        invariant
            i <= entries@.len(),
            innermost(entries@, position) == innermost(entries@.take(i as int), position),
        decreases i,
    {
        proof {
            assert(entries@.take(i as int).drop_last() =~= entries@.take(i - 1));
            assert(entries@.take(i as int).last() == entries@[i - 1]);
        }
        if entries[i - 1].bounds.contains(position) {
            return Some(i - 1);
        }
        i -= 1;
    }
    None
}

impl Registry {
    pub fn new() -> (registry: Self)
        ensures
            registry.entries@.len() == 0,
            registry.parents@.len() == 0,
            registry.frame == 0,
            registry.pending is None && registry.active is None && registry.momentum is None,
    {
        Registry {
            entries: Vec::new(),
            parents: Vec::new(),
            frame: 0,
            pending: None,
            active: None,
            momentum: None,
        }
    }

    /// Capture the innermost viewport under a point.
    pub fn hit_test(&self, position: Point) -> (capture: Option<Capture>)
        ensures
            capture == captured(self.entries@, position),
    {
        match position_under(&self.entries, position) {
            Some(i) => {
                let target = self.entries[i].clone();
                let ancestor = match &target.parent {
                    Some(id) => match position_of(&self.entries, id) {
                        Some(at) => Some(self.entries[at].clone()),
                        None => None,
                    },
                    None => None,
                };
                Some(Capture { target, ancestor, momentum: false, textarea_pending: None })
            },
            None => None,
        }
    }

    /// A finger goes down: the gesture that may follow is for what is under it.
    pub fn start(&mut self, position: Point)
        ensures
            final(self).active is None,
            final(self).momentum is None,
            final(self).pending == captured(old(self).entries@, position),
            final(self).entries == old(self).entries,
            final(self).parents == old(self).parents,
            final(self).frame == old(self).frame,
    {
        self.active = None;
        self.momentum = None;
        self.pending = self.hit_test(position);
    }

    /// The capture that a pan is for: the one made when the finger went down, the
    /// one under way, or the one whose motion runs out.
    pub open spec fn taken(&self, event: ScrollEvent) -> Option<Capture> {
        let pending = if event.phase == TouchPhase::Cancelled {
            None
        } else {
            self.pending
        };
        if event.phase == TouchPhase::Started {
            if pending is Some {
                pending
            } else {
                captured(self.entries@, event.position)
            }
        } else if self.active is Some {
            self.active
        } else {
            self.momentum
        }
    }

    pub fn take_scroll(&mut self, event: ScrollEvent) -> (capture: Option<Capture>)
        ensures
            capture == old(self).taken(event),
            final(self).active is None,
            final(self).pending == if event.phase == TouchPhase::Cancelled || event.phase
                == TouchPhase::Started {
                None
            } else {
                old(self).pending
            },
            final(self).momentum == if event.phase == TouchPhase::Started || old(self).active
                is None {
                None
            } else {
                old(self).momentum
            },
            final(self).entries == old(self).entries,
            final(self).parents == old(self).parents,
            final(self).frame == old(self).frame,
    {
        if event.phase == TouchPhase::Cancelled {
            self.pending = None;
        }
        if event.phase == TouchPhase::Started {
            let mut pending: Option<Capture> = None;
            std::mem::swap(&mut pending, &mut self.pending);
            self.active = match pending {
                Some(capture) => Some(capture),
                None => self.hit_test(event.position),
            };
            self.momentum = None;
        }
        let mut capture: Option<Capture> = None;
        std::mem::swap(&mut capture, &mut self.active);
        if capture.is_none() {
            std::mem::swap(&mut capture, &mut self.momentum);
        }
        capture
    }

    /// Put a capture back once its pan was applied. A lifted finger leaves only
    /// momentum, which the next gesture or a cancellation ends.
    pub fn finish_scroll(&mut self, capture: Capture, phase: TouchPhase)
        ensures
            final(self).entries == old(self).entries,
            final(self).parents == old(self).parents,
            final(self).frame == old(self).frame,
            match phase {
                TouchPhase::Cancelled => final(self).pending is None && final(self).active is None
                    && final(self).momentum is None,
                TouchPhase::Ended => final(self).pending is None && final(self).active
                    == old(self).active && final(self).momentum == if capture.momentum {
                    old(self).momentum
                } else {
                    Some(Capture { momentum: true, ..capture })
                },
                _ => final(self).pending == old(self).pending && (if capture.momentum {
                    final(self).momentum == Some(capture) && final(self).active
                        == old(self).active
                } else {
                    final(self).active == Some(capture) && final(self).momentum
                        == old(self).momentum
                }),
            },
    {
        match phase {
            TouchPhase::Cancelled => {
                self.pending = None;
                self.active = None;
                self.momentum = None;
            },
            TouchPhase::Ended => {
                self.pending = None;
                if !capture.momentum {
                    let mut running = capture;
                    running.momentum = true;
                    self.momentum = Some(running);
                }
            },
            _ => {
                if capture.momentum {
                    self.momentum = Some(capture);
                } else {
                    self.active = Some(capture);
                }
            },
        }
    }

    /// A new layout begins: all viewports register anew.
    pub fn begin_frame(&mut self)
        ensures
            final(self).entries@.len() == 0,
            final(self).parents@.len() == 0,
            final(self).frame == if old(self).frame == u64::MAX {
                0
            } else {
                (old(self).frame + 1) as u64
            },
            final(self).pending == old(self).pending,
            final(self).active == old(self).active,
            final(self).momentum == old(self).momentum,
    {
        self.entries = Vec::new();
        self.parents = Vec::new();
        self.frame = self.frame.wrapping_add(1);
    }

    /// Register a viewport inside those that are still being laid out.
    pub fn enter(
        &mut self,
        id: &String,
        bounds: Bounds,
        line_height: i64,
        kind: HandleKind,
        handle: u64,
    )
        ensures
            final(self).entries@.len() == old(self).entries@.len() + 1,
            final(self).entries@.drop_last() == old(self).entries@,
            ({
                let entry = final(self).entries@.last();
                &&& entry.id@ == id@
                &&& entry.bounds == bounds
                &&& entry.line_height == line_height
                &&& entry.kind == kind
                &&& entry.handle == handle
                &&& match entry.parent {
                    Some(parent) => old(self).parents@.len() > 0 && parent
                        == old(self).parents@.last(),
                    None => old(self).parents@.len() == 0,
                }
            }),
            final(self).parents@.drop_last() == old(self).parents@,
            final(self).parents@.len() > 0 && final(self).parents@.last()@ == id@,
            final(self).frame == old(self).frame,
            final(self).pending == old(self).pending,
            final(self).active == old(self).active,
            final(self).momentum == old(self).momentum,
    {
        let count: usize = self.parents.len();
        let parent = if count > 0 {
            Some(self.parents[count - 1].clone())
        } else {
            None
        };
        self.entries.push(Entry { id: id.clone(), parent, bounds, line_height, kind, handle });
        self.parents.push(id.clone());
        assert(self.entries@.drop_last() =~= old(self).entries@);
        assert(self.parents@.drop_last() =~= old(self).parents@);
    }

    /// The layout of the viewport registered last is done.
    pub fn leave(&mut self)
        ensures
            final(self).parents@ == if old(self).parents@.len() > 0 {
                old(self).parents@.drop_last()
            } else {
                old(self).parents@
            },
            final(self).entries == old(self).entries,
            final(self).frame == old(self).frame,
            final(self).pending == old(self).pending,
            final(self).active == old(self).active,
            final(self).momentum == old(self).momentum,
    {
        let _ = self.parents.pop();
        assert(self.parents@ =~= if old(self).parents@.len() > 0 {
            old(self).parents@.drop_last()
        } else {
            old(self).parents@
        });
    }

    /// Forget the viewports that menus or dialogs cover, `kept` saying of each
    /// whether it still takes scrolling.
    pub fn discard_occluded(&mut self, kept: &Vec<bool>)
        ensures
            final(self).entries@ == uncovered(
                old(self).entries@,
                kept@,
                old(self).entries@.len() as int,
            ),
            final(self).parents == old(self).parents,
            final(self).frame == old(self).frame,
            final(self).pending == old(self).pending,
            final(self).active == old(self).active,
            final(self).momentum == old(self).momentum,
    {
        let mut entries: Vec<Entry> = Vec::new();
        let mut i: usize = 0;
        while i < self.entries.len()
            invariant
                i <= self.entries@.len(),
                *self == *old(self),
                entries@ == uncovered(self.entries@, kept@, i as int),
            decreases self.entries@.len() - i,
        {
            if i < kept.len() && kept[i] {
                entries.push(self.entries[i].clone());
            }
            i += 1;
        }
        self.entries = entries;
    }
}

pub open spec fn uncovered(entries: Seq<Entry>, kept: Seq<bool>, n: int) -> Seq<Entry>
    decreases n,
{
    if n <= 0 {
        Seq::empty()
    } else if n - 1 < kept.len() && kept[n - 1] {
        uncovered(entries, kept, n - 1).push(entries[n - 1])
    } else {
        uncovered(entries, kept, n - 1)
    }
}

/// Whether a horizontal strip leaves a motion to the view underneath, in place of
/// swallowing it at its own vertical limit.
pub fn leaves_vertical(kind: HandleKind, max: Point, delta: Point) -> (leaves: bool)
    ensures
        leaves == (kind == HandleKind::Scroll && max.x > 0 && max.y == 0 && spec_abs(delta.y)
            > spec_abs(delta.x)),
{
    let down: i128 = if delta.y < 0 {
        -(delta.y as i128)
    } else {
        delta.y as i128
    };
    let across: i128 = if delta.x < 0 {
        -(delta.x as i128)
    } else {
        delta.x as i128
    };
    kind == HandleKind::Scroll && max.x > 0 && max.y == 0 && down > across
}

pub open spec fn spec_abs(v: i64) -> int {
    if v < 0 {
        -v
    } else {
        v as int
    }
}

/// A gesture keeps the viewport it began over: what `take_scroll` hands out for a
/// moving finger is what `finish_scroll` was given, wherever the finger and the
/// viewports are by now.
pub proof fn law_a_gesture_keeps_its_viewport(
    registry: Registry,
    capture: Capture,
    event: ScrollEvent,
)
    requires
        registry.active == Some(capture),
        event.phase == TouchPhase::Moved || event.phase == TouchPhase::Ended,
    ensures
        registry.taken(event) == Some(capture),
{
}

/// A gesture begins with the viewport that was under the finger when it went
/// down, even if another has moved there since.
pub proof fn law_a_gesture_begins_where_the_finger_went_down(
    registry: Registry,
    capture: Capture,
    event: ScrollEvent,
)
    requires
        registry.pending == Some(capture),
        event.phase == TouchPhase::Started,
    ensures
        registry.taken(event) == Some(capture),
{
}

/// A motion is handed over once: after it went to the ancestor there is none
/// left to hand on to.
pub proof fn law_a_motion_is_handed_over_once(
    capture: Capture,
    delta: Point,
    frame: u64,
    target: Viewport,
    ancestor: Viewport,
    again: Point,
)
    requires
        capture.hands_over(delta, frame, target),
    ensures
        capture.after(delta, frame, target, ancestor).target == capture.ancestor->0,
        !capture.after(delta, frame, target, ancestor).hands_over(again, frame, ancestor),
{
}

/// Whether a number fits a length.
pub open spec fn is_length(v: int) -> bool {
    i64::MIN <= v <= i64::MAX
}

/// Between a scroll view and its limits nothing of a motion is lost: what the view
/// moves and what it leaves add up to the motion. Where the motion leads, and how far
/// the view moves for it, have to fit a length.
pub proof fn law_scrolling_loses_nothing(view: Viewport, delta: Point)
    requires
        is_length(view.offset.x + delta.x),
        is_length(view.offset.y + delta.y),
        is_length(bounded((view.offset.x + delta.x) as i64, view.max.x) - view.offset.x),
        is_length(bounded((view.offset.y + delta.y) as i64, view.max.y) - view.offset.y),
    ensures
        ({
            let result = scrolled(HandleKind::Scroll, view, delta);
            &&& result.offset is Some
            &&& result.offset->0.x - view.offset.x + result.remaining.x == delta.x
            &&& result.offset->0.y - view.offset.y + result.remaining.y == delta.y
            &&& bounded(result.offset->0.x, view.max.x) == result.offset->0.x
            &&& bounded(result.offset->0.y, view.max.y) == result.offset->0.y
        }),
{
}

} // verus!
