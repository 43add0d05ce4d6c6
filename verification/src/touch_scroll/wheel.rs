//! Which viewport a turn of the wheel eases, and when a motion under way is
//! given up.
use crate::geometry::{plus, Point};
use crate::touch_scroll::{bounded, Entry, HandleKind};
use vstd::prelude::*;

verus! {

/// How long a notch takes to play out, in milliseconds.
pub const DURATION_MILLIS: u64 = 125;

/// The height of a line in lists, in pixels.
pub const LIST_LINE: i64 = 20;

/// How far one line of a notch scrolls a viewport: a list by a height of its own,
/// anything else by its line. `pixel` is how much a pixel is.
pub fn line_step(kind: HandleKind, line_height: i64, pixel: i64) -> (step: i128)
    ensures
        step == if kind == HandleKind::List {
            LIST_LINE * pixel
        } else {
            line_height as int
        },
{
    if kind == HandleKind::List {
        let line: i128 = LIST_LINE as i128;
        let unit: i128 = pixel as i128;
        assert(line * unit == 20 * unit);
        line * unit
    } else {
        line_height as i128
    }
}

/// A place in a viewport. A list's anchor survives that its rows are measured
/// again; an offset does not.
#[derive(Clone, Copy, Debug, PartialEq, Eq, Structural)]
pub enum Position {
    Scroll(i64),
    List { item: usize, offset: i64, count: usize },
}

pub open spec fn same_position(old: Position, new: Position) -> bool {
    match (old, new) {
        (Position::Scroll(a), Position::Scroll(b)) => a == b,
        (
            Position::List { item: a, offset: x, count: m },
            Position::List { item: b, offset: y, count: n },
        ) => x == y && (a == b || m - a == n - b),
        _ => false,
    }
}

impl Position {
    /// Whether a viewport is still where it was. History put in front of a list
    /// shifts the anchor and the count alike and moves nothing; being positioned
    /// by anything else does.
    pub fn matches(self, now: Position) -> (same: bool)
        ensures
            same == same_position(self, now),
    {
        match (self, now) {
            (Position::Scroll(a), Position::Scroll(b)) => a == b,
            (
                Position::List { item: a, offset: x, count: m },
                Position::List { item: b, offset: y, count: n },
            ) => x == y && (a == b || m as i128 - a as i128 == n as i128 - b as i128),
            _ => false,
        }
    }
}

/// Prepending any number of items keeps a list where it was.
pub proof fn law_prepending_keeps_the_place(item: usize, offset: i64, count: usize, added: usize)
    requires
        item + added <= usize::MAX,
        count + added <= usize::MAX,
    ensures
        same_position(
            Position::List { item, offset, count },
            Position::List {
                item: (item + added) as usize,
                offset,
                count: (count + added) as usize,
            },
        ),
{
}

/// A motion under way in a viewport.
#[derive(Debug)]
pub struct Motion {
    pub id: String,
    pub expected: Position,
}

/// A turn of the wheel.
#[derive(Clone, Copy, Debug, PartialEq, Eq, Structural)]
pub struct WheelEvent {
    pub position: Point,
    /// Whether it counts lines, as a wheel does; a trackpad counts pixels.
    pub by_lines: bool,
    /// Whether it turns up or down at all, and more so than across.
    pub vertical: bool,
    pub shift: bool,
}

/// Whether a turn of the wheel is eased. Any other only ends what is under way.
pub fn eases(event: WheelEvent, reduce_motion: bool) -> (eased: bool)
    ensures
        eased == (event.by_lines && event.vertical && !event.shift && !reduce_motion),
{
    event.by_lines && event.vertical && !event.shift && !reduce_motion
}

/// How far a viewport is scrolled and can be, and how far the notch moves it. A
/// text area has its own way with the wheel.
#[derive(Clone, Copy, Debug, PartialEq, Eq, Structural)]
pub struct Reach {
    pub offset: i64,
    pub max: i64,
    pub delta: i64,
}

/// Whether a notch moves a viewport.
pub open spec fn gives_way(reach: Reach) -> bool {
    bounded(crate::geometry::nearest(bounded(reach.offset, reach.max) + reach.delta), reach.max)
        != bounded(reach.offset, reach.max)
}

/// The place of a viewport's parent.
pub open spec fn parent_place(entries: Seq<Entry>, at: int) -> Option<int> {
    match entries[at].parent {
        Some(id) => place_of(entries, id@),
        None => None,
    }
}

/// The place of the first viewport of an identity.
pub open spec fn place_of(entries: Seq<Entry>, id: Seq<char>) -> Option<int>
    decreases entries.len(),
{
    if entries.len() == 0 {
        None
    } else if entries[0].id@ == id {
        Some(0)
    } else {
        match place_of(entries.drop_first(), id) {
            Some(i) => Some(i + 1),
            None => None,
        }
    }
}

/// The viewport that takes a notch: the one at `at` where the notch moves it, else
/// its parent, and so on; at most `hops` are asked. None where a text area is
/// met, whose reach is not known.
pub open spec fn wheel_target(
    entries: Seq<Entry>,
    reaches: Seq<Option<Reach>>,
    at: int,
    hops: nat,
) -> Option<
    int,
>
    decreases hops,
{
    if hops == 0 || at >= reaches.len() {
        None
    } else {
        match reaches[at] {
            None => None,
            Some(reach) => if gives_way(reach) {
                Some(at)
            } else {
                match parent_place(entries, at) {
                    Some(parent) => wheel_target(entries, reaches, parent, (hops - 1) as nat),
                    None => None,
                }
            },
        }
    }
}

proof fn lemma_place_skips(entries: Seq<Entry>, id: Seq<char>, at: int)
    requires
        0 <= at < entries.len(),
        entries[at].id@ == id,
        forall|j: int| 0 <= j < at ==> (#[trigger] entries[j]).id@ != id,
    ensures
        place_of(entries, id) == Some(at),
    decreases at,
{
    if at > 0 {
        let rest = entries.drop_first();
        assert(entries[0].id@ != id);
        assert forall|j: int| 0 <= j < at - 1 implies (#[trigger] rest[j]).id@ != id by {
            assert(rest[j] == entries[j + 1]);
        }
        lemma_place_skips(rest, id, at - 1);
    }
}

proof fn lemma_no_place(entries: Seq<Entry>, id: Seq<char>)
    requires
        forall|j: int| 0 <= j < entries.len() ==> (#[trigger] entries[j]).id@ != id,
    ensures
        place_of(entries, id) is None,
    decreases entries.len(),
{
    if entries.len() > 0 {
        let rest = entries.drop_first();
        assert(entries[0].id@ != id);
        assert forall|j: int| 0 <= j < rest.len() implies (#[trigger] rest[j]).id@ != id by {
            assert(rest[j] == entries[j + 1]);
        }
        lemma_no_place(rest, id);
    }
}

fn find_place(entries: &Vec<Entry>, id: &String) -> (at: Option<usize>)
    ensures
        match (at, place_of(entries@, id@)) {
            (Some(i), Some(place)) => i == place && i < entries@.len(),
            (None, None) => true,
            _ => false,
        },
{
    let mut i: usize = 0;
    while i < entries.len()
        invariant
            i <= entries@.len(),
            forall|j: int| 0 <= j < i ==> (#[trigger] entries@[j]).id@ != id@,
        decreases entries@.len() - i,
    {
        if entries[i].id == *id {
            proof {
                lemma_place_skips(entries@, id@, i as int);
            }
            return Some(i);
        }
        i += 1;
    }
    proof {
        lemma_no_place(entries@, id@);
    }
    None
}

fn clamp(offset: i64, max: i64) -> (within: i64)
    ensures
        within == bounded(offset, max),
{
    crate::touch_scroll::bounded_offset(Point { x: offset, y: 0 }, Point { x: max, y: 0 }).x
}

/// The viewport that takes a notch over the one at `start`: at a nested
/// viewport's limit its parent gets it.
pub fn target(
    entries: &Vec<Entry>,
    reaches: &Vec<Option<Reach>>,
    start: usize,
) -> (found: Option<usize>)
    requires
        start < entries@.len(),
    ensures
        match (
            found,
            wheel_target(entries@, reaches@, start as int, entries@.len()),
        ) {
            (Some(i), Some(place)) => i == place,
            (None, None) => true,
            _ => false,
        },
{
    let mut at: usize = start;
    let mut hops: usize = entries.len();
    while hops > 0
        invariant
            at < entries@.len(),
            hops <= entries@.len(),
            wheel_target(entries@, reaches@, start as int, entries@.len()) == wheel_target(
                entries@,
                reaches@,
                at as int,
                hops as nat,
            ),
        decreases hops,
    {
        if at >= reaches.len() {
            return None;
        }
        match reaches[at] {
            None => {
                return None;
            },
            Some(reach) => {
                let offset: i64 = clamp(reach.offset, reach.max);
                if clamp(plus(offset, reach.delta), reach.max) != offset {
                    return Some(at);
                }
            },
        }
        match &entries[at].parent {
            Some(id) => match find_place(entries, id) {
                Some(parent) => {
                    at = parent;
                },
                None => {
                    return None;
                },
            },
            None => {
                return None;
            },
        }
        hops -= 1;
    }
    None
}

/// Whether a motion goes on: its viewport is still there, and where the motion
/// left it.
pub fn goes_on(motion: &Motion, id: &String, now: Position) -> (on: bool)
    ensures
        on == (motion.id@ == id@ && same_position(motion.expected, now)),
{
    motion.id == *id && motion.expected.matches(now)
}

/// Before a layout, a motion ends whose viewport was moved by something else. One
/// whose viewport is not registered is left to the end of the layout.
pub fn survives_before_layout(motion: &Motion, registered: Option<Position>) -> (survives: bool)
    ensures
        survives == (match registered {
            Some(now) => same_position(motion.expected, now),
            None => true,
        }),
{
    match registered {
        Some(now) => motion.expected.matches(now),
        None => true,
    }
}

/// After a layout, a motion takes the place that the layout gave its viewport, and
/// ends where the viewport is gone.
pub fn after_layout(motion: Motion, registered: Option<Position>) -> (next: Option<Motion>)
    ensures
        match (next, registered) {
            (Some(m), Some(now)) => m == (Motion { expected: now, ..motion }),
            (None, None) => true,
            _ => false,
        },
{
    match registered {
        Some(now) => Some(Motion { id: motion.id, expected: now }),
        None => None,
    }
}

/// A notch that the viewport under the pointer has room for stays with it: no
/// parent is asked.
pub proof fn law_the_innermost_takes_the_notch(
    entries: Seq<Entry>,
    reaches: Seq<Option<Reach>>,
    at: int,
)
    requires
        0 <= at < entries.len(),
        at < reaches.len(),
        reaches[at] is Some && gives_way(reaches[at]->0),
    ensures
        wheel_target(entries, reaches, at, entries.len()) == Some(at),
{
}

/// Whether two motions go the same way.
pub open spec fn same_way(a: int, b: int) -> bool {
    (a > 0 && b > 0) || (a < 0 && b < 0)
}

/// How far a notch asks to go: by itself, and by what is left of a motion that goes
/// the same way. One that goes the other way is given up.
pub open spec fn asked(remaining: Option<i64>, delta: i64) -> int {
    match remaining {
        Some(left) => if same_way(left as int, delta as int) {
            left + delta
        } else {
            delta as int
        },
        None => delta as int,
    }
}

/// How far a notch goes in a viewport at an offset that reaches from zero down to
/// the negated maximum.
pub open spec fn reached(remaining: Option<i64>, delta: i64, offset: i64, max: i64) -> int {
    let wanted = asked(remaining, delta);
    if wanted < -max - offset {
        -max - offset
    } else if wanted > -offset {
        -offset
    } else {
        wanted
    }
}

/// How far a notch asks to go, given what is left of a motion under way; how long it
/// plays out goes by that.
pub fn asked_travel(remaining: Option<i64>, delta: i64) -> (travel: i128)
    ensures
        travel == asked(remaining, delta),
{
    match remaining {
        Some(left) => if (left > 0 && delta > 0) || (left < 0 && delta < 0) {
            left as i128 + delta as i128
        } else {
            delta as i128
        },
        None => delta as i128,
    }
}

/// How far a notch goes, given what is left of a motion under way.
pub fn travel(remaining: Option<i64>, delta: i64, offset: i64, max: i64) -> (travel: i64)
    requires
        0 <= max,
        -max <= offset <= 0,
    ensures
        travel == reached(remaining, delta, offset, max),
{
    let wanted: i128 = asked_travel(remaining, delta);
    let least: i64 = -max - offset;
    let most: i64 = -offset;
    if wanted < least as i128 {
        least
    } else if wanted > most as i128 {
        most
    } else {
        wanted as i64
    }
}

/// How much of a motion a list that follows its end makes at once: enough that the
/// end does not take it back before the first frame. `pixel` is how much a pixel is.
pub fn release_tail(following: bool, travel: i64, pixel: i64) -> (release: i64)
    requires
        0 <= pixel <= 0x4000_0000_0000_0000 - 1,
    ensures
        release == if !following || travel <= 0 {
            0
        } else if travel < 2 * pixel {
            travel as int
        } else {
            2 * pixel
        },
{
    if !following || travel <= 0 {
        0
    } else if travel < 2 * pixel {
        travel
    } else {
        2 * pixel
    }
}

/// No notch scrolls past an end, however many came before it.
pub proof fn law_a_notch_never_overscrolls(
    remaining: Option<i64>,
    delta: i64,
    offset: i64,
    max: i64,
)
    requires
        0 <= max,
        -max <= offset <= 0,
    ensures
        -max <= offset + reached(remaining, delta, offset, max) <= 0,
{
}

/// A notch against the motion under way discards where that was going.
pub proof fn law_reversing_discards_the_old_destination(
    remaining: i64,
    delta: i64,
    offset: i64,
    max: i64,
)
    requires
        (remaining > 0 && delta < 0) || (remaining < 0 && delta > 0),
    ensures
        reached(Some(remaining), delta, offset, max) == reached(None, delta, offset, max),
{
}

/// Notches one way add up, as long as there is room for them.
pub proof fn law_notches_add_up(first: i64, second: i64, offset: i64, max: i64)
    requires
        same_way(first as int, second as int),
        -max <= offset + first + second <= 0,
        -max <= offset + first <= 0,
    ensures
        reached(
            Some(reached(None, first, offset, max) as i64),
            second,
            offset,
            max,
        ) == first + second,
{
}

} // verus!
