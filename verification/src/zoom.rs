//! The scale of the whole interface, in percent.
use vstd::prelude::*;

verus! {

/// The levels that zooming steps through.
pub open spec fn levels() -> Seq<u16> {
    seq![75u16, 90, 100, 110, 125, 150, 175, 200]
}

fn level(i: usize) -> (level: u16)
    requires
        i < 8,
    ensures
        level == levels()[i as int],
{
    if i == 0 {
        75
    } else if i == 1 {
        90
    } else if i == 2 {
        100
    } else if i == 3 {
        110
    } else if i == 4 {
        125
    } else if i == 5 {
        150
    } else if i == 6 {
        175
    } else {
        200
    }
}

proof fn lemma_levels_rise(i: int, j: int)
    requires
        0 <= i <= j < 8,
    ensures
        levels()[i] <= levels()[j],
{
}

/// The scale in use.
#[derive(Clone, Copy, Debug, PartialEq, Eq, Structural)]
pub struct Zoom(pub u16);

impl Zoom {
    pub open spec fn clamped(percent: u16) -> u16 {
        if percent < 75 {
            75
        } else if percent > 200 {
            200
        } else {
            percent
        }
    }

    /// Take a saved scale over; none is the design's own.
    pub fn restore(percent: Option<u16>) -> (zoom: Zoom)
        ensures
            zoom.0 == (match percent {
                Some(saved) => Zoom::clamped(saved),
                None => 100,
            }),
    {
        let saved: u16 = match percent {
            Some(saved) => saved,
            None => 100,
        };
        if saved < 75 {
            Zoom(75)
        } else if saved > 200 {
            Zoom(200)
        } else {
            Zoom(saved)
        }
    }

    /// Zoom to a percentage, kept within the limits.
    pub fn set(percent: u16) -> (zoom: Zoom)
        ensures
            zoom.0 == Zoom::clamped(percent),
    {
        Zoom::restore(Some(percent))
    }

    pub fn percent(self) -> (percent: u16)
        ensures
            percent == self.0,
    {
        self.0
    }

    /// The size of the unit that the design is measured in, in hundredths of a
    /// pixel: sixteen pixels at 100%.
    pub fn rem_size(self) -> (hundredths: u32)
        ensures
            hundredths == 16 * self.0,
    {
        16 * (self.0 as u32)
    }

    /// Whether a level is the next one up or down.
    pub open spec fn is_next(self, increase: bool, level: u16) -> bool {
        &&& levels().contains(level)
        &&& if increase {
            level > self.0 && forall|i: int|
                0 <= i < 8 && #[trigger] levels()[i] > self.0 ==> level <= levels()[i]
        } else {
            level < self.0 && forall|i: int|
                0 <= i < 8 && #[trigger] levels()[i] < self.0 ==> level >= levels()[i]
        }
    }

    /// One step up or down; none where there is no further level.
    pub fn step(self, increase: bool) -> (next: Option<Zoom>)
        ensures
            match next {
                Some(zoom) => self.is_next(increase, zoom.0),
                None => forall|i: int|
                    0 <= i < 8 ==> if increase {
                        #[trigger] levels()[i] <= self.0
                    } else {
                        levels()[i] >= self.0
                    },
            },
    {
        if increase {
            let mut i: usize = 0;
            while i < 8
                invariant
                    i <= 8,
                    increase,
                    forall|j: int| 0 <= j < i ==> #[trigger] levels()[j] <= self.0,
                decreases 8 - i,
            {
                let candidate: u16 = level(i);
                if candidate > self.0 {
                    assert(levels()[i as int] == candidate);
                    assert forall|j: int| 0 <= j < 8 && #[trigger] levels()[j]
                        > self.0 implies candidate <= levels()[j] by {
                        if j > i {
                            lemma_levels_rise(i as int, j);
                        }
                    }
                    return Some(Zoom(candidate));
                }
                i += 1;
            }
        } else {
            let mut i: usize = 8;
            while i > 0
                invariant
                    i <= 8,
                    !increase,
                    forall|j: int| i <= j < 8 ==> #[trigger] levels()[j] >= self.0,
                decreases i,
            {
                i -= 1;
                let candidate: u16 = level(i);
                if candidate < self.0 {
                    assert(levels()[i as int] == candidate);
                    assert forall|j: int| 0 <= j < 8 && #[trigger] levels()[j]
                        < self.0 implies candidate >= levels()[j] by {
                        if j < i {
                            lemma_levels_rise(j, i as int);
                        }
                    }
                    return Some(Zoom(candidate));
                }
            }
        }
        None
    }
}

/// A step always lands within the limits.
pub proof fn law_steps_stay_within_limits(zoom: Zoom, increase: bool, level: u16)
    requires
        zoom.is_next(increase, level),
    ensures
        75 <= level <= 200,
        Zoom::clamped(level) == level,
{
    let i = choose|i: int| 0 <= i < levels().len() && levels()[i] == level;
    assert(levels()[i] == level);
}

/// From one of the levels, a step up and a step down undo each other.
pub proof fn law_steps_undo_each_other(from: u16, up: u16, back: u16)
    requires
        levels().contains(from),
        Zoom(from).is_next(true, up),
        Zoom(up).is_next(false, back),
    ensures
        back == from,
{
    let i = choose|i: int| 0 <= i < levels().len() && levels()[i] == from;
    let j = choose|j: int| 0 <= j < levels().len() && levels()[j] == up;
    let k = choose|k: int| 0 <= k < levels().len() && levels()[k] == back;
    assert(levels()[i] == from && levels()[j] == up && levels()[k] == back);
    assert(back >= from);
    if back > from {
        assert(levels()[k] > from);
        assert(up <= back);
    }
}

/// A step goes to the nearest of eight scales in its direction, whatever scale it goes
/// from.
pub proof fn law_steps_go_to_the_nearest_level(from: u16, next: u16)
    ensures
        Zoom(from).is_next(true, next) ==> next == if from < 75 {
            75
        } else if from < 90 {
            90
        } else if from < 100 {
            100
        } else if from < 110 {
            110
        } else if from < 125 {
            125
        } else if from < 150 {
            150
        } else if from < 175 {
            175
        } else {
            200u16
        },
        Zoom(from).is_next(false, next) ==> next == if from > 200 {
            200
        } else if from > 175 {
            175
        } else if from > 150 {
            150
        } else if from > 125 {
            125
        } else if from > 110 {
            110
        } else if from > 100 {
            100
        } else if from > 90 {
            90
        } else {
            75u16
        },
        Zoom::clamped(from) == if from < 75 {
            75
        } else if from > 200 {
            200
        } else {
            from
        },
{
    if levels().contains(next) {
        let i = choose|i: int| 0 <= i < levels().len() && levels()[i] == next;
        assert(levels()[i] == next);
        assert(levels()[0] == 75 && levels()[1] == 90 && levels()[2] == 100 && levels()[3] == 110
            && levels()[4] == 125 && levels()[5] == 150 && levels()[6] == 175 && levels()[7]
            == 200);
    }
}

} // verus!
