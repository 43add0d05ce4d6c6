//! How pressing, dragging and releasing the pointer selects terminal text.
use crate::geometry::{minus, nearest};
use crate::keyed::KeyedMap;
use vstd::prelude::*;

verus! {

/// Which half of a cell the pointer is on.
#[derive(Clone, Copy, Debug, PartialEq, Eq, Structural)]
pub enum SelectionSide {
    Left,
    Right,
}

#[derive(Clone, Copy, Debug, PartialEq, Eq, Structural)]
pub enum SelectionKind {
    Simple,
    /// Whole words.
    Semantic,
    Lines,
}

/// A place in the window; 65536 make up a pixel.
#[derive(Clone, Copy, Debug, PartialEq, Eq, Structural)]
pub struct ScreenPoint {
    pub x: i64,
    pub y: i64,
}

/// How far the pointer moves before a press becomes a drag: two pixels.
pub const SELECTION_DRAG_THRESHOLD: i64 = 0x2_0000;

/// Whether a way across and down is longer than the threshold.
pub open spec fn drag_started(dx: int, dy: int) -> bool {
    dx * dx + dy * dy > SELECTION_DRAG_THRESHOLD * SELECTION_DRAG_THRESHOLD
}

pub fn selection_drag_started(dx: i64, dy: i64) -> (started: bool)
    ensures
        started == drag_started(dx as int, dy as int),
{
    let limit: i64 = SELECTION_DRAG_THRESHOLD;
    // Beyond the threshold along one axis, the other does not matter.
    if dx > limit || dx < -limit || dy > limit || dy < -limit {
        proof {
            let across = dx as int;
            let down = dy as int;
            assert(across * across >= 0 && down * down >= 0) by (nonlinear_arith);
            assert(across * across > 0x2_0000 * 0x2_0000 || down * down > 0x2_0000 * 0x2_0000)
                by (nonlinear_arith)
                requires
                    across > 0x2_0000 || across < -0x2_0000 || down > 0x2_0000 || down
                        < -0x2_0000,
            ;
        }
        return true;
    }
    proof {
        let across = dx as int;
        let down = dy as int;
        assert(0 <= across * across <= 0x2_0000 * 0x2_0000 && 0 <= down * down <= 0x2_0000
            * 0x2_0000) by (nonlinear_arith)
            requires
                -0x2_0000 <= across <= 0x2_0000,
                -0x2_0000 <= down <= 0x2_0000,
        ;
    }
    dx * dx + dy * dy > limit * limit
}

/// Whether two places are further apart than the threshold.
pub open spec fn apart(from: ScreenPoint, to: ScreenPoint) -> bool {
    drag_started(nearest(to.x - from.x) as int, nearest(to.y - from.y) as int)
}

/// What the pointer does to a terminal's selection. Points are rows and columns.
#[derive(Clone, Copy, Debug, PartialEq, Eq)]
pub enum SelectionDragAction {
    Nothing,
    ClearAndWait,
    Start { kind: SelectionKind, point: (usize, usize), side: SelectionSide },
    Update { point: (usize, usize), side: SelectionSide },
    StartSimpleAndUpdate {
        anchor: (usize, usize),
        anchor_side: SelectionSide,
        point: (usize, usize),
        side: SelectionSide,
    },
}

/// A press in a terminal, from which a simple selection may start.
#[derive(Clone, Copy, Debug)]
pub struct PendingSelection {
    pub terminal_id: u64,
    pub anchor: (usize, usize),
    pub anchor_side: SelectionSide,
}

/// Where the pointer went down.
#[derive(Clone, Copy, Debug)]
pub struct MousePress {
    pub terminal_id: u64,
    pub position: ScreenPoint,
}

/// The selection under way, if any.
pub struct SelectionDrag {
    pub selecting: Option<u64>,
    pub pending_simple: Option<PendingSelection>,
    pub mouse_down: Option<MousePress>,
    pub last_reported_point: KeyedMap<u64, (usize, usize)>,
}

#[verifier::ext_equal]
pub struct DragModel {
    pub selecting: Option<u64>,
    pub pending_simple: Option<PendingSelection>,
    pub mouse_down: Option<MousePress>,
    pub last_reported_point: Map<u64, (usize, usize)>,
}

impl View for SelectionDrag {
    type V = DragModel;

    open spec fn view(&self) -> DragModel {
        DragModel {
            selecting: self.selecting,
            pending_simple: self.pending_simple,
            mouse_down: self.mouse_down,
            last_reported_point: self.last_reported_point@,
        }
    }
}

pub open spec fn pressed_in(press: Option<MousePress>, terminal_id: u64) -> bool {
    match press {
        Some(p) => p.terminal_id == terminal_id,
        None => false,
    }
}

pub open spec fn pending_in(pending: Option<PendingSelection>, terminal_id: u64) -> bool {
    match pending {
        Some(p) => p.terminal_id == terminal_id,
        None => false,
    }
}

/// What the first, second and third click select; further ones select nothing.
pub open spec fn kind_of_click(click_count: usize) -> Option<SelectionKind> {
    if click_count == 1 {
        Some(SelectionKind::Simple)
    } else if click_count == 2 {
        Some(SelectionKind::Semantic)
    } else if click_count == 3 {
        Some(SelectionKind::Lines)
    } else {
        None
    }
}

impl DragModel {
    pub open spec fn idle() -> DragModel {
        DragModel {
            selecting: None,
            pending_simple: None,
            mouse_down: None,
            last_reported_point: Map::empty(),
        }
    }

    pub open spec fn down_action(
        point: (usize, usize),
        side: SelectionSide,
        click_count: usize,
        shift: bool,
    ) -> SelectionDragAction {
        match kind_of_click(click_count) {
            None => SelectionDragAction::Nothing,
            Some(kind) => if kind == SelectionKind::Simple {
                if shift {
                    SelectionDragAction::Update { point, side }
                } else {
                    SelectionDragAction::ClearAndWait
                }
            } else {
                SelectionDragAction::Start { kind, point, side }
            },
        }
    }

    pub open spec fn pressed(
        self,
        terminal_id: u64,
        position: ScreenPoint,
        point: (usize, usize),
        side: SelectionSide,
        click_count: usize,
        shift: bool,
    ) -> DragModel {
        DragModel {
            selecting: None,
            pending_simple: if click_count == 1 && !shift {
                Some(PendingSelection { terminal_id, anchor: point, anchor_side: side })
            } else {
                None
            },
            mouse_down: Some(MousePress { terminal_id, position }),
            ..self
        }
    }

    /// Whether a place is past the drag threshold from where the pointer went down.
    pub open spec fn far(self, position: ScreenPoint) -> bool {
        match self.mouse_down {
            Some(press) => apart(press.position, position),
            None => false,
        }
    }

    /// Whether moving the pointer selects: it is held down in this terminal, and
    /// has moved far enough or was selecting already.
    pub open spec fn drags(
        self,
        terminal_id: u64,
        position: ScreenPoint,
        left_pressed: bool,
    ) -> bool {
        left_pressed && pressed_in(self.mouse_down, terminal_id) && (self.far(position)
            || self.selecting == Some(terminal_id))
    }

    /// Whether this move is the one that starts the simple selection.
    pub open spec fn drag_starts(self, terminal_id: u64) -> bool {
        self.selecting != Some(terminal_id) && pending_in(self.pending_simple, terminal_id)
    }

    pub open spec fn move_action(
        self,
        terminal_id: u64,
        position: ScreenPoint,
        point: (usize, usize),
        side: SelectionSide,
        left_pressed: bool,
    ) -> SelectionDragAction {
        if !self.drags(terminal_id, position, left_pressed) {
            SelectionDragAction::Nothing
        } else if self.drag_starts(terminal_id) {
            SelectionDragAction::StartSimpleAndUpdate {
                anchor: self.pending_simple->0.anchor,
                anchor_side: self.pending_simple->0.anchor_side,
                point,
                side,
            }
        } else {
            SelectionDragAction::Update { point, side }
        }
    }

    pub open spec fn moved(
        self,
        terminal_id: u64,
        position: ScreenPoint,
        left_pressed: bool,
    ) -> DragModel {
        if !self.drags(terminal_id, position, left_pressed) {
            self
        } else {
            DragModel {
                selecting: Some(terminal_id),
                pending_simple: if self.drag_starts(terminal_id) {
                    None
                } else {
                    self.pending_simple
                },
                ..self
            }
        }
    }

    pub open spec fn released(self, terminal_id: u64) -> DragModel {
        DragModel {
            selecting: if self.selecting == Some(terminal_id) {
                None
            } else {
                self.selecting
            },
            pending_simple: if pending_in(self.pending_simple, terminal_id) {
                None
            } else {
                self.pending_simple
            },
            mouse_down: if pressed_in(self.mouse_down, terminal_id) {
                None
            } else {
                self.mouse_down
            },
            last_reported_point: self.last_reported_point.remove(terminal_id),
        }
    }

    pub open spec fn reports(self, terminal_id: u64, point: (usize, usize)) -> bool {
        !(self.last_reported_point.contains_key(terminal_id)
            && self.last_reported_point[terminal_id] == point)
    }

    pub open spec fn reported(self, terminal_id: u64, point: (usize, usize)) -> DragModel {
        DragModel {
            last_reported_point: self.last_reported_point.insert(terminal_id, point),
            ..self
        }
    }
}

impl Default for SelectionDrag {
    fn default() -> (drag: Self)
        ensures
            drag@ == DragModel::idle(),
    {
        SelectionDrag {
            selecting: None,
            pending_simple: None,
            mouse_down: None,
            last_reported_point: KeyedMap::new(),
        }
    }
}

impl SelectionDrag {
    /// The pointer goes down.
    pub fn on_down(
        &mut self,
        terminal_id: u64,
        position: ScreenPoint,
        point: (usize, usize),
        side: SelectionSide,
        click_count: usize,
        shift: bool,
    ) -> (action: SelectionDragAction)
        ensures
            final(self)@ == old(self)@.pressed(
                terminal_id,
                position,
                point,
                side,
                click_count,
                shift,
            ),
            action == DragModel::down_action(point, side, click_count, shift),
    {
        self.mouse_down = Some(MousePress { terminal_id, position });
        self.selecting = None;
        self.pending_simple = None;
        let kind = if click_count == 1 {
            SelectionKind::Simple
        } else if click_count == 2 {
            SelectionKind::Semantic
        } else if click_count == 3 {
            SelectionKind::Lines
        } else {
            return SelectionDragAction::Nothing;
        };
        if kind == SelectionKind::Simple && shift {
            return SelectionDragAction::Update { point, side };
        }
        if kind == SelectionKind::Simple {
            self.pending_simple = Some(
                PendingSelection { terminal_id, anchor: point, anchor_side: side },
            );
            return SelectionDragAction::ClearAndWait;
        }
        SelectionDragAction::Start { kind, point, side }
    }

    /// The pointer moves.
    pub fn on_move(
        &mut self,
        terminal_id: u64,
        position: ScreenPoint,
        point: (usize, usize),
        side: SelectionSide,
        left_pressed: bool,
    ) -> (action: SelectionDragAction)
        ensures
            final(self)@ == old(self)@.moved(terminal_id, position, left_pressed),
            action == old(self)@.move_action(terminal_id, position, point, side, left_pressed),
    {
        let press = match self.mouse_down {
            Some(press) => press,
            None => {
                return SelectionDragAction::Nothing;
            },
        };
        if !left_pressed || press.terminal_id != terminal_id {
            return SelectionDragAction::Nothing;
        }
        let already = match self.selecting {
            Some(id) => id == terminal_id,
            None => false,
        };
        if !already {
            let dx: i64 = minus(position.x, press.position.x);
            let dy: i64 = minus(position.y, press.position.y);
            if !selection_drag_started(dx, dy) {
                return SelectionDragAction::Nothing;
            }
            self.selecting = Some(terminal_id);
            if let Some(pending) = self.pending_simple {
                if pending.terminal_id == terminal_id {
                    self.pending_simple = None;
                    return SelectionDragAction::StartSimpleAndUpdate {
                        anchor: pending.anchor,
                        anchor_side: pending.anchor_side,
                        point,
                        side,
                    };
                }
            }
        }
        self.selecting = Some(terminal_id);
        SelectionDragAction::Update { point, side }
    }

    /// The pointer comes up; says whether it was selecting.
    pub fn on_up(&mut self, terminal_id: u64) -> (was_selecting: bool)
        ensures
            final(self)@ == old(self)@.released(terminal_id),
            was_selecting == (old(self).selecting == Some(terminal_id)),
    {
        let was_selecting = match self.selecting {
            Some(id) => id == terminal_id,
            None => false,
        };
        if was_selecting {
            self.selecting = None;
        }
        if let Some(press) = self.mouse_down {
            if press.terminal_id == terminal_id {
                self.mouse_down = None;
            }
        }
        if let Some(pending) = self.pending_simple {
            if pending.terminal_id == terminal_id {
                self.pending_simple = None;
            }
        }
        let _ = self.last_reported_point.remove(&terminal_id);
        was_selecting
    }

    /// Whether a program that follows the pointer is told of a cell, which it is
    /// unless it was told of that cell last.
    pub fn should_report_mouse_move(&mut self, terminal_id: u64, point: (usize, usize)) -> (report:
        bool)
        ensures
            report == old(self)@.reports(terminal_id, point),
            final(self)@ == if report {
                old(self)@.reported(terminal_id, point)
            } else {
                old(self)@
            },
    {
        let told = match self.last_reported_point.get(&terminal_id) {
            Some(last) => last.0 == point.0 && last.1 == point.1,
            None => false,
        };
        if told {
            false
        } else {
            self.last_reported_point.insert(terminal_id, point);
            true
        }
    }
}

/// A press, a drag past the threshold and a release of the left button select
/// from the pressed cell to the last one and leave nothing under way in the
/// terminal.
pub proof fn law_a_drag_selects_from_the_press(
    drag: DragModel,
    terminal_id: u64,
    from: ScreenPoint,
    anchor: (usize, usize),
    anchor_side: SelectionSide,
    to: ScreenPoint,
    point: (usize, usize),
    side: SelectionSide,
)
    requires
        apart(from, to),
    ensures
        ({
            let down = drag.pressed(terminal_id, from, anchor, anchor_side, 1, false);
            let moved = down.moved(terminal_id, to, true);
            &&& down.move_action(terminal_id, to, point, side, true)
                == (SelectionDragAction::StartSimpleAndUpdate { anchor, anchor_side, point, side })
            &&& moved.selecting == Some(terminal_id)
            &&& moved.released(terminal_id).selecting is None
            &&& moved.released(terminal_id).mouse_down is None
            &&& moved.released(terminal_id).pending_simple is None
        }),
{
}

/// A pointer that stays within the threshold selects nothing: the press is a
/// click.
pub proof fn law_a_click_selects_nothing(
    drag: DragModel,
    terminal_id: u64,
    from: ScreenPoint,
    anchor: (usize, usize),
    anchor_side: SelectionSide,
    shift: bool,
    to: ScreenPoint,
    point: (usize, usize),
    side: SelectionSide,
)
    requires
        !apart(from, to),
    ensures
        ({
            let down = drag.pressed(terminal_id, from, anchor, anchor_side, 1, shift);
            &&& down.move_action(terminal_id, to, point, side, true) == SelectionDragAction::Nothing
            &&& down.moved(terminal_id, to, true) == down
            &&& down.selecting is None
        }),
{
}

/// A simple selection starts once per press: every move after the first of a
/// drag extends it, wherever the pointer is.
pub proof fn law_a_drag_starts_once(
    drag: DragModel,
    terminal_id: u64,
    position: ScreenPoint,
    again: ScreenPoint,
    point: (usize, usize),
    side: SelectionSide,
)
    requires
        drag.drags(terminal_id, position, true),
    ensures
        drag.moved(terminal_id, position, true).move_action(terminal_id, again, point, side, true)
            == (SelectionDragAction::Update { point, side }),
{
}

/// One of the things that a drag goes through.
pub enum DragStep {
    Press {
        terminal_id: u64,
        position: ScreenPoint,
        point: (usize, usize),
        side: SelectionSide,
        click_count: usize,
        shift: bool,
    },
    Move {
        terminal_id: u64,
        position: ScreenPoint,
        point: (usize, usize),
        side: SelectionSide,
        left_pressed: bool,
    },
    Release { terminal_id: u64 },
    Report { terminal_id: u64, point: (usize, usize) },
}

impl DragModel {
    pub open spec fn step(self, step: DragStep) -> DragModel {
        match step {
            DragStep::Press { terminal_id, position, point, side, click_count, shift } =>
                self.pressed(terminal_id, position, point, side, click_count, shift),
            DragStep::Move { terminal_id, position, point, side, left_pressed } => self.moved(
                terminal_id,
                position,
                left_pressed,
            ),
            DragStep::Release { terminal_id } => self.released(terminal_id),
            DragStep::Report { terminal_id, point } => if self.reports(terminal_id, point) {
                self.reported(terminal_id, point)
            } else {
                self
            },
        }
    }

    /// The drag after some steps.
    pub open spec fn after(self, steps: Seq<DragStep>) -> DragModel
        decreases steps.len(),
    {
        if steps.len() == 0 {
            self
        } else {
            self.after(steps.drop_last()).step(steps.last())
        }
    }
}

/// Whether a step is a move in a terminal that selects.
pub open spec fn is_selecting_move(drag: DragModel, step: DragStep, id: u64) -> bool {
    match step {
        DragStep::Move { terminal_id, position, point, side, left_pressed } => terminal_id == id
            && drag.move_action(terminal_id, position, point, side, left_pressed)
            != SelectionDragAction::Nothing,
        _ => false,
    }
}

/// Whether a step ends a selection in a terminal: a press anywhere, or a release there.
pub open spec fn ends_selection(step: DragStep, id: u64) -> bool {
    match step {
        DragStep::Press { .. } => true,
        DragStep::Release { terminal_id } => terminal_id == id,
        _ => false,
    }
}

/// Whether the step at `at` is a move that selects, and none since ends that.
pub open spec fn selects_since(steps: Seq<DragStep>, at: int, id: u64) -> bool {
    &&& 0 <= at < steps.len()
    &&& is_selecting_move(DragModel::idle().after(steps.take(at)), steps[at], id)
    &&& forall|j: int| at < j < steps.len() ==> !ends_selection(#[trigger] steps[j], id)
}

proof fn lemma_selecting_is_pressed(steps: Seq<DragStep>)
    ensures
        ({
            let drag = DragModel::idle().after(steps);
            drag.selecting is Some ==> pressed_in(drag.mouse_down, drag.selecting->0)
        }),
    decreases steps.len(),
{
    if steps.len() > 0 {
        lemma_selecting_is_pressed(steps.drop_last());
    }
}

/// A release reports a selection exactly where a move in its terminal selected, and
/// there was no press since and no release there.
pub proof fn law_a_release_reports_a_selection(steps: Seq<DragStep>, id: u64)
    ensures
        DragModel::idle().after(steps).selecting == Some(id) <==> exists|at: int|
            selects_since(steps, at, id),
    decreases steps.len(),
{
    let drag = DragModel::idle().after(steps);
    if steps.len() > 0 {
        let init = steps.drop_last();
        let before = DragModel::idle().after(init);
        let last = steps.len() - 1;
        law_a_release_reports_a_selection(init, id);
        lemma_selecting_is_pressed(init);
        assert(steps.take(last) =~= init);
        assert(steps.last() == steps[last]);
        if is_selecting_move(before, steps[last], id) {
            assert(selects_since(steps, last, id));
        }
        if before.selecting == Some(id) && !ends_selection(steps[last], id) {
            let at = choose|at: int| selects_since(init, at, id);
            assert(steps.take(at) =~= init.take(at));
            assert(steps[at] == init[at]);
            assert forall|j: int| at < j < steps.len() implies !ends_selection(
                #[trigger] steps[j],
                id,
            ) by {
                if j < last {
                    assert(init[j] == steps[j]);
                }
            }
            assert(selects_since(steps, at, id));
        }
        if exists|at: int| selects_since(steps, at, id) {
            let at = choose|at: int| selects_since(steps, at, id);
            if at < last {
                assert(!ends_selection(steps[last], id));
                assert(steps.take(at) =~= init.take(at));
                assert(steps[at] == init[at]);
                assert forall|j: int| at < j < init.len() implies !ends_selection(
                    #[trigger] init[j],
                    id,
                ) by {
                    assert(init[j] == steps[j]);
                }
                assert(selects_since(init, at, id));
            }
        }
    }
}

proof fn lemma_stays_up(drag: DragModel, steps: Seq<DragStep>, id: u64)
    requires
        drag.selecting != Some(id),
        !pressed_in(drag.mouse_down, id),
        forall|j: int| 0 <= j < steps.len() ==> !(#[trigger] steps[j] is Press),
    ensures
        drag.after(steps).selecting != Some(id),
        !pressed_in(drag.after(steps).mouse_down, id),
    decreases steps.len(),
{
    if steps.len() > 0 {
        let init = steps.drop_last();
        assert forall|j: int| 0 <= j < init.len() implies !(#[trigger] init[j] is Press) by {
            assert(init[j] == steps[j]);
        }
        lemma_stays_up(drag, init, id);
        assert(!(steps[steps.len() - 1] is Press));
    }
}

/// After a release, no move in its terminal selects until the next press, and another
/// release there reports no selection.
pub proof fn law_a_release_ends_the_drag(
    drag: DragModel,
    id: u64,
    steps: Seq<DragStep>,
    position: ScreenPoint,
    point: (usize, usize),
    side: SelectionSide,
    left_pressed: bool,
)
    requires
        forall|j: int| 0 <= j < steps.len() ==> !(#[trigger] steps[j] is Press),
    ensures
        drag.released(id).after(steps).move_action(id, position, point, side, left_pressed)
            == SelectionDragAction::Nothing,
        drag.released(id).after(steps).selecting != Some(id),
{
    lemma_stays_up(drag.released(id), steps, id);
}

/// A release makes the next cell in its terminal news to the program, and leaves what
/// is held of the other terminals.
pub proof fn law_a_release_leaves_other_terminals(
    drag: DragModel,
    id: u64,
    other: u64,
    point: (usize, usize),
)
    requires
        other != id,
    ensures
        drag.released(id).reports(id, point),
        drag.released(id).selecting == Some(other) <==> drag.selecting == Some(other),
        pressed_in(drag.mouse_down, other) ==> drag.released(id).mouse_down == drag.mouse_down,
        pending_in(drag.pending_simple, other) ==> drag.released(id).pending_simple
            == drag.pending_simple,
        drag.released(id).reports(other, point) == drag.reports(other, point),
{
}

/// A program is told of a cell once, until it is told of another.
pub proof fn law_a_cell_is_reported_once(drag: DragModel, terminal_id: u64, point: (usize, usize))
    ensures
        !drag.reported(terminal_id, point).reports(terminal_id, point),
        forall|other: (usize, usize)|
            other != point ==> #[trigger] drag.reported(terminal_id, point).reports(
                terminal_id,
                other,
            ),
{
}

/// Where a pointer is over a grid, before it is kept inside: the column and the
/// row that it is over, counting on past the grid's edges.
#[derive(Clone, Copy, Debug, PartialEq, Eq, Structural)]
pub struct GridPosition {
    pub column: usize,
    /// Whether it is over the right half of the column.
    pub right_half: bool,
    pub row: i64,
    /// Whether it is above the grid.
    pub above: bool,
}

pub open spec fn last_index(count: usize) -> int {
    if count == 0 {
        0
    } else {
        count - 1
    }
}

/// The cell that a pointer selects: past an edge, the nearest one. Past the last
/// column or the last row it is on the cell's right side, above the first row on
/// its left.
pub open spec fn pointed(position: GridPosition, cols: usize, rows: usize) -> (
    (int, int),
    SelectionSide,
) {
    let column = if position.column > last_index(cols) {
        last_index(cols)
    } else {
        position.column as int
    };
    let row = if position.row > last_index(rows) {
        last_index(rows)
    } else if position.row < 0 {
        0
    } else {
        position.row as int
    };
    let side = if position.row > last_index(rows) {
        SelectionSide::Right
    } else if position.above {
        SelectionSide::Left
    } else if position.column > last_index(cols) || position.right_half {
        SelectionSide::Right
    } else {
        SelectionSide::Left
    };
    ((row, column), side)
}

pub fn grid_point_and_side(position: GridPosition, cols: usize, rows: usize) -> (cell: (
    (usize, usize),
    SelectionSide,
))
    ensures
        ((cell.0.0 as int, cell.0.1 as int), cell.1) == pointed(position, cols, rows),
{
    let last_column: usize = if cols == 0 {
        0
    } else {
        cols - 1
    };
    let last_row: usize = if rows == 0 {
        0
    } else {
        rows - 1
    };
    let mut side = if position.right_half {
        SelectionSide::Right
    } else {
        SelectionSide::Left
    };
    let mut column: usize = position.column;
    if column > last_column {
        column = last_column;
        side = SelectionSide::Right;
    }
    let row: usize = if position.row as i128 > last_row as i128 {
        side = SelectionSide::Right;
        last_row
    } else {
        if position.above {
            side = SelectionSide::Left;
        }
        if position.row < 0 {
            0
        } else {
            position.row as usize
        }
    };
    ((row, column), side)
}

/// A pointer over a grid of at least one cell selects one of its cells.
pub proof fn law_the_pointer_selects_inside_the_grid(
    position: GridPosition,
    cols: usize,
    rows: usize,
)
    requires
        cols > 0,
        rows > 0,
    ensures
        ({
            let cell = pointed(position, cols, rows).0;
            0 <= cell.0 < rows && 0 <= cell.1 < cols
        }),
{
}

/// The square of the two pixels that a press may move by, each of 65536 parts.
pub open spec fn two_pixels_squared() -> int {
    0x4_0000_0000
}

/// A press becomes a drag once the pointer is more than two pixels from where it went
/// down, in whichever direction.
pub proof fn law_a_drag_takes_two_pixels(from: ScreenPoint, to: ScreenPoint)
    requires
        i64::MIN <= to.x - from.x <= i64::MAX,
        i64::MIN <= to.y - from.y <= i64::MAX,
    ensures
        apart(from, to) <==> (to.x - from.x) * (to.x - from.x) + (to.y - from.y) * (to.y - from.y)
            > two_pixels_squared(),
{
}

/// The pointer selects the cell that it is over; past an edge it selects the nearest
/// cell, and past the end of a row or of the grid that cell's far side.
pub proof fn law_the_pointer_selects_the_cell_under_it(
    position: GridPosition,
    cols: usize,
    rows: usize,
)
    requires
        cols > 0,
        rows > 0,
    ensures
        ({
            let (cell, side) = pointed(position, cols, rows);
            &&& 0 <= position.row < rows ==> cell.0 == position.row
            &&& position.row < 0 ==> cell.0 == 0
            &&& position.row >= rows ==> cell.0 == rows - 1 && side == SelectionSide::Right
            &&& position.column < cols ==> cell.1 == position.column
            &&& position.column >= cols ==> cell.1 == cols - 1
            &&& position.row < rows && position.above ==> side == SelectionSide::Left
            &&& position.row < rows && !position.above && position.column >= cols ==> side
                == SelectionSide::Right
            &&& position.row < rows && !position.above && position.column < cols ==> (side
                == SelectionSide::Right <==> position.right_half)
        }),
{
}

} // verus!
