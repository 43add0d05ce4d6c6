//! Moving, releasing and scrolling over a terminal.
use crate::terminal::drawer::{
    effects_model, emit, link_modifier, no_effects, perform_selection, selection_effects,
    spec_term_modifiers, term_button, term_modifiers, term_mouse_button, terminal_link_modifier,
    DrawerEffect, DrawerModel, Effect, EffectModel, HoveredLink, Modifiers, MouseButton, PaneFacts,
    PointedCell, TerminalDrawer, LINK_HOVER_MILLIS,
};
use crate::terminal::model::HyperlinkMatch;
use crate::terminal::selection::{ScreenPoint, SelectionDragAction};
use crate::window_seam::Platform;
use vstd::prelude::*;

verus! {

/// A motion of the pointer over a terminal.
#[derive(Clone, Copy, Debug)]
pub struct MouseMoveEvent {
    pub pressed_button: Option<MouseButton>,
    pub modifiers: Modifiers,
    pub position: ScreenPoint,
    /// How many lines a drag to where the pointer is scrolls the view, if it is
    /// above or below the grid.
    pub drag_lines: Option<i32>,
    /// When it happened, in milliseconds.
    pub now: u64,
}

/// The most lines that one motion of a drag scrolls.
pub const MAX_DRAG_LINES: i32 = 3;

/// How many lines a drag to a height scrolls the view: up the history above the
/// grid, down below it, not at all beside it. `lines` is how many lines the distance
/// to the grid makes up.
pub fn drag_scroll_lines(y: i64, top: i64, bottom: i64, lines: i32) -> (scrolled: Option<i32>)
    ensures
        scrolled is None <==> top <= y <= bottom,
        scrolled is Some ==> {
            let count: int = if lines < 1 {
                1
            } else if lines > MAX_DRAG_LINES {
                MAX_DRAG_LINES as int
            } else {
                lines as int
            };
            scrolled->0 == if y < top {
                count
            } else {
                -count
            }
        },
{
    let count: i32 = if lines < 1 {
        1
    } else if lines > MAX_DRAG_LINES {
        MAX_DRAG_LINES
    } else {
        lines
    };
    if y < top {
        Some(count)
    } else if y > bottom {
        Some(-count)
    } else {
        None
    }
}

/// What a motion comes to.
pub enum MoveOutcome {
    /// The program follows the pointer.
    Report,
    /// The pointer follows links.
    Links,
    Select,
}

pub open spec fn move_outcome(
    event: MouseMoveEvent,
    pane: &PaneFacts,
    platform: Platform,
) -> MoveOutcome {
    if pane.routes_mouse {
        MoveOutcome::Report
    } else if link_modifier(event.modifiers, platform == Platform::MacOs) {
        MoveOutcome::Links
    } else {
        MoveOutcome::Select
    }
}

/// Whether the link under the pointer is looked up again.
pub open spec fn lookup_due(last: Option<u64>, now: u64) -> bool {
    match last {
        Some(at) => now - at >= LINK_HOVER_MILLIS,
        None => true,
    }
}

impl DrawerModel {
    pub open spec fn drag_action(
        self,
        terminal_id: u64,
        event: MouseMoveEvent,
        cell: PointedCell,
    ) -> SelectionDragAction {
        self.drag.move_action(
            terminal_id,
            event.position,
            cell.point,
            cell.side,
            event.pressed_button == Some(MouseButton::Left),
        )
    }

    /// The drawer after a motion over a terminal.
    pub open spec fn moved(
        self,
        terminal_id: u64,
        event: MouseMoveEvent,
        cell: Option<PointedCell>,
        pane: Option<&PaneFacts>,
        platform: Platform,
    ) -> DrawerModel {
        match cell {
            None => DrawerModel { hovered_link: None, ..self },
            Some(c) => match pane {
                None => self,
                Some(p) => match move_outcome(event, p, platform) {
                    MoveOutcome::Report => if self.drag.reports(terminal_id, c.point) {
                        DrawerModel { drag: self.drag.reported(terminal_id, c.point), ..self }
                    } else {
                        self
                    },
                    MoveOutcome::Links => if lookup_due(self.last_link_hover, event.now) {
                        DrawerModel {
                            last_link_hover: Some(event.now),
                            hovered_link: match p.link {
                                Some(link) => Some((terminal_id, link)),
                                None => None,
                            },
                            ..self
                        }
                    } else {
                        self
                    },
                    MoveOutcome::Select => DrawerModel {
                        hovered_link: None,
                        drag: self.drag.moved(
                            terminal_id,
                            event.position,
                            event.pressed_button == Some(MouseButton::Left),
                        ),
                        ..self
                    },
                },
            },
        }
    }

    pub open spec fn move_effects(
        self,
        terminal_id: u64,
        event: MouseMoveEvent,
        cell: PointedCell,
        pane: &PaneFacts,
        platform: Platform,
    ) -> Seq<EffectModel> {
        match move_outcome(event, pane, platform) {
            MoveOutcome::Report => if self.drag.reports(terminal_id, cell.point) {
                seq![
                    Effect::ReportMove {
                        terminal_id,
                        point: cell.point,
                        button: match event.pressed_button {
                            Some(button) => term_button(button),
                            None => None,
                        },
                        modifiers: spec_term_modifiers(event.modifiers),
                    },
                ]
            } else {
                Seq::empty()
            },
            MoveOutcome::Links => Seq::empty(),
            MoveOutcome::Select => {
                let action = self.drag_action(terminal_id, event, cell);
                let drawn = selection_effects(terminal_id, action);
                if action != SelectionDragAction::Nothing && !pane.alt_screen && pane.history_size
                    > 0 && event.drag_lines is Some {
                    drawn.push(Effect::Scroll { terminal_id, lines: event.drag_lines->0 })
                } else {
                    drawn
                }
            },
        }
    }
}

/// A copy of a link.
pub(crate) fn copy_link(link: &HyperlinkMatch) -> (copy: HyperlinkMatch)
    ensures
        copy == *link,
{
    HyperlinkMatch { start: link.start, end: link.end, url: link.url.clone() }
}

impl TerminalDrawer {
    /// The pointer moves over a terminal.
    pub fn terminal_mouse_move(
        &mut self,
        terminal_id: u64,
        event: MouseMoveEvent,
        cell: Option<PointedCell>,
        pane: Option<&PaneFacts>,
        platform: Platform,
    ) -> (effects: Vec<DrawerEffect>)
        ensures
            final(self)@ == old(self)@.moved(terminal_id, event, cell, pane, platform),
            effects_model(effects@) == (match cell {
                Some(c) => (match pane {
                    Some(p) => old(self)@.move_effects(terminal_id, event, c, p, platform),
                    None => Seq::empty(),
                }).push(Effect::Notify),
                None => Seq::empty(),
            }),
    {
        let mut effects = no_effects();
        let c = match cell {
            Some(c) => c,
            None => {
                self.hovered_link = None;
                return effects;
            },
        };
        if let Some(p) = pane {
            if p.routes_mouse {
                if self.selection_drag.should_report_mouse_move(terminal_id, c.point) {
                    let button = match event.pressed_button {
                        Some(button) => term_mouse_button(button),
                        None => None,
                    };
                    emit(
                        &mut effects,
                        Effect::ReportMove {
                            terminal_id,
                            point: c.point,
                            button,
                            modifiers: term_modifiers(event.modifiers),
                        },
                    );
                }
            } else if terminal_link_modifier(event.modifiers, platform == Platform::MacOs) {
                let due = match self.last_link_hover {
                    Some(last) => event.now >= last && event.now - last >= LINK_HOVER_MILLIS,
                    None => true,
                };
                if due {
                    self.last_link_hover = Some(event.now);
                    self.hovered_link = match &p.link {
                        Some(link) => Some(HoveredLink { terminal_id, link: copy_link(link) }),
                        None => None,
                    };
                }
            } else {
                self.hovered_link = None;
                let left_pressed = match event.pressed_button {
                    Some(button) => button == MouseButton::Left,
                    None => false,
                };
                let action = self.selection_drag.on_move(
                    terminal_id,
                    event.position,
                    c.point,
                    c.side,
                    left_pressed,
                );
                let drags = match action {
                    SelectionDragAction::Nothing => false,
                    _ => true,
                };
                perform_selection(&mut effects, terminal_id, action);
                assert(effects_model(effects@) =~= selection_effects(terminal_id, action));
                if drags && !p.alt_screen && p.history_size > 0 {
                    if let Some(lines) = event.drag_lines {
                        emit(&mut effects, Effect::Scroll { terminal_id, lines });
                    }
                }
            }
            assert(effects_model(effects@) =~= old(self)@.move_effects(
                terminal_id,
                event,
                c,
                p,
                platform,
            ));
        }
        emit(&mut effects, Effect::Notify);
        effects
    }
}

/// A button's release over a terminal.
#[derive(Clone, Copy, Debug)]
pub struct MouseUpEvent {
    pub button: MouseButton,
    pub modifiers: Modifiers,
}

impl DrawerModel {
    /// The link that a release opens: the one that was pressed, released over.
    pub open spec fn opens(
        self,
        terminal_id: u64,
        event: MouseUpEvent,
        pane: &PaneFacts,
        platform: Platform,
    ) -> bool {
        !pane.routes_mouse && event.button == MouseButton::Left && link_modifier(
            event.modifiers,
            platform == Platform::MacOs,
        ) && pane.link is Some && self.pressed_link == Some((terminal_id, pane.link->0.url@))
    }

    pub open spec fn release_effects(
        self,
        terminal_id: u64,
        event: MouseUpEvent,
        cell: Option<PointedCell>,
        pane: Option<&PaneFacts>,
        platform: Platform,
    ) -> Seq<EffectModel> {
        let told = match (cell, pane) {
            (Some(c), Some(p)) => if p.routes_mouse {
                match term_button(event.button) {
                    Some(button) => seq![
                        Effect::ReportButton {
                            terminal_id,
                            point: c.point,
                            button,
                            modifiers: spec_term_modifiers(event.modifiers),
                            pressed: false,
                        },
                    ],
                    None => Seq::empty(),
                }
            } else if self.opens(terminal_id, event, p, platform) {
                seq![Effect::OpenUrl { url: p.link->0.url@ }]
            } else {
                Seq::empty()
            },
            _ => Seq::empty(),
        };
        let copied = if self.drag.selecting == Some(terminal_id) && platform == Platform::Linux {
            match pane {
                Some(p) => match p.selected_text {
                    Some(text) => seq![Effect::CopyToPrimary { text: text@ }],
                    None => Seq::empty(),
                },
                None => Seq::empty(),
            }
        } else {
            Seq::empty()
        };
        told + copied + seq![Effect::Notify]
    }

    /// The drawer after a release over a terminal.
    pub open spec fn released(self, terminal_id: u64) -> DrawerModel {
        DrawerModel { drag: self.drag.released(terminal_id), pressed_link: None, ..self }
    }
}

impl TerminalDrawer {
    /// A button comes up over a terminal.
    pub fn terminal_mouse_up(
        &mut self,
        terminal_id: u64,
        event: MouseUpEvent,
        cell: Option<PointedCell>,
        pane: Option<&PaneFacts>,
        platform: Platform,
    ) -> (effects: Vec<DrawerEffect>)
        ensures
            final(self)@ == old(self)@.released(terminal_id),
            effects_model(effects@) == old(self)@.release_effects(
                terminal_id,
                event,
                cell,
                pane,
                platform,
            ),
    {
        let mut effects = no_effects();
        if let (Some(c), Some(p)) = (cell, pane) {
            if p.routes_mouse {
                if let Some(button) = term_mouse_button(event.button) {
                    emit(
                        &mut effects,
                        Effect::ReportButton {
                            terminal_id,
                            point: c.point,
                            button,
                            modifiers: term_modifiers(event.modifiers),
                            pressed: false,
                        },
                    );
                }
            } else if event.button == MouseButton::Left && terminal_link_modifier(
                event.modifiers,
                platform == Platform::MacOs,
            ) {
                if let Some(link) = &p.link {
                    let matched = match &self.pressed_link {
                        Some(pressed) => pressed.terminal_id == terminal_id && pressed.url
                            == link.url,
                        None => false,
                    };
                    if matched {
                        emit(&mut effects, Effect::OpenUrl { url: link.url.clone() });
                    }
                }
            }
        }
        let ghost told = effects_model(effects@);
        if self.selection_drag.on_up(terminal_id) && platform == Platform::Linux {
            if let Some(p) = pane {
                if let Some(text) = &p.selected_text {
                    emit(&mut effects, Effect::CopyToPrimary { text: text.clone() });
                }
            }
        }
        self.pressed_link = None;
        emit(&mut effects, Effect::Notify);
        assert(effects_model(effects@) =~= old(self)@.release_effects(
            terminal_id,
            event,
            cell,
            pane,
            platform,
        ));
        effects
    }

    /// The wheel turns by whole lines over a terminal: the program is told where
    /// it takes the pointer, gets arrow keys where it asked for them on its own
    /// screen, and else the history scrolls.
    pub fn on_scroll(
        &self,
        terminal_id: u64,
        lines: i32,
        cell: Option<PointedCell>,
        modifiers: Modifiers,
        pane: Option<&PaneFacts>,
    ) -> (effects: Vec<DrawerEffect>)
        ensures
            effects_model(effects@) == scroll_effects(terminal_id, lines, cell, modifiers, pane),
    {
        let mut effects = no_effects();
        if lines != 0 {
            if let Some(p) = pane {
                if p.routes_mouse {
                    let point = match cell {
                        Some(c) => c.point,
                        None => (0, 0),
                    };
                    emit(
                        &mut effects,
                        Effect::ReportScroll {
                            terminal_id,
                            point,
                            lines,
                            modifiers: term_modifiers(modifiers),
                        },
                    );
                } else if p.alt_screen && p.alternate_scroll && !modifiers.shift {
                    emit(&mut effects, Effect::AltScroll { terminal_id, lines });
                } else {
                    emit(&mut effects, Effect::Scroll { terminal_id, lines });
                }
            }
            emit(&mut effects, Effect::StopPropagation);
            emit(&mut effects, Effect::Notify);
        }
        assert(effects_model(effects@) =~= scroll_effects(
            terminal_id,
            lines,
            cell,
            modifiers,
            pane,
        ));
        effects
    }
}

pub open spec fn scroll_effects(
    terminal_id: u64,
    lines: i32,
    cell: Option<PointedCell>,
    modifiers: Modifiers,
    pane: Option<&PaneFacts>,
) -> Seq<EffectModel> {
    if lines == 0 {
        Seq::empty()
    } else {
        (match pane {
            Some(p) => seq![
                if p.routes_mouse {
                    Effect::ReportScroll {
                        terminal_id,
                        point: match cell {
                            Some(c) => c.point,
                            None => (0, 0),
                        },
                        lines,
                        modifiers: spec_term_modifiers(modifiers),
                    }
                } else if p.alt_screen && p.alternate_scroll && !modifiers.shift {
                    Effect::AltScroll { terminal_id, lines }
                } else {
                    Effect::Scroll { terminal_id, lines }
                },
            ],
            None => Seq::empty(),
        }) + seq![Effect::StopPropagation, Effect::Notify]
    }
}

/// A link opens only where it was pressed, in the terminal in which it was
/// pressed, and once: after a release no link is pressed.
pub proof fn law_a_link_opens_where_it_was_pressed(
    drawer: DrawerModel,
    terminal_id: u64,
    event: MouseUpEvent,
    pane: &PaneFacts,
    platform: Platform,
)
    ensures
        drawer.opens(terminal_id, event, pane, platform) ==> pane.link is Some
            && drawer.pressed_link == Some((terminal_id, pane.link->0.url@)),
        !drawer.released(terminal_id).opens(terminal_id, event, pane, platform),
{
}

/// A program that takes the pointer gets it: no motion, press or release over it
/// changes what is selected.
pub proof fn law_a_program_that_takes_the_pointer_keeps_the_selection(
    drawer: DrawerModel,
    terminal_id: u64,
    event: MouseMoveEvent,
    cell: PointedCell,
    pane: &PaneFacts,
    platform: Platform,
)
    requires
        pane.routes_mouse,
    ensures
        drawer.moved(terminal_id, event, Some(cell), Some(pane), platform).drag.selecting
            == drawer.drag.selecting,
        drawer.moved(terminal_id, event, Some(cell), Some(pane), platform).drag.pending_simple
            == drawer.drag.pending_simple,
        forall|i: int|
            0 <= i < drawer.move_effects(terminal_id, event, cell, pane, platform).len() ==> (
            #[trigger] drawer.move_effects(terminal_id, event, cell, pane, platform)[i])
                is ReportMove,
{
}

} // verus!
