//! What the terminal drawer does with the pointer, the keyboard, composed text
//! and the notices of its terminals.
//!
//! Each handler changes the drawer and answers with effects, in the order in
//! which they are to be performed.
use crate::keyed::{KeyedMap, KeyedSet};
use crate::protocol::PixelBits;
use crate::terminal::grid::TerminalGridCache;
use crate::terminal::key_bar::{StickyModifiers, TermModifiers, TerminalKeyEncoder};
use crate::terminal::model::HyperlinkMatch;
use crate::terminal::paste::{pasted, prepare_terminal_paste};
use crate::terminal::selection::{
    DragModel, ScreenPoint, SelectionDrag, SelectionDragAction, SelectionKind, SelectionSide,
};
use crate::text::characters;
use crate::window_seam::Platform;
use vstd::prelude::*;

pub mod hand_laws;
pub mod pointer;
pub mod show_laws;
pub mod typing;
pub mod view;

verus! {

/// How long a cursor shows after input whatever its phase, and how long each
/// phase takes, in milliseconds.
pub const BLINK_MILLIS: u64 = 500;

/// How often the link under a moving pointer is looked up, in milliseconds.
pub const LINK_HOVER_MILLIS: u64 = 16;

#[derive(Clone, Copy, Debug, PartialEq, Eq, Structural)]
pub struct Modifiers {
    pub control: bool,
    pub alt: bool,
    pub shift: bool,
    /// Command on macOS, the logo key elsewhere.
    pub platform: bool,
    pub function: bool,
}

#[derive(Clone, Copy, Debug, PartialEq, Eq, Structural)]
pub enum MouseButton {
    Left,
    Middle,
    Right,
    /// A navigation button.
    Other,
}

/// A button that terminal programs know.
#[derive(Clone, Copy, Debug, PartialEq, Eq, Structural)]
pub enum TermMouseButton {
    Left,
    Middle,
    Right,
}

#[derive(Clone, Copy, Debug, PartialEq, Eq, Structural)]
pub enum ClipboardShortcut {
    Copy,
    Paste,
}

pub open spec fn shortcut_modifiers(modifiers: Modifiers, use_platform_modifier: bool) -> bool {
    if use_platform_modifier {
        modifiers == (Modifiers {
            platform: true,
            control: false,
            alt: false,
            shift: false,
            function: false,
        })
    } else {
        modifiers == (Modifiers {
            control: true,
            shift: true,
            platform: false,
            alt: false,
            function: false,
        })
    }
}

/// Which clipboard shortcut a key is: Command with C or V where the platform has
/// that key for it, else Control and Shift with C or V, and no other modifier.
pub open spec fn shortcut(
    key: Seq<char>,
    modifiers: Modifiers,
    use_platform_modifier: bool,
) -> Option<
    ClipboardShortcut,
> {
    if !shortcut_modifiers(modifiers, use_platform_modifier) {
        None
    } else if key == seq!['c'] || key == seq!['C'] {
        Some(ClipboardShortcut::Copy)
    } else if key == seq!['v'] || key == seq!['V'] {
        Some(ClipboardShortcut::Paste)
    } else {
        None
    }
}

pub fn terminal_clipboard_shortcut(
    key: &str,
    modifiers: Modifiers,
    use_platform_modifier: bool,
) -> (
    found: Option<ClipboardShortcut>)
    ensures
        found == shortcut(key@, modifiers, use_platform_modifier),
{
    let expected = if use_platform_modifier {
        modifiers.platform && !modifiers.control && !modifiers.alt && !modifiers.shift
            && !modifiers.function
    } else {
        modifiers.control && modifiers.shift && !modifiers.platform && !modifiers.alt
            && !modifiers.function
    };
    if !expected {
        return None;
    }
    let chars = characters(key);
    proof {
        assert(key@.len() == 1 ==> key@ =~= seq![key@[0]]);
        assert(seq!['c'][0] == 'c' && seq!['C'][0] == 'C' && seq!['v'][0] == 'v' && seq!['V'][0]
            == 'V');
    }
    if chars.len() != 1 {
        None
    } else if chars[0] == 'c' || chars[0] == 'C' {
        Some(ClipboardShortcut::Copy)
    } else if chars[0] == 'v' || chars[0] == 'V' {
        Some(ClipboardShortcut::Paste)
    } else {
        None
    }
}

pub open spec fn link_modifier(modifiers: Modifiers, use_platform_modifier: bool) -> bool {
    if use_platform_modifier {
        modifiers.platform
    } else {
        modifiers.control
    }
}

/// Whether the modifier is held that makes the pointer follow links.
pub fn terminal_link_modifier(modifiers: Modifiers, use_platform_modifier: bool) -> (held: bool)
    ensures
        held == link_modifier(modifiers, use_platform_modifier),
{
    if use_platform_modifier {
        modifiers.platform
    } else {
        modifiers.control
    }
}

pub open spec fn spec_term_modifiers(modifiers: Modifiers) -> TermModifiers {
    TermModifiers {
        shift: modifiers.shift,
        alt: modifiers.alt,
        control: modifiers.control,
        platform: modifiers.platform,
    }
}

pub fn term_modifiers(modifiers: Modifiers) -> (term: TermModifiers)
    ensures
        term == spec_term_modifiers(modifiers),
{
    TermModifiers {
        shift: modifiers.shift,
        alt: modifiers.alt,
        control: modifiers.control,
        platform: modifiers.platform,
    }
}

pub open spec fn term_button(button: MouseButton) -> Option<TermMouseButton> {
    match button {
        MouseButton::Left => Some(TermMouseButton::Left),
        MouseButton::Middle => Some(TermMouseButton::Middle),
        MouseButton::Right => Some(TermMouseButton::Right),
        MouseButton::Other => None,
    }
}

pub fn term_mouse_button(button: MouseButton) -> (term: Option<TermMouseButton>)
    ensures
        term == term_button(button),
{
    match button {
        MouseButton::Left => Some(TermMouseButton::Left),
        MouseButton::Middle => Some(TermMouseButton::Middle),
        MouseButton::Right => Some(TermMouseButton::Right),
        MouseButton::Other => None,
    }
}

/// What is done for the drawer, over texts of one type and bytes of another.
#[allow(inconsistent_fields)]
pub enum Effect<T, B> {
    /// Focus the terminal.
    Focus,
    RequestSoftKeyboard,
    Activate { terminal_id: u64 },
    /// Tell the program of a pressed or released button.
    ReportButton {
        terminal_id: u64,
        point: (usize, usize),
        button: TermMouseButton,
        modifiers: TermModifiers,
        pressed: bool,
    },
    /// Tell the program where the pointer is.
    ReportMove {
        terminal_id: u64,
        point: (usize, usize),
        button: Option<TermMouseButton>,
        modifiers: TermModifiers,
    },
    /// Tell the program of wheel motion.
    ReportScroll { terminal_id: u64, point: (usize, usize), lines: i32, modifiers: TermModifiers },
    /// Send the program arrow keys for wheel motion.
    AltScroll { terminal_id: u64, lines: i32 },
    /// Scroll the terminal's history.
    Scroll { terminal_id: u64, lines: i32 },
    StartSelection {
        terminal_id: u64,
        kind: SelectionKind,
        point: (usize, usize),
        side: SelectionSide,
    },
    UpdateSelection { terminal_id: u64, point: (usize, usize), side: SelectionSide },
    ClearSelection { terminal_id: u64 },
    /// Type text into a terminal.
    Input { terminal_id: u64, text: T },
    /// Type bytes into a terminal.
    Bytes { terminal_id: u64, bytes: B },
    CopyToClipboard { text: T },
    CopyToPrimary { text: T },
    OpenUrl { url: T },
    PlayBell,
    InvalidateCoordinates,
    StopPropagation,
    Notify,
}

pub type DrawerEffect = Effect<String, Vec<u8>>;

pub type EffectModel = Effect<Seq<char>, Seq<u8>>;

impl View for Effect<String, Vec<u8>> {
    type V = Effect<Seq<char>, Seq<u8>>;

    open spec fn view(&self) -> Effect<Seq<char>, Seq<u8>> {
        match *self {
            Effect::Focus => Effect::Focus,
            Effect::RequestSoftKeyboard => Effect::RequestSoftKeyboard,
            Effect::Activate { terminal_id } => Effect::Activate { terminal_id },
            Effect::ReportButton {
                terminal_id,
                point,
                button,
                modifiers,
                pressed,
            } => Effect::ReportButton { terminal_id, point, button, modifiers, pressed },
            Effect::ReportMove { terminal_id, point, button, modifiers } => Effect::ReportMove {
                terminal_id,
                point,
                button,
                modifiers,
            },
            Effect::ReportScroll { terminal_id, point, lines, modifiers } => Effect::ReportScroll {
                terminal_id,
                point,
                lines,
                modifiers,
            },
            Effect::AltScroll { terminal_id, lines } => Effect::AltScroll { terminal_id, lines },
            Effect::Scroll { terminal_id, lines } => Effect::Scroll { terminal_id, lines },
            Effect::StartSelection { terminal_id, kind, point, side } => Effect::StartSelection {
                terminal_id,
                kind,
                point,
                side,
            },
            Effect::UpdateSelection { terminal_id, point, side } => Effect::UpdateSelection {
                terminal_id,
                point,
                side,
            },
            Effect::ClearSelection { terminal_id } => Effect::ClearSelection { terminal_id },
            Effect::Input { terminal_id, text } => Effect::Input { terminal_id, text: text@ },
            Effect::Bytes { terminal_id, bytes } => Effect::Bytes { terminal_id, bytes: bytes@ },
            Effect::CopyToClipboard { text } => Effect::CopyToClipboard { text: text@ },
            Effect::CopyToPrimary { text } => Effect::CopyToPrimary { text: text@ },
            Effect::OpenUrl { url } => Effect::OpenUrl { url: url@ },
            Effect::PlayBell => Effect::PlayBell,
            Effect::InvalidateCoordinates => Effect::InvalidateCoordinates,
            Effect::StopPropagation => Effect::StopPropagation,
            Effect::Notify => Effect::Notify,
        }
    }
}

pub open spec fn effects_model(effects: Seq<DrawerEffect>) -> Seq<EffectModel> {
    Seq::new(effects.len(), |i: int| effects[i]@)
}

pub(crate) fn emit(effects: &mut Vec<DrawerEffect>, effect: DrawerEffect)
    ensures
        effects_model(final(effects)@) == effects_model(old(effects)@).push(effect@),
{
    let ghost before = effects@;
    let ghost added = effect@;
    effects.push(effect);
    assert(effects_model(effects@) =~= effects_model(before).push(added));
}

pub(crate) fn no_effects() -> (effects: Vec<DrawerEffect>)
    ensures
        effects_model(effects@) == Seq::<EffectModel>::empty(),
{
    let effects: Vec<DrawerEffect> = Vec::new();
    assert(effects_model(effects@) =~= Seq::<EffectModel>::empty());
    effects
}

/// What a terminal is, as far as the pointer and the keyboard need it.
pub struct PaneFacts {
    /// Whether the program takes the pointer, with the modifiers held.
    pub routes_mouse: bool,
    pub bracketed_paste: bool,
    pub alt_screen: bool,
    pub alternate_scroll: bool,
    pub history_size: usize,
    pub selected_text: Option<String>,
    /// The link under the pointer.
    pub link: Option<HyperlinkMatch>,
}

/// A cell under the pointer, and the half of it.
#[derive(Clone, Copy, Debug)]
pub struct PointedCell {
    pub point: (usize, usize),
    pub side: SelectionSide,
}

/// Text being composed over a terminal's cursor.
pub struct MarkedText {
    pub terminal_id: u64,
    pub text: String,
}

pub struct HoveredLink {
    pub terminal_id: u64,
    pub link: HyperlinkMatch,
}

pub struct PressedLink {
    pub terminal_id: u64,
    pub url: String,
}

/// The state of the drawer.
pub struct TerminalDrawer {
    pub key_encoder: TerminalKeyEncoder,
    /// The sizes of the two halves of a split, once it was resized.
    pub split_sizes: Vec<PixelBits>,
    pub row_layout_cache: KeyedMap<u64, TerminalGridCache>,
    pub selection_drag: SelectionDrag,
    pub marked_text: Option<MarkedText>,
    /// The terminals that rang since they were last typed into.
    pub bell_tabs: KeyedSet<u64>,
    pub hovered_link: Option<HoveredLink>,
    pub pressed_link: Option<PressedLink>,
    /// When the link under the pointer was last looked up, in milliseconds.
    pub last_link_hover: Option<u64>,
    pub cursor_phase: bool,
    /// When the terminal was last typed into, in milliseconds.
    pub last_input: u64,
    pub terminal_focused: bool,
    pub current_size: Option<(PixelBits, PixelBits)>,
}

#[verifier::ext_equal]
pub struct DrawerModel {
    pub sticky: StickyModifiers,
    pub split_sizes: Seq<PixelBits>,
    pub row_layout_cache: Map<u64, TerminalGridCache>,
    pub drag: DragModel,
    pub marked_text: Option<(u64, Seq<char>)>,
    pub bell_tabs: Set<u64>,
    pub hovered_link: Option<(u64, HyperlinkMatch)>,
    pub pressed_link: Option<(u64, Seq<char>)>,
    pub last_link_hover: Option<u64>,
    pub cursor_phase: bool,
    pub last_input: u64,
    pub terminal_focused: bool,
    pub current_size: Option<(PixelBits, PixelBits)>,
}

impl View for TerminalDrawer {
    type V = DrawerModel;

    open spec fn view(&self) -> DrawerModel {
        DrawerModel {
            sticky: self.key_encoder.modifiers,
            split_sizes: self.split_sizes@,
            row_layout_cache: self.row_layout_cache@,
            drag: self.selection_drag@,
            marked_text: match self.marked_text {
                Some(m) => Some((m.terminal_id, m.text@)),
                None => None,
            },
            bell_tabs: self.bell_tabs@,
            hovered_link: match self.hovered_link {
                Some(h) => Some((h.terminal_id, h.link)),
                None => None,
            },
            pressed_link: match self.pressed_link {
                Some(p) => Some((p.terminal_id, p.url@)),
                None => None,
            },
            last_link_hover: self.last_link_hover,
            cursor_phase: self.cursor_phase,
            last_input: self.last_input,
            terminal_focused: self.terminal_focused,
            current_size: self.current_size,
        }
    }
}

/// A press of a button over a terminal.
#[derive(Clone, Copy, Debug)]
pub struct MouseDownEvent {
    pub button: MouseButton,
    pub modifiers: Modifiers,
    pub position: ScreenPoint,
    pub click_count: usize,
}

pub open spec fn selection_effects(terminal_id: u64, action: SelectionDragAction) -> Seq<
    EffectModel,
> {
    match action {
        SelectionDragAction::Nothing => Seq::empty(),
        SelectionDragAction::ClearAndWait => seq![Effect::ClearSelection { terminal_id }],
        SelectionDragAction::Start { kind, point, side } => seq![
            Effect::StartSelection { terminal_id, kind, point, side },
        ],
        SelectionDragAction::Update { point, side } => seq![
            Effect::UpdateSelection { terminal_id, point, side },
        ],
        SelectionDragAction::StartSimpleAndUpdate { anchor, anchor_side, point, side } => seq![
            Effect::StartSelection {
                terminal_id,
                kind: SelectionKind::Simple,
                point: anchor,
                side: anchor_side,
            },
            Effect::UpdateSelection { terminal_id, point, side },
        ],
    }
}

pub(crate) fn perform_selection(
    effects: &mut Vec<DrawerEffect>,
    terminal_id: u64,
    action: SelectionDragAction,
)
    ensures
        effects_model(final(effects)@) == effects_model(old(effects)@) + selection_effects(
            terminal_id,
            action,
        ),
{
    let ghost before = effects_model(effects@);
    match action {
        SelectionDragAction::Nothing => {},
        SelectionDragAction::ClearAndWait => emit(effects, Effect::ClearSelection { terminal_id }),
        SelectionDragAction::Start { kind, point, side } => emit(
            effects,
            Effect::StartSelection { terminal_id, kind, point, side },
        ),
        SelectionDragAction::Update { point, side } => emit(
            effects,
            Effect::UpdateSelection { terminal_id, point, side },
        ),
        SelectionDragAction::StartSimpleAndUpdate { anchor, anchor_side, point, side } => {
            emit(
                effects,
                Effect::StartSelection {
                    terminal_id,
                    kind: SelectionKind::Simple,
                    point: anchor,
                    side: anchor_side,
                },
            );
            emit(effects, Effect::UpdateSelection { terminal_id, point, side });
        },
    }
    assert(effects_model(effects@) =~= before + selection_effects(terminal_id, action));
}

/// What a press over a terminal comes to.
pub enum PressOutcome {
    /// The program takes it.
    Report,
    /// The right button selects the word under the pointer, where nothing is
    /// selected, for the menu that opens.
    ContextMenu,
    /// The middle button pastes the primary selection.
    PastePrimary,
    Nothing,
    /// A link is pressed; it opens on release.
    Link,
    Select,
}

pub open spec fn press_outcome(
    event: MouseDownEvent,
    pane: &PaneFacts,
    platform: Platform,
) -> PressOutcome {
    if pane.routes_mouse {
        PressOutcome::Report
    } else if event.button == MouseButton::Right {
        PressOutcome::ContextMenu
    } else if event.button == MouseButton::Middle && platform == Platform::Linux {
        PressOutcome::PastePrimary
    } else if event.button != MouseButton::Left {
        PressOutcome::Nothing
    } else if link_modifier(event.modifiers, platform == Platform::MacOs) && pane.link is Some {
        PressOutcome::Link
    } else {
        PressOutcome::Select
    }
}

pub open spec fn press_effects(
    terminal_id: u64,
    event: MouseDownEvent,
    cell: PointedCell,
    pane: &PaneFacts,
    platform: Platform,
    primary: Option<&str>,
) -> Seq<EffectModel> {
    match press_outcome(event, pane, platform) {
        PressOutcome::Report => match term_button(event.button) {
            Some(button) => seq![
                Effect::ReportButton {
                    terminal_id,
                    point: cell.point,
                    button,
                    modifiers: spec_term_modifiers(event.modifiers),
                    pressed: true,
                },
            ],
            None => Seq::empty(),
        },
        PressOutcome::ContextMenu => if pane.selected_text is None {
            seq![
                Effect::StartSelection {
                    terminal_id,
                    kind: SelectionKind::Semantic,
                    point: cell.point,
                    side: cell.side,
                },
            ]
        } else {
            Seq::empty()
        },
        PressOutcome::PastePrimary => match primary {
            Some(text) => seq![
                Effect::Input { terminal_id, text: pasted(text@, pane.bracketed_paste) },
            ],
            None => Seq::empty(),
        },
        PressOutcome::Nothing | PressOutcome::Link => Seq::empty(),
        PressOutcome::Select => selection_effects(
            terminal_id,
            DragModel::down_action(
                cell.point,
                cell.side,
                event.click_count,
                event.modifiers.shift,
            ),
        ),
    }
}

/// Whether a press is kept from the elements behind the terminal.
pub open spec fn press_stops(
    event: MouseDownEvent,
    pane: Option<&PaneFacts>,
    platform: Platform,
) -> bool {
    match pane {
        Some(p) => match press_outcome(event, p, platform) {
            PressOutcome::Report => event.button == MouseButton::Right,
            PressOutcome::PastePrimary => true,
            _ => false,
        },
        None => false,
    }
}

pub open spec fn stopping(stops: bool) -> Seq<EffectModel> {
    if stops {
        seq![Effect::StopPropagation]
    } else {
        Seq::empty()
    }
}

impl DrawerModel {
    /// The drawer after a press over a terminal.
    pub open spec fn pressed(
        self,
        terminal_id: u64,
        event: MouseDownEvent,
        cell: Option<PointedCell>,
        pane: Option<&PaneFacts>,
        platform: Platform,
    ) -> DrawerModel {
        match (cell, pane) {
            (Some(c), Some(p)) => match press_outcome(event, p, platform) {
                PressOutcome::Link => DrawerModel {
                    pressed_link: Some((terminal_id, p.link->0.url@)),
                    ..self
                },
                PressOutcome::Select => DrawerModel {
                    drag: self.drag.pressed(
                        terminal_id,
                        event.position,
                        c.point,
                        c.side,
                        event.click_count,
                        event.modifiers.shift,
                    ),
                    ..self
                },
                _ => self,
            },
            _ => self,
        }
    }
}

/// What a press over a terminal does.
pub open spec fn down_effects(
    terminal_id: u64,
    event: MouseDownEvent,
    cell: Option<PointedCell>,
    pane: Option<&PaneFacts>,
    platform: Platform,
    primary: Option<&str>,
) -> Seq<EffectModel> {
    let focused = seq![Effect::Focus, Effect::RequestSoftKeyboard];
    match cell {
        None => focused,
        Some(c) => focused.push(Effect::Activate { terminal_id }) + (match pane {
            Some(p) => press_effects(terminal_id, event, c, p, platform, primary),
            None => Seq::empty(),
        }) + stopping(press_stops(event, pane, platform)) + seq![Effect::Notify],
    }
}

impl TerminalDrawer {
    /// A button goes down over a terminal. `cell` is the cell under the pointer,
    /// once the grid was painted; `primary` the primary selection.
    pub fn terminal_mouse_down(
        &mut self,
        terminal_id: u64,
        event: MouseDownEvent,
        cell: Option<PointedCell>,
        pane: Option<&PaneFacts>,
        platform: Platform,
        primary: Option<&str>,
    ) -> (effects: Vec<DrawerEffect>)
        ensures
            final(self)@ == old(self)@.pressed(terminal_id, event, cell, pane, platform),
            effects_model(effects@) == down_effects(
                terminal_id,
                event,
                cell,
                pane,
                platform,
                primary,
            ),
    {
        let mut effects = no_effects();
        emit(&mut effects, Effect::Focus);
        emit(&mut effects, Effect::RequestSoftKeyboard);
        let c = match cell {
            Some(c) => c,
            None => {
                assert(effects_model(effects@) =~= down_effects(
                    terminal_id,
                    event,
                    cell,
                    pane,
                    platform,
                    primary,
                ));
                return effects;
            },
        };
        emit(&mut effects, Effect::Activate { terminal_id });
        let ghost opening = effects_model(effects@);
        assert(opening =~= seq![Effect::Focus, Effect::RequestSoftKeyboard].push(
            Effect::Activate { terminal_id },
        ));
        let mut stop_propagation = false;
        if let Some(p) = pane {
            if p.routes_mouse {
                if let Some(button) = term_mouse_button(event.button) {
                    emit(
                        &mut effects,
                        Effect::ReportButton {
                            terminal_id,
                            point: c.point,
                            button,
                            modifiers: term_modifiers(event.modifiers),
                            pressed: true,
                        },
                    );
                }
                if event.button == MouseButton::Right {
                    stop_propagation = true;
                }
            } else if event.button == MouseButton::Right {
                if p.selected_text.is_none() {
                    emit(
                        &mut effects,
                        Effect::StartSelection {
                            terminal_id,
                            kind: SelectionKind::Semantic,
                            point: c.point,
                            side: c.side,
                        },
                    );
                }
            } else if event.button == MouseButton::Middle && platform == Platform::Linux {
                if let Some(primary) = primary {
                    let typed = prepare_terminal_paste(primary, p.bracketed_paste);
                    emit(&mut effects, Effect::Input { terminal_id, text: typed });
                }
                stop_propagation = true;
            } else if event.button != MouseButton::Left {
            } else if terminal_link_modifier(event.modifiers, platform == Platform::MacOs)
                && p.link.is_some() {
                if let Some(link) = &p.link {
                    self.pressed_link = Some(PressedLink { terminal_id, url: link.url.clone() });
                }
            } else {
                let action = self.selection_drag.on_down(
                    terminal_id,
                    event.position,
                    c.point,
                    c.side,
                    event.click_count,
                    event.modifiers.shift,
                );
                perform_selection(&mut effects, terminal_id, action);
            }
            assert(effects_model(effects@) =~= opening + press_effects(
                terminal_id,
                event,
                c,
                p,
                platform,
                primary,
            ));
        } else {
            assert(effects_model(effects@) =~= opening + Seq::<EffectModel>::empty());
        }
        let ghost acted = effects_model(effects@);
        if stop_propagation {
            emit(&mut effects, Effect::StopPropagation);
        }
        assert(effects_model(effects@) =~= acted + stopping(press_stops(event, pane, platform)));
        emit(&mut effects, Effect::Notify);
        assert(effects_model(effects@) =~= down_effects(
            terminal_id,
            event,
            cell,
            pane,
            platform,
            primary,
        ));
        effects
    }
}

} // verus!
