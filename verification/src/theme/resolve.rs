//! How a theme's colours are found: in its style, else from other colours of it,
//! else in the bundled theme of the same appearance.
use crate::protocol::ConnectionState;
use crate::terminal::layout::{PaletteModel, TerminalPalette};
use crate::theme::color::{color_name, named_color, parse_color, rgb, written_color, Color};
use crate::theme::config::{
    json_text, lookup, styled, Json, Refusal, Style, ThemeConfig, ThemeError, ThemeErrorModel,
};
use crate::theme::ThemeMode;
use crate::window_seam::Platform;
use std::rc::Rc;
use vstd::prelude::*;

verus! {

// The colours that a theme resolves, in the order in which they are resolved.
pub const BACKGROUND: usize = 0;

pub const FOREGROUND: usize = 1;

pub const CONTENT_SURFACE: usize = 2;

pub const EDITOR_FOREGROUND: usize = 3;

pub const PRIMARY: usize = 4;

pub const SECONDARY: usize = 5;

pub const MUTED: usize = 6;

pub const MUTED_FOREGROUND: usize = 7;

pub const BORDER: usize = 8;

pub const INPUT: usize = 9;

pub const RING: usize = 10;

pub const POPOVER: usize = 11;

pub const DANGER: usize = 12;

pub const SELECTION: usize = 13;

pub const SYNTAX: usize = 14;

pub const ANSI: usize = 15;

pub const TERMINAL_BACKGROUND: usize = 31;

pub const TERMINAL_FOREGROUND: usize = 32;

pub const TERMINAL_CURSOR: usize = 33;

pub const INFO: usize = 34;

pub const LIST_ACTIVE: usize = 35;

pub const LIST_HOVER: usize = 36;

pub const SCROLLBAR: usize = 37;

pub const SCROLLBAR_THUMB: usize = 38;

pub const SCROLLBAR_THUMB_HOVER: usize = 39;

pub const SIDEBAR: usize = 40;

pub const SIDEBAR_FOREGROUND: usize = 41;

pub const SUCCESS: usize = 42;

pub const WARNING: usize = 43;

/// How many there are.
pub const SLOTS: usize = 44;

/// Where a colour is looked up, over texts of one type.
pub enum Source<T> {
    /// Under a key of the style.
    Style(T),
    /// In a field of the first of the style's players.
    Player(T),
    /// Nowhere: here the highlighter's word on the syntax colours counts.
    Syntax,
}

/// What a colour is where its source has none.
#[derive(Clone, Copy, Debug, PartialEq, Eq, Structural)]
pub enum Fallback {
    /// What the bundled theme has under the key.
    Bundled,
    /// A percentage of a colour resolved before.
    Faded(usize, u8),
}

pub struct Rule<T> {
    pub source: Source<T>,
    pub fallback: Fallback,
}

impl View for Rule<&'static str> {
    type V = Rule<Seq<char>>;

    open spec fn view(&self) -> Rule<Seq<char>> {
        Rule {
            source: match self.source {
                Source::Style(key) => Source::Style(key@),
                Source::Player(field) => Source::Player(field@),
                Source::Syntax => Source::Syntax,
            },
            fallback: self.fallback,
        }
    }
}

/// How each colour is found.
pub open spec fn rule_of(slot: int) -> Rule<Seq<char>> {
    if slot == BACKGROUND {
        Rule { source: Source::Style("background"@), fallback: Fallback::Bundled }
    } else if slot == FOREGROUND {
        Rule { source: Source::Style("text"@), fallback: Fallback::Bundled }
    } else if slot == CONTENT_SURFACE {
        Rule {
            source: Source::Style("editor.background"@),
            fallback: Fallback::Faded(BACKGROUND, 100),
        }
    } else if slot == EDITOR_FOREGROUND {
        Rule {
            source: Source::Style("editor.foreground"@),
            fallback: Fallback::Faded(FOREGROUND, 100),
        }
    } else if slot == PRIMARY {
        Rule { source: Source::Style("text.accent"@), fallback: Fallback::Bundled }
    } else if slot == SECONDARY {
        Rule {
            source: Source::Style("element.background"@),
            fallback: Fallback::Faded(FOREGROUND, 6),
        }
    } else if slot == MUTED {
        Rule {
            source: Source::Style("ghost_element.background"@),
            fallback: Fallback::Faded(SECONDARY, 100),
        }
    } else if slot == MUTED_FOREGROUND {
        Rule { source: Source::Style("text.muted"@), fallback: Fallback::Faded(FOREGROUND, 65) }
    } else if slot == BORDER {
        Rule { source: Source::Style("border"@), fallback: Fallback::Faded(FOREGROUND, 12) }
    } else if slot == INPUT {
        Rule { source: Source::Style("border.variant"@), fallback: Fallback::Faded(BORDER, 100) }
    } else if slot == RING {
        Rule { source: Source::Style("border.focused"@), fallback: Fallback::Faded(PRIMARY, 100) }
    } else if slot == POPOVER {
        Rule {
            source: Source::Style("elevated_surface.background"@),
            fallback: Fallback::Faded(CONTENT_SURFACE, 100),
        }
    } else if slot == DANGER {
        Rule { source: Source::Style("error"@), fallback: Fallback::Bundled }
    } else if slot == SELECTION {
        Rule { source: Source::Player("selection"@), fallback: Fallback::Faded(PRIMARY, 30) }
    } else if slot == SYNTAX {
        Rule { source: Source::Syntax, fallback: Fallback::Faded(FOREGROUND, 100) }
    } else if slot == ANSI {
        Rule { source: Source::Style("terminal.ansi.black"@), fallback: Fallback::Bundled }
    } else if slot == ANSI + 1 {
        Rule { source: Source::Style("terminal.ansi.red"@), fallback: Fallback::Bundled }
    } else if slot == ANSI + 2 {
        Rule { source: Source::Style("terminal.ansi.green"@), fallback: Fallback::Bundled }
    } else if slot == ANSI + 3 {
        Rule { source: Source::Style("terminal.ansi.yellow"@), fallback: Fallback::Bundled }
    } else if slot == ANSI + 4 {
        Rule { source: Source::Style("terminal.ansi.blue"@), fallback: Fallback::Bundled }
    } else if slot == ANSI + 5 {
        Rule { source: Source::Style("terminal.ansi.magenta"@), fallback: Fallback::Bundled }
    } else if slot == ANSI + 6 {
        Rule { source: Source::Style("terminal.ansi.cyan"@), fallback: Fallback::Bundled }
    } else if slot == ANSI + 7 {
        Rule { source: Source::Style("terminal.ansi.white"@), fallback: Fallback::Bundled }
    } else if slot == ANSI + 8 {
        Rule { source: Source::Style("terminal.ansi.bright_black"@), fallback: Fallback::Bundled }
    } else if slot == ANSI + 9 {
        Rule { source: Source::Style("terminal.ansi.bright_red"@), fallback: Fallback::Bundled }
    } else if slot == ANSI + 10 {
        Rule { source: Source::Style("terminal.ansi.bright_green"@), fallback: Fallback::Bundled }
    } else if slot == ANSI + 11 {
        Rule { source: Source::Style("terminal.ansi.bright_yellow"@), fallback: Fallback::Bundled }
    } else if slot == ANSI + 12 {
        Rule { source: Source::Style("terminal.ansi.bright_blue"@), fallback: Fallback::Bundled }
    } else if slot == ANSI + 13 {
        Rule { source: Source::Style("terminal.ansi.bright_magenta"@), fallback: Fallback::Bundled }
    } else if slot == ANSI + 14 {
        Rule { source: Source::Style("terminal.ansi.bright_cyan"@), fallback: Fallback::Bundled }
    } else if slot == ANSI + 15 {
        Rule { source: Source::Style("terminal.ansi.bright_white"@), fallback: Fallback::Bundled }
    } else if slot == TERMINAL_BACKGROUND {
        Rule {
            source: Source::Style("terminal.background"@),
            fallback: Fallback::Faded(CONTENT_SURFACE, 100),
        }
    } else if slot == TERMINAL_FOREGROUND {
        Rule {
            source: Source::Style("terminal.foreground"@),
            fallback: Fallback::Faded(FOREGROUND, 100),
        }
    } else if slot == TERMINAL_CURSOR {
        Rule { source: Source::Player("cursor"@), fallback: Fallback::Faded(FOREGROUND, 100) }
    } else if slot == INFO {
        Rule { source: Source::Style("info"@), fallback: Fallback::Bundled }
    } else if slot == LIST_ACTIVE {
        Rule {
            source: Source::Style("ghost_element.selected"@),
            fallback: Fallback::Faded(SELECTION, 100),
        }
    } else if slot == LIST_HOVER {
        Rule {
            source: Source::Style("ghost_element.hover"@),
            fallback: Fallback::Faded(SECONDARY, 100),
        }
    } else if slot == SCROLLBAR {
        Rule {
            source: Source::Style("scrollbar.track.background"@),
            fallback: Fallback::Faded(BACKGROUND, 0),
        }
    } else if slot == SCROLLBAR_THUMB {
        Rule {
            source: Source::Style("scrollbar.thumb.background"@),
            fallback: Fallback::Faded(FOREGROUND, 20),
        }
    } else if slot == SCROLLBAR_THUMB_HOVER {
        Rule {
            source: Source::Style("scrollbar.thumb.hover_background"@),
            fallback: Fallback::Faded(FOREGROUND, 35),
        }
    } else if slot == SIDEBAR {
        Rule {
            source: Source::Style("panel.background"@),
            fallback: Fallback::Faded(BACKGROUND, 100),
        }
    } else if slot == SIDEBAR_FOREGROUND {
        Rule { source: Source::Style("icon"@), fallback: Fallback::Faded(FOREGROUND, 100) }
    } else if slot == SUCCESS {
        Rule { source: Source::Style("success"@), fallback: Fallback::Bundled }
    } else {
        Rule { source: Source::Style("warning"@), fallback: Fallback::Bundled }
    }
}

fn rule(slot: usize) -> (rule: Rule<&'static str>)
    ensures
        rule@ == rule_of(slot as int),
        match rule.fallback {
            Fallback::Faded(of, percent) => of < slot && percent <= 100,
            Fallback::Bundled => true,
        },
        slot >= SLOTS || rule.source is Style || rule.fallback is Faded,
{
    if slot == BACKGROUND {
        Rule { source: Source::Style("background"), fallback: Fallback::Bundled }
    } else if slot == FOREGROUND {
        Rule { source: Source::Style("text"), fallback: Fallback::Bundled }
    } else if slot == CONTENT_SURFACE {
        Rule {
            source: Source::Style("editor.background"),
            fallback: Fallback::Faded(BACKGROUND, 100),
        }
    } else if slot == EDITOR_FOREGROUND {
        Rule {
            source: Source::Style("editor.foreground"),
            fallback: Fallback::Faded(FOREGROUND, 100),
        }
    } else if slot == PRIMARY {
        Rule { source: Source::Style("text.accent"), fallback: Fallback::Bundled }
    } else if slot == SECONDARY {
        Rule {
            source: Source::Style("element.background"),
            fallback: Fallback::Faded(FOREGROUND, 6),
        }
    } else if slot == MUTED {
        Rule {
            source: Source::Style("ghost_element.background"),
            fallback: Fallback::Faded(SECONDARY, 100),
        }
    } else if slot == MUTED_FOREGROUND {
        Rule { source: Source::Style("text.muted"), fallback: Fallback::Faded(FOREGROUND, 65) }
    } else if slot == BORDER {
        Rule { source: Source::Style("border"), fallback: Fallback::Faded(FOREGROUND, 12) }
    } else if slot == INPUT {
        Rule { source: Source::Style("border.variant"), fallback: Fallback::Faded(BORDER, 100) }
    } else if slot == RING {
        Rule { source: Source::Style("border.focused"), fallback: Fallback::Faded(PRIMARY, 100) }
    } else if slot == POPOVER {
        Rule {
            source: Source::Style("elevated_surface.background"),
            fallback: Fallback::Faded(CONTENT_SURFACE, 100),
        }
    } else if slot == DANGER {
        Rule { source: Source::Style("error"), fallback: Fallback::Bundled }
    } else if slot == SELECTION {
        Rule { source: Source::Player("selection"), fallback: Fallback::Faded(PRIMARY, 30) }
    } else if slot == SYNTAX {
        Rule { source: Source::Syntax, fallback: Fallback::Faded(FOREGROUND, 100) }
    } else if slot == ANSI {
        Rule { source: Source::Style("terminal.ansi.black"), fallback: Fallback::Bundled }
    } else if slot == ANSI + 1 {
        Rule { source: Source::Style("terminal.ansi.red"), fallback: Fallback::Bundled }
    } else if slot == ANSI + 2 {
        Rule { source: Source::Style("terminal.ansi.green"), fallback: Fallback::Bundled }
    } else if slot == ANSI + 3 {
        Rule { source: Source::Style("terminal.ansi.yellow"), fallback: Fallback::Bundled }
    } else if slot == ANSI + 4 {
        Rule { source: Source::Style("terminal.ansi.blue"), fallback: Fallback::Bundled }
    } else if slot == ANSI + 5 {
        Rule { source: Source::Style("terminal.ansi.magenta"), fallback: Fallback::Bundled }
    } else if slot == ANSI + 6 {
        Rule { source: Source::Style("terminal.ansi.cyan"), fallback: Fallback::Bundled }
    } else if slot == ANSI + 7 {
        Rule { source: Source::Style("terminal.ansi.white"), fallback: Fallback::Bundled }
    } else if slot == ANSI + 8 {
        Rule { source: Source::Style("terminal.ansi.bright_black"), fallback: Fallback::Bundled }
    } else if slot == ANSI + 9 {
        Rule { source: Source::Style("terminal.ansi.bright_red"), fallback: Fallback::Bundled }
    } else if slot == ANSI + 10 {
        Rule { source: Source::Style("terminal.ansi.bright_green"), fallback: Fallback::Bundled }
    } else if slot == ANSI + 11 {
        Rule { source: Source::Style("terminal.ansi.bright_yellow"), fallback: Fallback::Bundled }
    } else if slot == ANSI + 12 {
        Rule { source: Source::Style("terminal.ansi.bright_blue"), fallback: Fallback::Bundled }
    } else if slot == ANSI + 13 {
        Rule { source: Source::Style("terminal.ansi.bright_magenta"), fallback: Fallback::Bundled }
    } else if slot == ANSI + 14 {
        Rule { source: Source::Style("terminal.ansi.bright_cyan"), fallback: Fallback::Bundled }
    } else if slot == ANSI + 15 {
        Rule { source: Source::Style("terminal.ansi.bright_white"), fallback: Fallback::Bundled }
    } else if slot == TERMINAL_BACKGROUND {
        Rule {
            source: Source::Style("terminal.background"),
            fallback: Fallback::Faded(CONTENT_SURFACE, 100),
        }
    } else if slot == TERMINAL_FOREGROUND {
        Rule {
            source: Source::Style("terminal.foreground"),
            fallback: Fallback::Faded(FOREGROUND, 100),
        }
    } else if slot == TERMINAL_CURSOR {
        Rule { source: Source::Player("cursor"), fallback: Fallback::Faded(FOREGROUND, 100) }
    } else if slot == INFO {
        Rule { source: Source::Style("info"), fallback: Fallback::Bundled }
    } else if slot == LIST_ACTIVE {
        Rule {
            source: Source::Style("ghost_element.selected"),
            fallback: Fallback::Faded(SELECTION, 100),
        }
    } else if slot == LIST_HOVER {
        Rule {
            source: Source::Style("ghost_element.hover"),
            fallback: Fallback::Faded(SECONDARY, 100),
        }
    } else if slot == SCROLLBAR {
        Rule {
            source: Source::Style("scrollbar.track.background"),
            fallback: Fallback::Faded(BACKGROUND, 0),
        }
    } else if slot == SCROLLBAR_THUMB {
        Rule {
            source: Source::Style("scrollbar.thumb.background"),
            fallback: Fallback::Faded(FOREGROUND, 20),
        }
    } else if slot == SCROLLBAR_THUMB_HOVER {
        Rule {
            source: Source::Style("scrollbar.thumb.hover_background"),
            fallback: Fallback::Faded(FOREGROUND, 35),
        }
    } else if slot == SIDEBAR {
        Rule {
            source: Source::Style("panel.background"),
            fallback: Fallback::Faded(BACKGROUND, 100),
        }
    } else if slot == SIDEBAR_FOREGROUND {
        Rule { source: Source::Style("icon"), fallback: Fallback::Faded(FOREGROUND, 100) }
    } else if slot == SUCCESS {
        Rule { source: Source::Style("success"), fallback: Fallback::Bundled }
    } else {
        Rule { source: Source::Style("warning"), fallback: Fallback::Bundled }
    }
}

/// The text that a field of the first player has.
pub open spec fn player_text(style: Seq<(String, Json)>, field: Seq<char>) -> Option<Seq<char>> {
    match styled(style, "players"@) {
        Some(Json::Array(players)) => if players@.len() > 0 {
            match players@[0] {
                Json::Object(fields) => json_text(styled(fields@, field)),
                _ => None,
            }
        } else {
            None
        },
        _ => None,
    }
}

/// The colour that a text writes, or the refusal of the text.
pub open spec fn read_color(text: Seq<char>) -> Result<Color, ThemeErrorModel> {
    match written_color(text) {
        Some(color) => Ok(color),
        None => Err(Refusal::InvalidColor { value: named_color(text) }),
    }
}

/// Whether a style has something under a key.
pub open spec fn is_set(style: Seq<(String, Json)>, key: Seq<char>) -> bool {
    match styled(style, key) {
        None | Some(Json::Null) => false,
        _ => true,
    }
}

/// The colour of a slot, those before it being `colors`.
pub open spec fn slot_color(
    slot: int,
    style: Seq<(String, Json)>,
    bundled: Seq<(String, Json)>,
    syntax_error: Option<Seq<char>>,
    colors: Seq<Color>,
) -> Result<Color, ThemeErrorModel> {
    let rule = rule_of(slot);
    let fallback = match rule.fallback {
        Fallback::Faded(of, percent) => Some(colors[of as int].faded(percent as nat)),
        Fallback::Bundled => None,
    };
    match rule.source {
        Source::Style(key) => if !is_set(style, key) && fallback is Some {
            Ok(fallback->0)
        } else {
            let value = if is_set(style, key) {
                styled(style, key)
            } else {
                styled(bundled, key)
            };
            match json_text(value) {
                Some(text) => read_color(text),
                None => Err(Refusal::MustBeColor { key }),
            }
        },
        Source::Player(field) => match player_text(style, field) {
            Some(text) => read_color(text),
            None => Ok(fallback->0),
        },
        Source::Syntax => match syntax_error {
            Some(message) => Err(Refusal::Syntax { message }),
            None => Ok(fallback->0),
        },
    }
}

/// The colours of the first `n` slots, or the refusal of the first that has none.
pub open spec fn slot_colors(
    n: nat,
    style: Seq<(String, Json)>,
    bundled: Seq<(String, Json)>,
    syntax_error: Option<Seq<char>>,
) -> Result<Seq<Color>, ThemeErrorModel>
    decreases n,
{
    if n == 0 {
        Ok(Seq::empty())
    } else {
        match slot_colors((n - 1) as nat, style, bundled, syntax_error) {
            Ok(colors) => match slot_color(n - 1, style, bundled, syntax_error, colors) {
                Ok(color) => Ok(colors.push(color)),
                Err(refusal) => Err(refusal),
            },
            Err(refusal) => Err(refusal),
        }
    }
}

/// The colours that the application paints with.
#[derive(Debug, Clone, Copy)]
pub struct ThemeColors {
    pub accent: Color,
    pub background: Color,
    pub content_surface: Color,
    pub editor_foreground: Color,
    pub border: Color,
    pub danger: Color,
    pub danger_active: Color,
    pub danger_foreground: Color,
    pub foreground: Color,
    pub info: Color,
    pub info_foreground: Color,
    pub input: Color,
    pub link: Color,
    pub list_active: Color,
    pub list_hover: Color,
    pub muted: Color,
    pub muted_foreground: Color,
    pub popover: Color,
    pub primary: Color,
    pub ring: Color,
    pub scrollbar: Color,
    pub scrollbar_thumb: Color,
    pub scrollbar_thumb_hover: Color,
    pub secondary: Color,
    pub secondary_active: Color,
    pub selection: Color,
    pub sidebar: Color,
    pub sidebar_accent: Color,
    pub sidebar_foreground: Color,
    pub success: Color,
    pub success_foreground: Color,
    pub tab_active: Color,
    pub warning: Color,
    pub warning_foreground: Color,
}

pub open spec fn theme_colors(colors: Seq<Color>) -> ThemeColors {
    ThemeColors {
        accent: colors[SECONDARY as int],
        background: colors[BACKGROUND as int],
        content_surface: colors[CONTENT_SURFACE as int],
        editor_foreground: colors[EDITOR_FOREGROUND as int],
        border: colors[BORDER as int],
        danger: colors[DANGER as int],
        danger_active: colors[DANGER as int],
        danger_foreground: colors[DANGER as int],
        foreground: colors[FOREGROUND as int],
        info: colors[INFO as int],
        info_foreground: colors[INFO as int],
        input: colors[INPUT as int],
        link: colors[PRIMARY as int],
        list_active: colors[LIST_ACTIVE as int],
        list_hover: colors[LIST_HOVER as int],
        muted: colors[MUTED as int],
        muted_foreground: colors[MUTED_FOREGROUND as int],
        popover: colors[POPOVER as int],
        primary: colors[PRIMARY as int],
        ring: colors[RING as int],
        scrollbar: colors[SCROLLBAR as int],
        scrollbar_thumb: colors[SCROLLBAR_THUMB as int],
        scrollbar_thumb_hover: colors[SCROLLBAR_THUMB_HOVER as int],
        secondary: colors[SECONDARY as int],
        secondary_active: colors[SECONDARY as int],
        selection: colors[SELECTION as int],
        sidebar: colors[SIDEBAR as int],
        sidebar_accent: colors[SECONDARY as int],
        sidebar_foreground: colors[SIDEBAR_FOREGROUND as int],
        success: colors[SUCCESS as int],
        success_foreground: colors[SUCCESS as int],
        tab_active: colors[CONTENT_SURFACE as int],
        warning: colors[WARNING as int],
        warning_foreground: colors[WARNING as int],
    }
}

pub open spec fn theme_palette(colors: Seq<Color>) -> PaletteModel {
    PaletteModel {
        background: colors[TERMINAL_BACKGROUND as int],
        foreground: colors[TERMINAL_FOREGROUND as int],
        selection: colors[SELECTION as int],
        cursor: colors[TERMINAL_CURSOR as int],
        ansi: colors.subrange(ANSI as int, ANSI + 16),
    }
}

/// A theme ready to paint with.
pub struct Theme {
    pub revision: u64,
    pub theme_name: String,
    pub mode: ThemeMode,
    pub colors: ThemeColors,
    pub terminal: TerminalPalette,
    /// The style that it came from, for the highlighter.
    pub style: Rc<Style>,
}

#[verifier::ext_equal]
pub struct ThemeModel {
    pub revision: u64,
    pub theme_name: Seq<char>,
    pub mode: ThemeMode,
    pub colors: ThemeColors,
    pub terminal: PaletteModel,
    pub style: Seq<(String, Json)>,
}

impl View for Theme {
    type V = ThemeModel;

    open spec fn view(&self) -> ThemeModel {
        ThemeModel {
            revision: self.revision,
            theme_name: self.theme_name@,
            mode: self.mode,
            colors: self.colors,
            terminal: self.terminal@,
            style: self.style@,
        }
    }
}

impl Clone for Theme {
    fn clone(&self) -> (copy: Self)
        ensures
            copy == *self,
    {
        Theme {
            revision: self.revision,
            theme_name: self.theme_name.clone(),
            mode: self.mode,
            colors: self.colors,
            terminal: self.terminal,
            style: self.style.clone(),
        }
    }
}

pub open spec fn syntax_refusal(config: ThemeConfig) -> Option<Seq<char>> {
    match config.syntax_error {
        Some(message) => Some(message@),
        None => None,
    }
}

/// What a theme file's theme resolves to, over the bundled style of its
/// appearance.
pub open spec fn resolved(config: ThemeConfig, bundled: Seq<(String, Json)>) -> Result<
    ThemeModel,
    ThemeErrorModel,
> {
    match slot_colors(SLOTS as nat, config.style@, bundled, syntax_refusal(config)) {
        Ok(colors) => Ok(
            ThemeModel {
                revision: 0,
                theme_name: config.name@,
                mode: config.appearance,
                colors: theme_colors(colors),
                terminal: theme_palette(colors),
                style: config.style@,
            },
        ),
        Err(refusal) => Err(refusal),
    }
}

fn color_text(text: &String) -> (color: Result<Color, ThemeError>)
    ensures
        match (color, read_color(text@)) {
            (Ok(got), Ok(want)) => got == want,
            (Err(got), Err(want)) => got@ == want,
            _ => false,
        },
{
    match parse_color(text.as_str()) {
        Some(color) => Ok(color),
        None => Err(Refusal::InvalidColor { value: color_name(text.as_str()) }),
    }
}

fn first_player<'a>(style: &'a Style, field: &str) -> (text: Option<&'a String>)
    ensures
        match (text, player_text(style@, field@)) {
            (Some(got), Some(want)) => got@ == want,
            (None, None) => true,
            _ => false,
        },
{
    match lookup(style, "players") {
        Some(Json::Array(players)) => if players.len() > 0 {
            match &players[0] {
                Json::Object(fields) => match lookup(fields, field) {
                    Some(Json::Text(text)) => Some(text),
                    _ => None,
                },
                _ => None,
            }
        } else {
            None
        },
        _ => None,
    }
}

fn resolve_slot(
    slot: usize,
    style: &Style,
    bundled: &Style,
    syntax_error: &Option<String>,
    colors: &Vec<Color>,
) -> (color: Result<Color, ThemeError>)
    requires
        slot < SLOTS,
        colors@.len() == slot,
    ensures
        match (
            color,
            slot_color(
                slot as int,
                style@,
                bundled@,
                match *syntax_error {
                    Some(message) => Some(message@),
                    None => None,
                },
                colors@,
            ),
        ) {
            (Ok(got), Ok(want)) => got == want,
            (Err(got), Err(want)) => got@ == want,
            _ => false,
        },
{
    let rule = rule(slot);
    let fallback = match rule.fallback {
        Fallback::Faded(of, percent) => Some(colors[of].opacity(percent)),
        Fallback::Bundled => None,
    };
    match rule.source {
        Source::Style(key) => {
            let value = match lookup(style, key) {
                Some(Json::Null) => None,
                value => value,
            };
            if value.is_none() {
                if let Some(color) = fallback {
                    return Ok(color);
                }
            }
            let found = match value {
                Some(value) => Some(value),
                None => lookup(bundled, key),
            };
            match found {
                Some(Json::Text(text)) => color_text(text),
                _ => Err(Refusal::MustBeColor { key: key.to_string() }),
            }
        },
        Source::Player(field) => match first_player(style, field) {
            Some(text) => color_text(text),
            None => match fallback {
                Some(color) => Ok(color),
                None => Err(Refusal::MustBeColor { key: field.to_string() }),
            },
        },
        Source::Syntax => match syntax_error {
            Some(message) => Err(Refusal::Syntax { message: message.clone() }),
            None => match fallback {
                Some(color) => Ok(color),
                None => Err(Refusal::MustBeColor { key: String::new() }),
            },
        },
    }
}

fn palette(colors: &Vec<Color>) -> (palette: TerminalPalette)
    requires
        colors@.len() == SLOTS,
    ensures
        palette@ == theme_palette(colors@),
{
    let first = colors[FOREGROUND];
    let mut ansi: [Color; 16] = [first; 16];
    let mut i: usize = 0;
    while i < 16
        invariant
            i <= 16,
            colors@.len() == SLOTS,
            forall|j: int| 0 <= j < i ==> ansi@[j] == colors@[ANSI + j],
        decreases 16 - i,
    {
        ansi[i] = colors[ANSI + i];
        i += 1;
    }
    let palette = TerminalPalette {
        background: colors[TERMINAL_BACKGROUND],
        foreground: colors[TERMINAL_FOREGROUND],
        selection: colors[SELECTION],
        cursor: colors[TERMINAL_CURSOR],
        ansi,
    };
    assert(palette@.ansi =~= theme_palette(colors@).ansi);
    palette
}

fn assigned(colors: &Vec<Color>) -> (assigned: ThemeColors)
    requires
        colors@.len() == SLOTS,
    ensures
        assigned == theme_colors(colors@),
{
    ThemeColors {
        accent: colors[SECONDARY],
        background: colors[BACKGROUND],
        content_surface: colors[CONTENT_SURFACE],
        editor_foreground: colors[EDITOR_FOREGROUND],
        border: colors[BORDER],
        danger: colors[DANGER],
        danger_active: colors[DANGER],
        danger_foreground: colors[DANGER],
        foreground: colors[FOREGROUND],
        info: colors[INFO],
        info_foreground: colors[INFO],
        input: colors[INPUT],
        link: colors[PRIMARY],
        list_active: colors[LIST_ACTIVE],
        list_hover: colors[LIST_HOVER],
        muted: colors[MUTED],
        muted_foreground: colors[MUTED_FOREGROUND],
        popover: colors[POPOVER],
        primary: colors[PRIMARY],
        ring: colors[RING],
        scrollbar: colors[SCROLLBAR],
        scrollbar_thumb: colors[SCROLLBAR_THUMB],
        scrollbar_thumb_hover: colors[SCROLLBAR_THUMB_HOVER],
        secondary: colors[SECONDARY],
        secondary_active: colors[SECONDARY],
        selection: colors[SELECTION],
        sidebar: colors[SIDEBAR],
        sidebar_accent: colors[SECONDARY],
        sidebar_foreground: colors[SIDEBAR_FOREGROUND],
        success: colors[SUCCESS],
        success_foreground: colors[SUCCESS],
        tab_active: colors[CONTENT_SURFACE],
        warning: colors[WARNING],
        warning_foreground: colors[WARNING],
    }
}

/// Resolve a theme over the bundled style of its appearance.
pub fn resolve_theme(config: &ThemeConfig, bundled: &Style) -> (theme: Result<Theme, ThemeError>)
    ensures
        match (theme, resolved(*config, bundled@)) {
            (Ok(got), Ok(want)) => got@ == want,
            (Err(got), Err(want)) => got@ == want,
            _ => false,
        },
{
    let ghost refusal = syntax_refusal(*config);
    let ghost style = config.style@;
    let mut colors: Vec<Color> = Vec::new();
    let mut slot: usize = 0;
    while slot < SLOTS
        invariant
            slot <= SLOTS,
            colors@.len() == slot,
            style == config.style@,
            refusal == syntax_refusal(*config),
            slot_colors(slot as nat, style, bundled@, refusal) == Ok::<_, ThemeErrorModel>(colors@),
        decreases SLOTS - slot,
    {
        match resolve_slot(slot, &config.style, bundled, &config.syntax_error, &colors) {
            Ok(color) => {
                colors.push(color);
            },
            Err(refused) => {
                proof {
                    lemma_refused(slot as nat, SLOTS as nat, style, bundled@, refusal);
                }
                return Err(refused);
            },
        }
        slot += 1;
    }
    Ok(
        Theme {
            revision: 0,
            theme_name: config.name.clone(),
            mode: config.appearance,
            colors: assigned(&colors),
            terminal: palette(&colors),
            style: config.style.clone(),
        },
    )
}

/// Once a slot is refused, so is the theme.
proof fn lemma_refused(
    slot: nat,
    n: nat,
    style: Seq<(String, Json)>,
    bundled: Seq<(String, Json)>,
    syntax_error: Option<Seq<char>>,
)
    requires
        slot < n,
        slot_colors(slot, style, bundled, syntax_error) is Ok,
        slot_colors(slot + 1, style, bundled, syntax_error) is Err,
    ensures
        slot_colors(n, style, bundled, syntax_error) == slot_colors(
            slot + 1,
            style,
            bundled,
            syntax_error,
        ),
    decreases n,
{
    if n > slot + 1 {
        lemma_refused(slot, (n - 1) as nat, style, bundled, syntax_error);
    }
}

impl Theme {
    pub open spec fn severity(colors: ThemeColors, state: ConnectionState) -> Color {
        match state {
            ConnectionState::Connected => colors.success,
            ConnectionState::Syncing => colors.warning,
            ConnectionState::Reconnecting { .. } => colors.warning,
            ConnectionState::Offline { .. } => colors.danger,
        }
    }

    /// Connection severity shared by the sidebar and the attached machine's row.
    pub fn connection_color(&self, state: &ConnectionState) -> (color: Color)
        ensures
            color == Theme::severity(self.colors, *state),
    {
        match state {
            ConnectionState::Connected => self.colors.success,
            ConnectionState::Syncing | ConnectionState::Reconnecting { .. } => self.colors.warning,
            ConnectionState::Offline { .. } => self.colors.danger,
        }
    }

    /// The composer's fast-mode bolt when fast mode is on. Deliberately no theme
    /// colour: one electric amber that reads on light and dark surfaces.
    pub fn fast_mode_accent(&self) -> (color: Color)
        ensures
            color == Color::solid(0xf5a5_24ff),
    {
        rgb(0xf5_a524)
    }

    pub fn theme_name(&self) -> (name: &String)
        ensures
            *name == self.theme_name,
    {
        &self.theme_name
    }
}

/// The corner radius of every theme, in pixels.
pub const RADIUS: u32 = 10;

/// The font of code and terminals.
pub fn mono_font_family(platform: Platform) -> (family: &'static str)
    ensures
        family@ == if platform == Platform::Ios || platform == Platform::Android || platform
            == Platform::Web {
            "Lilex"@
        } else {
            "SF Mono"@
        },
{
    match platform {
        Platform::Ios | Platform::Android | Platform::Web => "Lilex",
        _ => "SF Mono",
    }
}

/// A colour that a style leaves unset, and that can come from another colour of
/// the theme, comes from that one, whatever the bundled theme has for it.
pub proof fn law_an_unset_color_comes_from_another(
    slot: int,
    style: Seq<(String, Json)>,
    bundled: Seq<(String, Json)>,
    colors: Seq<Color>,
)
    requires
        0 <= slot < SLOTS,
        rule_of(slot).source is Style,
        !is_set(style, rule_of(slot).source->Style_0),
        rule_of(slot).fallback is Faded,
    ensures
        slot_color(slot, style, bundled, None, colors) == Ok::<_, ThemeErrorModel>(
            colors[rule_of(slot).fallback->Faded_0 as int].faded(
                rule_of(slot).fallback->Faded_1 as nat,
            ),
        ),
{
}

/// Whether a style has what another has, but for the keys with nothing under them.
pub open spec fn omits_nulls(omitted: Seq<(String, Json)>, style: Seq<(String, Json)>) -> bool {
    forall|key: Seq<char>| #[trigger]
        styled(omitted, key) == (match styled(style, key) {
            Some(Json::Null) => None,
            value => value,
        })
}

proof fn lemma_nulls_omitted(
    n: nat,
    omitted: Seq<(String, Json)>,
    style: Seq<(String, Json)>,
    bundled: Seq<(String, Json)>,
    syntax_error: Option<Seq<char>>,
)
    requires
        omits_nulls(omitted, style),
    ensures
        slot_colors(n, omitted, bundled, syntax_error) == slot_colors(
            n,
            style,
            bundled,
            syntax_error,
        ),
    decreases n,
{
    if n > 0 {
        lemma_nulls_omitted((n - 1) as nat, omitted, style, bundled, syntax_error);
        assert(forall|key: Seq<char>| #[trigger] is_set(omitted, key) == is_set(style, key));
        match rule_of(n - 1).source {
            Source::Style(key) => {
                assert(styled(omitted, key) == styled(style, key) || !is_set(style, key));
            },
            Source::Player(_) => {
                assert(styled(omitted, "players"@) == styled(style, "players"@) || !is_set(
                    style,
                    "players"@,
                ));
            },
            Source::Syntax => {},
        }
    }
}

/// A key with null under it means the same as one left out: two themes that differ
/// in such keys alone are refused alike, or resolve to the same colours.
pub proof fn law_null_means_omitted(
    config: ThemeConfig,
    omitted: ThemeConfig,
    bundled: Seq<(String, Json)>,
)
    requires
        omits_nulls(omitted.style@, config.style@),
        omitted.name@ == config.name@,
        omitted.appearance == config.appearance,
        syntax_refusal(omitted) == syntax_refusal(config),
    ensures
        match (resolved(omitted, bundled), resolved(config, bundled)) {
            (Ok(got), Ok(want)) => got == (ThemeModel { style: got.style, ..want }),
            (Err(got), Err(want)) => got == want,
            _ => false,
        },
{
    lemma_nulls_omitted(
        SLOTS as nat,
        omitted.style@,
        config.style@,
        bundled,
        syntax_refusal(config),
    );
}

/// A theme keeps its file's name and appearance.
pub proof fn law_a_theme_keeps_its_name_and_mode(
    config: ThemeConfig,
    bundled: Seq<(String, Json)>,
)
    requires
        resolved(config, bundled) is Ok,
    ensures
        resolved(config, bundled)->Ok_0.theme_name == config.name@,
        resolved(config, bundled)->Ok_0.mode == config.appearance,
{
}

proof fn lemma_rule_finds(slot: int)
    requires
        0 <= slot < SLOTS,
    ensures
        rule_of(slot).source is Style || rule_of(slot).fallback is Faded,
{
}

proof fn lemma_empty_resolves(
    n: nat,
    empty: Seq<(String, Json)>,
    bundled: Seq<(String, Json)>,
    syntax_error: Option<Seq<char>>,
)
    requires
        n <= SLOTS,
        forall|key: Seq<char>| #[trigger] styled(empty, key) is None,
        slot_colors(n, bundled, bundled, syntax_error) is Ok,
    ensures
        slot_colors(n, empty, bundled, None) is Ok,
        slot_colors(n, empty, bundled, None)->Ok_0.len() == n,
        slot_colors(n, bundled, bundled, syntax_error)->Ok_0.len() == n,
        forall|slot: int|
            0 <= slot < n && (#[trigger] rule_of(slot)).fallback is Bundled ==> slot_colors(
                n,
                empty,
                bundled,
                None,
            )->Ok_0[slot] == slot_colors(n, bundled, bundled, syntax_error)->Ok_0[slot],
    decreases n,
{
    if n > 0 {
        lemma_empty_resolves((n - 1) as nat, empty, bundled, syntax_error);
        lemma_rule_finds(n - 1);
        assert(forall|key: Seq<char>| !#[trigger] is_set(empty, key));
        match rule_of(n - 1).source {
            Source::Style(key) => {
                assert(!is_set(empty, key));
            },
            Source::Player(field) => {
                assert(styled(empty, "players"@) is None);
                assert(player_text(empty, field) is None);
            },
            Source::Syntax => {},
        }
    }
}

/// A theme whose style has no keys resolves, wherever the bundled theme of its
/// appearance does, and has from it what does not come from other colours.
pub proof fn law_a_theme_without_colors_resolves(
    config: ThemeConfig,
    bundled: ThemeConfig,
    slot: int,
)
    requires
        config.style@.len() == 0,
        config.syntax_error is None,
        resolved(bundled, bundled.style@) is Ok,
        0 <= slot < SLOTS,
        rule_of(slot).fallback is Bundled,
    ensures
        resolved(config, bundled.style@) is Ok,
        slot_colors(SLOTS as nat, config.style@, bundled.style@, None)->Ok_0[slot] == slot_colors(
            SLOTS as nat,
            bundled.style@,
            bundled.style@,
            syntax_refusal(bundled),
        )->Ok_0[slot],
{
    lemma_empty_resolves(SLOTS as nat, config.style@, bundled.style@, syntax_refusal(bundled));
}

} // verus!
