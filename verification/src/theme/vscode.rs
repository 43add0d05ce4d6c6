//! Converting themes of VS Code.
//!
//! Each syntax rule counts for the category of its scope: language-specific and
//! semantic rules cannot keep their full meaning in a palette of categories.
use crate::protocol::copy_text;
use crate::text::{
    blank, characters, is_blank, is_white_space, trim, trimmed, white_space,
};
use crate::theme::color::{
    color_name, is_light, light, named_color, parse_color, written_color,
};
use crate::theme::config::{
    put, styled, Json, Refusal, Style, ThemeConfig, ThemeError, ThemeErrorModel, ThemeFamily,
};
use crate::theme::registry::name_model;
use crate::theme::ThemeMode;
use std::rc::Rc;
use vstd::prelude::*;
use vstd::utf8::encode_utf8;

verus! {

/// What a rule for tokens applies to.
pub enum TokenScope {
    /// Everything: the rule sets the editor's own colours.
    All,
    /// Lists of scopes, each separated by commas.
    Scopes(Vec<String>),
    /// A list with something in it that is no text.
    NotAllText,
    /// Neither a text nor a list.
    Other,
}

pub struct TokenRule {
    pub scope: TokenScope,
    pub foreground: Option<String>,
    pub font_style: Option<String>,
}

pub enum TokenColors {
    Absent,
    /// The rules stand in another file.
    External,
    Rules(Vec<TokenRule>),
    /// What stands there are no rules.
    Misshapen,
}

/// A theme file of VS Code.
pub struct VsCodeTheme {
    pub name: Option<String>,
    /// The `type` that it gives itself.
    pub appearance: Option<String>,
    pub colors: Vec<(String, Option<String>)>,
    pub token_colors: TokenColors,
    /// The file that it builds on.
    pub base: Option<String>,
}

/// The colour under a key, where one is set.
pub open spec fn set_color(
    colors: Seq<(String, Option<String>)>,
    key: Seq<char>,
) -> Option<Seq<char>>
    decreases colors.len(),
{
    if colors.len() == 0 {
        None
    } else if colors[0].0@ == key {
        name_model(colors[0].1)
    } else {
        set_color(colors.drop_first(), key)
    }
}

proof fn lemma_set_color_skips(colors: Seq<(String, Option<String>)>, key: Seq<char>, at: int)
    requires
        0 <= at <= colors.len(),
        forall|j: int| 0 <= j < at ==> (#[trigger] colors[j]).0@ != key,
    ensures
        set_color(colors, key) == set_color(colors.skip(at), key),
    decreases at,
{
    if at == 0 {
        assert(colors.skip(0) =~= colors);
    } else {
        lemma_set_color_skips(colors, key, at - 1);
        assert(colors.skip(at - 1).drop_first() =~= colors.skip(at));
        assert(colors.skip(at - 1)[0] == colors[at - 1]);
    }
}

fn color_under<'a>(
    colors: &'a Vec<(String, Option<String>)>,
    key: &str,
) -> (color: Option<&'a String>)
    ensures
        match (color, set_color(colors@, key@)) {
            (Some(got), Some(want)) => got@ == want,
            (None, None) => true,
            _ => false,
        },
{
    let mut i: usize = 0;
    while i < colors.len()
        invariant
            i <= colors@.len(),
            forall|j: int| 0 <= j < i ==> (#[trigger] colors@[j]).0@ != key@,
        decreases colors@.len() - i,
    {
        if *colors[i].0.as_str() == *key {
            proof {
                lemma_set_color_skips(colors@, key@, i as int);
                assert(colors@.skip(i as int)[0] == colors@[i as int]);
            }
            return match &colors[i].1 {
                Some(color) => Some(color),
                None => None,
            };
        }
        i += 1;
    }
    proof {
        lemma_set_color_skips(colors@, key@, colors@.len() as int);
    }
    None
}

/// How many colours are taken over.
pub const UI_COLORS: usize = 41;

/// The key of each colour that is taken over, and the key that it gets: those of
/// the controls that are rendered, then those of terminals.
pub open spec fn ui_color(i: int) -> (Seq<char>, Seq<char>) {
    if i == 0 {
        ("editor.background"@, "background"@)
    } else if i == 1 {
        ("editor.background"@, "editor.background"@)
    } else if i == 2 {
        ("editor.foreground"@, "text"@)
    } else if i == 3 {
        ("foreground"@, "text"@)
    } else if i == 4 {
        ("editor.foreground"@, "editor.foreground"@)
    } else if i == 5 {
        ("descriptionForeground"@, "text.muted"@)
    } else if i == 6 {
        ("focusBorder"@, "border.focused"@)
    } else if i == 7 {
        ("button.background"@, "text.accent"@)
    } else if i == 8 {
        ("textLink.foreground"@, "text.accent"@)
    } else if i == 9 {
        ("panel.border"@, "border"@)
    } else if i == 10 {
        ("input.border"@, "border.variant"@)
    } else if i == 11 {
        ("input.background"@, "element.background"@)
    } else if i == 12 {
        ("dropdown.background"@, "elevated_surface.background"@)
    } else if i == 13 {
        ("sideBar.background"@, "panel.background"@)
    } else if i == 14 {
        ("sideBar.foreground"@, "icon"@)
    } else if i == 15 {
        ("list.hoverBackground"@, "ghost_element.hover"@)
    } else if i == 16 {
        ("list.activeSelectionBackground"@, "ghost_element.selected"@)
    } else if i == 17 {
        ("scrollbarSlider.background"@, "scrollbar.thumb.background"@)
    } else if i == 18 {
        ("scrollbarSlider.hoverBackground"@, "scrollbar.thumb.hover_background"@)
    } else if i == 19 {
        ("terminal.background"@, "terminal.background"@)
    } else if i == 20 {
        ("terminal.foreground"@, "terminal.foreground"@)
    } else if i == 21 {
        ("editorError.foreground"@, "error"@)
    } else if i == 22 {
        ("editorWarning.foreground"@, "warning"@)
    } else if i == 23 {
        ("editorInfo.foreground"@, "info"@)
    } else if i == 24 {
        ("gitDecoration.addedResourceForeground"@, "success"@)
    } else if i == 25 {
        ("terminal.ansiBlack"@, "terminal.ansi.black"@)
    } else if i == 26 {
        ("terminal.ansiBrightBlack"@, "terminal.ansi.bright_black"@)
    } else if i == 27 {
        ("terminal.ansiRed"@, "terminal.ansi.red"@)
    } else if i == 28 {
        ("terminal.ansiBrightRed"@, "terminal.ansi.bright_red"@)
    } else if i == 29 {
        ("terminal.ansiGreen"@, "terminal.ansi.green"@)
    } else if i == 30 {
        ("terminal.ansiBrightGreen"@, "terminal.ansi.bright_green"@)
    } else if i == 31 {
        ("terminal.ansiYellow"@, "terminal.ansi.yellow"@)
    } else if i == 32 {
        ("terminal.ansiBrightYellow"@, "terminal.ansi.bright_yellow"@)
    } else if i == 33 {
        ("terminal.ansiBlue"@, "terminal.ansi.blue"@)
    } else if i == 34 {
        ("terminal.ansiBrightBlue"@, "terminal.ansi.bright_blue"@)
    } else if i == 35 {
        ("terminal.ansiMagenta"@, "terminal.ansi.magenta"@)
    } else if i == 36 {
        ("terminal.ansiBrightMagenta"@, "terminal.ansi.bright_magenta"@)
    } else if i == 37 {
        ("terminal.ansiCyan"@, "terminal.ansi.cyan"@)
    } else if i == 38 {
        ("terminal.ansiBrightCyan"@, "terminal.ansi.bright_cyan"@)
    } else if i == 39 {
        ("terminal.ansiWhite"@, "terminal.ansi.white"@)
    } else {
        ("terminal.ansiBrightWhite"@, "terminal.ansi.bright_white"@)
    }
}

fn ui_color_keys(i: usize) -> (keys: (&'static str, &'static str))
    ensures
        (keys.0@, keys.1@) == ui_color(i as int),
{
    if i == 0 {
        ("editor.background", "background")
    } else if i == 1 {
        ("editor.background", "editor.background")
    } else if i == 2 {
        ("editor.foreground", "text")
    } else if i == 3 {
        ("foreground", "text")
    } else if i == 4 {
        ("editor.foreground", "editor.foreground")
    } else if i == 5 {
        ("descriptionForeground", "text.muted")
    } else if i == 6 {
        ("focusBorder", "border.focused")
    } else if i == 7 {
        ("button.background", "text.accent")
    } else if i == 8 {
        ("textLink.foreground", "text.accent")
    } else if i == 9 {
        ("panel.border", "border")
    } else if i == 10 {
        ("input.border", "border.variant")
    } else if i == 11 {
        ("input.background", "element.background")
    } else if i == 12 {
        ("dropdown.background", "elevated_surface.background")
    } else if i == 13 {
        ("sideBar.background", "panel.background")
    } else if i == 14 {
        ("sideBar.foreground", "icon")
    } else if i == 15 {
        ("list.hoverBackground", "ghost_element.hover")
    } else if i == 16 {
        ("list.activeSelectionBackground", "ghost_element.selected")
    } else if i == 17 {
        ("scrollbarSlider.background", "scrollbar.thumb.background")
    } else if i == 18 {
        ("scrollbarSlider.hoverBackground", "scrollbar.thumb.hover_background")
    } else if i == 19 {
        ("terminal.background", "terminal.background")
    } else if i == 20 {
        ("terminal.foreground", "terminal.foreground")
    } else if i == 21 {
        ("editorError.foreground", "error")
    } else if i == 22 {
        ("editorWarning.foreground", "warning")
    } else if i == 23 {
        ("editorInfo.foreground", "info")
    } else if i == 24 {
        ("gitDecoration.addedResourceForeground", "success")
    } else if i == 25 {
        ("terminal.ansiBlack", "terminal.ansi.black")
    } else if i == 26 {
        ("terminal.ansiBrightBlack", "terminal.ansi.bright_black")
    } else if i == 27 {
        ("terminal.ansiRed", "terminal.ansi.red")
    } else if i == 28 {
        ("terminal.ansiBrightRed", "terminal.ansi.bright_red")
    } else if i == 29 {
        ("terminal.ansiGreen", "terminal.ansi.green")
    } else if i == 30 {
        ("terminal.ansiBrightGreen", "terminal.ansi.bright_green")
    } else if i == 31 {
        ("terminal.ansiYellow", "terminal.ansi.yellow")
    } else if i == 32 {
        ("terminal.ansiBrightYellow", "terminal.ansi.bright_yellow")
    } else if i == 33 {
        ("terminal.ansiBlue", "terminal.ansi.blue")
    } else if i == 34 {
        ("terminal.ansiBrightBlue", "terminal.ansi.bright_blue")
    } else if i == 35 {
        ("terminal.ansiMagenta", "terminal.ansi.magenta")
    } else if i == 36 {
        ("terminal.ansiBrightMagenta", "terminal.ansi.bright_magenta")
    } else if i == 37 {
        ("terminal.ansiCyan", "terminal.ansi.cyan")
    } else if i == 38 {
        ("terminal.ansiBrightCyan", "terminal.ansi.bright_cyan")
    } else if i == 39 {
        ("terminal.ansiWhite", "terminal.ansi.white")
    } else {
        ("terminal.ansiBrightWhite", "terminal.ansi.bright_white")
    }
}

/// The first `n` colours taken over, or the refusal of the first that is none.
pub open spec fn ui_style(colors: Seq<(String, Option<String>)>, n: int) -> Result<
    Map<Seq<char>, Seq<char>>,
    ThemeErrorModel,
>
    decreases n,
{
    if n <= 0 {
        Ok(Map::empty())
    } else {
        match ui_style(colors, n - 1) {
            Ok(style) => match set_color(colors, ui_color(n - 1).0) {
                Some(color) => if written_color(color) is Some {
                    Ok(style.insert(ui_color(n - 1).1, color))
                } else {
                    Err(Refusal::InvalidColor { value: named_color(color) })
                },
                None => Ok(style),
            },
            Err(refusal) => Err(refusal),
        }
    }
}

/// Why a colour is refused, if it is set and none.
pub open spec fn color_refusal(color: Option<Seq<char>>) -> Option<ThemeErrorModel> {
    match color {
        Some(text) => if written_color(text) is Some {
            None
        } else {
            Some(Refusal::InvalidColor { value: named_color(text) })
        },
        None => None,
    }
}

fn check_color(color: Option<&String>) -> (refused: Option<ThemeError>)
    ensures
        match (
            refused,
            color_refusal(
                match color {
                    Some(text) => Some(text@),
                    None => None,
                },
            ),
        ) {
            (Some(got), Some(want)) => got@ == want,
            (None, None) => true,
            _ => false,
        },
{
    match color {
        Some(text) => if parse_color(text.as_str()).is_some() {
            None
        } else {
            Some(Refusal::InvalidColor { value: color_name(text.as_str()) })
        },
        None => None,
    }
}

/// Whether a theme is light or dark: as its type says, else as its editor is.
pub open spec fn appearance_of(theme: VsCodeTheme) -> Result<ThemeMode, ThemeErrorModel> {
    match theme.appearance {
        Some(kind) => if kind@ == "light"@ || kind@ == "hcLight"@ {
            Ok(ThemeMode::Light)
        } else if kind@ == "dark"@ || kind@ == "hcDark"@ {
            Ok(ThemeMode::Dark)
        } else {
            Err(Refusal::UnsupportedType { appearance: kind@ })
        },
        None => match set_color(theme.colors@, "editor.background"@) {
            Some(background) => match written_color(background) {
                Some(color) => if light(color) {
                    Ok(ThemeMode::Light)
                } else {
                    Ok(ThemeMode::Dark)
                },
                None => Err(Refusal::InvalidColor { value: named_color(background) }),
            },
            None => Err(Refusal::UnknownAppearance),
        },
    }
}

fn appearance(theme: &VsCodeTheme) -> (mode: Result<ThemeMode, ThemeError>)
    ensures
        match (mode, appearance_of(*theme)) {
            (Ok(got), Ok(want)) => got == want,
            (Err(got), Err(want)) => got@ == want,
            _ => false,
        },
{
    match &theme.appearance {
        Some(kind) => if *kind.as_str() == *"light" || *kind.as_str() == *"hcLight" {
            Ok(ThemeMode::Light)
        } else if *kind.as_str() == *"dark" || *kind.as_str() == *"hcDark" {
            Ok(ThemeMode::Dark)
        } else {
            Err(Refusal::UnsupportedType { appearance: kind.clone() })
        },
        None => match color_under(&theme.colors, "editor.background") {
            Some(background) => match parse_color(background.as_str()) {
                Some(color) => if is_light(color) {
                    Ok(ThemeMode::Light)
                } else {
                    Ok(ThemeMode::Dark)
                },
                None => Err(Refusal::InvalidColor { value: color_name(background.as_str()) }),
            },
            None => Err(Refusal::UnknownAppearance),
        },
    }
}

/// Whether text has a word among those that white space separates.
pub open spec fn has_word(text: Seq<char>, word: Seq<char>) -> bool {
    exists|at: int| #[trigger] word_at(text, word, at)
}

pub open spec fn word_at(text: Seq<char>, word: Seq<char>, at: int) -> bool {
    &&& 0 <= at
    &&& at + word.len() <= text.len()
    &&& text.subrange(at, at + word.len()) == word
    &&& at == 0 || white_space(text[at - 1])
    &&& at + word.len() == text.len() || white_space(text[at + word.len()])
}

fn starts_word(chars: &Vec<char>, word: &Vec<char>, at: usize) -> (found: bool)
    requires
        at <= chars@.len(),
    ensures
        found == word_at(chars@, word@, at as int),
{
    let len: usize = word.len();
    if len > chars.len() - at {
        return false;
    }
    if at > 0 && !is_white_space(chars[at - 1]) {
        return false;
    }
    if at + len < chars.len() && !is_white_space(chars[at + len]) {
        return false;
    }
    let ghost piece = chars@.subrange(at as int, at + len);
    let mut i: usize = 0;
    while i < len
        invariant
            i <= len,
            len == word@.len(),
            at + len <= chars@.len() <= usize::MAX,
            piece == chars@.subrange(at as int, at + len),
            forall|j: int| 0 <= j < i ==> piece[j] == word@[j],
        decreases len - i,
    {
        if chars[at + i] != word[i] {
            assert(piece[i as int] != word@[i as int]);
            return false;
        }
        i += 1;
    }
    assert(piece =~= word@);
    true
}

fn contains_word(content: &str, word: &str) -> (found: bool)
    ensures
        found == has_word(content@, word@),
{
    let chars = characters(content);
    let letters = characters(word);
    let mut at: usize = 0;
    loop
        invariant
            at <= chars@.len(),
            chars@ == content@,
            letters@ == word@,
            forall|j: int| 0 <= j < at ==> !word_at(content@, word@, j),
        ensures
            forall|j: int| 0 <= j <= chars@.len() ==> !word_at(content@, word@, j),
        decreases chars@.len() - at,
    {
        if starts_word(&chars, &letters, at) {
            return true;
        }
        if at == chars.len() {
            break;
        }
        at += 1;
    }
    false
}

/// How a category of tokens is written.
#[derive(Debug, Clone, Copy, PartialEq, Eq, Structural)]
pub struct FontFace {
    pub italic: bool,
    pub bold: bool,
}

pub open spec fn face_of(font_style: Seq<char>) -> FontFace {
    FontFace { italic: has_word(font_style, "italic"@), bold: has_word(font_style, "bold"@) }
}

/// What the rules say of a category, and which of them said it last: the length
/// of its scope and its place.
pub struct SyntaxEntry {
    pub category: String,
    pub rank: (usize, usize),
    pub color: Option<String>,
    pub face: Option<FontFace>,
}

#[verifier::ext_equal]
pub struct EntryModel {
    pub category: Seq<char>,
    pub rank: (int, int),
    pub color: Option<Seq<char>>,
    pub face: Option<FontFace>,
}

impl View for SyntaxEntry {
    type V = EntryModel;

    open spec fn view(&self) -> EntryModel {
        EntryModel {
            category: self.category@,
            rank: (self.rank.0 as int, self.rank.1 as int),
            color: name_model(self.color),
            face: self.face,
        }
    }
}

pub open spec fn entries_model(entries: Seq<SyntaxEntry>) -> Seq<EntryModel> {
    Seq::new(entries.len(), |i: int| entries[i]@)
}

/// Whether a rank is over another: by length, then by place.
pub open spec fn outranks(a: (int, int), b: (int, int)) -> bool {
    a.0 > b.0 || (a.0 == b.0 && a.1 > b.1)
}

/// What a rule that applies to a category makes of its entry.
pub open spec fn ruled(
    entry: EntryModel,
    rank: (int, int),
    foreground: Option<Seq<char>>,
    font_style: Option<Seq<char>>,
) -> EntryModel {
    if outranks(entry.rank, rank) {
        entry
    } else {
        EntryModel {
            rank,
            color: if foreground is Some {
                foreground
            } else {
                entry.color
            },
            face: match font_style {
                Some(font) => Some(face_of(font)),
                None => entry.face,
            },
            ..entry
        }
    }
}

/// The entries after a rule for one category.
pub open spec fn with_rule(
    entries: Seq<EntryModel>,
    category: Seq<char>,
    rank: (int, int),
    foreground: Option<Seq<char>>,
    font_style: Option<Seq<char>>,
) -> Seq<EntryModel>
    decreases entries.len(),
{
    if entries.len() == 0 {
        seq![
            ruled(
                EntryModel { category, rank, color: None, face: None },
                rank,
                foreground,
                font_style,
            ),
        ]
    } else if entries[0].category == category {
        seq![ruled(entries[0], rank, foreground, font_style)] + entries.drop_first()
    } else {
        seq![entries[0]] + with_rule(
            entries.drop_first(),
            category,
            rank,
            foreground,
            font_style,
        )
    }
}

proof fn lemma_with_rule_skips(
    entries: Seq<EntryModel>,
    at: int,
    category: Seq<char>,
    rank: (int, int),
    foreground: Option<Seq<char>>,
    font_style: Option<Seq<char>>,
)
    requires
        0 <= at <= entries.len(),
        forall|j: int| 0 <= j < at ==> (#[trigger] entries[j]).category != category,
    ensures
        with_rule(entries, category, rank, foreground, font_style) == entries.take(at) + with_rule(
            entries.skip(at),
            category,
            rank,
            foreground,
            font_style,
        ),
    decreases at,
{
    if at == 0 {
        assert(entries.skip(0) =~= entries);
        assert(entries.take(0) + with_rule(entries, category, rank, foreground, font_style)
            =~= with_rule(entries, category, rank, foreground, font_style));
    } else {
        let rest = entries.drop_first();
        assert(entries[0].category != category);
        assert forall|j: int| 0 <= j < at - 1 implies (#[trigger] rest[j]).category
            != category by {
            assert(rest[j] == entries[j + 1]);
        }
        lemma_with_rule_skips(rest, at - 1, category, rank, foreground, font_style);
        assert(rest.skip(at - 1) =~= entries.skip(at));
        let end = with_rule(entries.skip(at), category, rank, foreground, font_style);
        assert(seq![entries[0]] + (rest.take(at - 1) + end) =~= entries.take(at) + end);
    }
}

fn apply_rule(
    entries: &mut Vec<SyntaxEntry>,
    category: &String,
    rank: (usize, usize),
    rule: &TokenRule,
)
    ensures
        entries_model(final(entries)@) == with_rule(
            entries_model(old(entries)@),
            category@,
            (rank.0 as int, rank.1 as int),
            name_model(rule.foreground),
            name_model(rule.font_style),
        ),
{
    let ghost all = entries_model(entries@);
    let ghost before = entries@;
    let ghost place = (rank.0 as int, rank.1 as int);
    let ghost foreground = name_model(rule.foreground);
    let ghost font_style = name_model(rule.font_style);
    let mut i: usize = 0;
    while i < entries.len() && entries[i].category != *category
        invariant
            i <= entries@.len(),
            entries@ == before,
            all == entries_model(before),
            forall|j: int| 0 <= j < i ==> (#[trigger] all[j]).category != category@,
        decreases entries@.len() - i,
    {
        assert(all[i as int] == entries@[i as int]@);
        i += 1;
    }
    proof {
        lemma_with_rule_skips(all, i as int, category@, place, foreground, font_style);
    }
    let face = match &rule.font_style {
        Some(font) => Some(
            FontFace {
                italic: contains_word(font.as_str(), "italic"),
                bold: contains_word(font.as_str(), "bold"),
            },
        ),
        None => None,
    };
    if i == entries.len() {
        assert(all.skip(i as int) =~= Seq::<EntryModel>::empty());
        let entry = SyntaxEntry {
            category: category.clone(),
            rank,
            color: copy_text(&rule.foreground),
            face,
        };
        let ghost added = entry@;
        entries.push(entry);
        assert(added =~= ruled(
            EntryModel { category: category@, rank: place, color: None, face: None },
            place,
            foreground,
            font_style,
        ));
        assert(entries_model(entries@) =~= all.take(i as int) + seq![added]);
    } else {
        assert(all[i as int] == entries@[i as int]@);
        assert(all.skip(i as int)[0] == all[i as int]);
        let held = entries[i].rank;
        let outranked = held.0 > rank.0 || (held.0 == rank.0 && held.1 > rank.1);
        if !outranked {
            let color = match &rule.foreground {
                Some(color) => Some(color.clone()),
                None => copy_text(&entries[i].color),
            };
            let kept = entries[i].face;
            let entry = SyntaxEntry {
                category: entries[i].category.clone(),
                rank,
                color,
                face: match face {
                    Some(f) => Some(f),
                    None => kept,
                },
            };
            assert(entry@ =~= ruled(all[i as int], place, foreground, font_style));
            entries.set(i, entry);
        }
        assert(entries_model(entries@) =~= all.take(i as int) + (seq![
            ruled(all[i as int], place, foreground, font_style),
        ] + all.skip(i as int).drop_first()));
    }
}

/// The pieces of text between commas.
pub open spec fn pieces(text: Seq<char>) -> Seq<Seq<char>>
    decreases text.len(),
{
    if text.len() == 0 {
        seq![Seq::empty()]
    } else {
        let before = pieces(text.drop_last());
        if text.last() == ',' {
            before.push(Seq::empty())
        } else {
            before.drop_last().push(before.last().push(text.last()))
        }
    }
}

/// Whether a scope names one thing: no white space is left inside it.
pub open spec fn simple(scope: Seq<char>) -> bool {
    forall|i: int| 0 <= i < scope.len() ==> !white_space(#[trigger] scope[i])
}

/// The simple scopes among the first `n` pieces.
pub open spec fn simple_pieces(all: Seq<Seq<char>>, n: int) -> Seq<Seq<char>>
    decreases n,
{
    if n <= 0 {
        Seq::empty()
    } else {
        let before = simple_pieces(all, n - 1);
        if simple(trim(all[n - 1])) {
            before.push(trim(all[n - 1]))
        } else {
            before
        }
    }
}

/// The simple scopes of lists of scopes.
pub open spec fn scopes_in(lists: Seq<String>) -> Seq<Seq<char>>
    decreases lists.len(),
{
    if lists.len() == 0 {
        Seq::empty()
    } else {
        let all = pieces(lists.last()@);
        scopes_in(lists.drop_last()) + simple_pieces(all, all.len() as int)
    }
}

pub open spec fn scopes_of(scope: TokenScope) -> Seq<Seq<char>> {
    match scope {
        TokenScope::Scopes(lists) => scopes_in(lists@),
        _ => Seq::empty(),
    }
}

pub open spec fn texts(list: Seq<String>) -> Seq<Seq<char>> {
    Seq::new(list.len(), |i: int| list[i]@)
}

fn push_piece(found: &mut Vec<String>, chars: &Vec<char>)
    ensures
        texts(final(found)@) == if simple(trim(chars@)) {
            texts(old(found)@).push(trim(chars@))
        } else {
            texts(old(found)@)
        },
{
    let ghost before = texts(found@);
    let (start, end) = trimmed(chars);
    let mut piece = String::new();
    let ghost kept = trim(chars@);
    let mut i: usize = start;
    assert(piece@ =~= chars@.subrange(start as int, i as int));
    while i < end
        invariant
            start <= i <= end <= chars@.len(),
            kept == chars@.subrange(start as int, end as int),
            kept == trim(chars@),
            before == texts(old(found)@),
            piece@ == chars@.subrange(start as int, i as int),
            forall|j: int| 0 <= j < i - start ==> !white_space(#[trigger] kept[j]),
            texts(found@) == before,
        decreases end - i,
    {
        if is_white_space(chars[i]) {
            assert(white_space(kept[i - start]));
            assert(!simple(kept));
            return;
        }
        piece.push(chars[i]);
        i += 1;
        assert(piece@ =~= chars@.subrange(start as int, i as int));
    }
    let ghost held = found@;
    let ghost added = piece@;
    found.push(piece);
    assert(texts(found@) =~= texts(held).push(added));
}

fn push_pieces(found: &mut Vec<String>, list: &str)
    ensures
        texts(final(found)@) == texts(old(found)@) + simple_pieces(
            pieces(list@),
            pieces(list@).len() as int,
        ),
{
    let ghost before = texts(found@);
    let chars = characters(list);
    let mut current: Vec<char> = Vec::new();
    let mut i: usize = 0;
    assert(chars@.take(0) =~= Seq::<char>::empty());
    assert(current@ =~= pieces(chars@.take(0)).last());
    assert(texts(found@) =~= before + simple_pieces(pieces(chars@.take(0)), 0));
    while i < chars.len()
        invariant
            i <= chars@.len(),
            pieces(chars@.take(i as int)).len() > 0,
            current@ == pieces(chars@.take(i as int)).last(),
            texts(found@) == before + simple_pieces(
                pieces(chars@.take(i as int)),
                pieces(chars@.take(i as int)).len() - 1,
            ),
        decreases chars@.len() - i,
    {
        let ghost old_pieces = pieces(chars@.take(i as int));
        let ghost new_pieces = pieces(chars@.take(i + 1));
        proof {
            assert(chars@.take(i + 1).drop_last() =~= chars@.take(i as int));
            assert(chars@.take(i + 1).last() == chars@[i as int]);
            lemma_simple_pieces(old_pieces, new_pieces, old_pieces.len() - 1);
        }
        if chars[i] == ',' {
            proof {
                lemma_simple_pieces(old_pieces, new_pieces, old_pieces.len() as int);
            }
            push_piece(found, &current);
            current = Vec::new();
            assert(current@ =~= new_pieces.last());
            assert(texts(found@) =~= before + simple_pieces(new_pieces, new_pieces.len() - 1));
        } else {
            current.push(chars[i]);
            assert(current@ =~= new_pieces.last());
        }
        i += 1;
    }
    assert(chars@.take(chars@.len() as int) =~= chars@);
    push_piece(found, &current);
    assert(texts(found@) =~= before + simple_pieces(pieces(list@), pieces(list@).len() as int));
}

proof fn lemma_simple_pieces(a: Seq<Seq<char>>, b: Seq<Seq<char>>, n: int)
    requires
        n <= a.len(),
        n <= b.len(),
        forall|i: int| 0 <= i < n ==> a[i] == b[i],
    ensures
        simple_pieces(a, n) == simple_pieces(b, n),
    decreases n,
{
    if n > 0 {
        lemma_simple_pieces(a, b, n - 1);
        assert(a[n - 1] == b[n - 1]);
    }
}

/// The simple scopes that a rule is for, whose categories the highlighter knows.
pub fn rule_scopes(scope: &TokenScope) -> (scopes: Vec<String>)
    ensures
        texts(scopes@) == scopes_of(*scope),
{
    let mut scopes: Vec<String> = Vec::new();
    assert(texts(scopes@) =~= Seq::<Seq<char>>::empty());
    if let TokenScope::Scopes(lists) = scope {
        let mut i: usize = 0;
        assert(lists@.take(0) =~= Seq::<String>::empty());
        while i < lists.len()
            invariant
                i <= lists@.len(),
                texts(scopes@) == scopes_in(lists@.take(i as int)),
            decreases lists@.len() - i,
        {
            proof {
                assert(lists@.take(i + 1).drop_last() =~= lists@.take(i as int));
                assert(lists@.take(i + 1).last() == lists@[i as int]);
            }
            push_pieces(&mut scopes, lists[i].as_str());
            i += 1;
        }
        assert(lists@.take(lists@.len() as int) =~= lists@);
    }
    scopes
}

/// The categories of scopes: those of each rule's simple scopes, in their order.
pub type Categories = Vec<Vec<Option<String>>>;

/// The category of a scope of a rule, where the highlighter has one for it.
pub open spec fn category_at(categories: Seq<Vec<Option<String>>>, rule: int, scope: int) -> Option<
    Seq<char>,
> {
    if 0 <= rule < categories.len() && 0 <= scope < categories[rule]@.len() {
        name_model(categories[rule]@[scope])
    } else {
        None
    }
}

/// The entries after a rule's first `n` scopes.
pub open spec fn scoped(
    entries: Seq<EntryModel>,
    rule: TokenRule,
    index: int,
    categories: Seq<Vec<Option<String>>>,
    n: int,
) -> Seq<EntryModel>
    decreases n,
{
    if n <= 0 {
        entries
    } else {
        let before = scoped(entries, rule, index, categories, n - 1);
        match category_at(categories, index, n - 1) {
            Some(category) => with_rule(
                before,
                category,
                (encode_utf8(scopes_of(rule.scope)[n - 1]).len() as int, index),
                name_model(rule.foreground),
                name_model(rule.font_style),
            ),
            None => before,
        }
    }
}

/// What the rules come to.
#[verifier::ext_equal]
pub struct RulesModel {
    /// The first foreground of a rule for everything.
    pub editor_foreground: Option<Seq<char>>,
    pub entries: Seq<EntryModel>,
}

pub open spec fn rule_step(
    state: RulesModel,
    rule: TokenRule,
    index: int,
    categories: Seq<Vec<Option<String>>>,
) -> Result<RulesModel, ThemeErrorModel> {
    match color_refusal(name_model(rule.foreground)) {
        Some(refusal) => Err(refusal),
        None => match rule.scope {
            TokenScope::All => Ok(
                RulesModel {
                    editor_foreground: if state.editor_foreground is Some {
                        state.editor_foreground
                    } else {
                        name_model(rule.foreground)
                    },
                    ..state
                },
            ),
            TokenScope::Scopes(_) => Ok(
                RulesModel {
                    entries: scoped(
                        state.entries,
                        rule,
                        index,
                        categories,
                        scopes_of(rule.scope).len() as int,
                    ),
                    ..state
                },
            ),
            TokenScope::NotAllText => Err(Refusal::ScopeMustBeString),
            TokenScope::Other => Err(Refusal::ScopeMustBeStringOrArray),
        },
    }
}

/// What the first `n` rules come to, or the refusal of the first that is refused.
pub open spec fn rules_upto(
    rules: Seq<TokenRule>,
    categories: Seq<Vec<Option<String>>>,
    n: int,
) -> Result<RulesModel, ThemeErrorModel>
    decreases n,
{
    if n <= 0 {
        Ok(RulesModel { editor_foreground: None, entries: Seq::empty() })
    } else {
        match rules_upto(rules, categories, n - 1) {
            Ok(state) => rule_step(state, rules[n - 1], n - 1, categories),
            Err(refusal) => Err(refusal),
        }
    }
}

pub open spec fn rules_of(theme: VsCodeTheme, categories: Seq<Vec<Option<String>>>) -> Result<
    RulesModel,
    ThemeErrorModel,
> {
    match theme.token_colors {
        TokenColors::Rules(rules) => rules_upto(rules@, categories, rules@.len() as int),
        TokenColors::Misshapen => Err(Refusal::Misshapen),
        TokenColors::External => Err(Refusal::ExternalReference),
        TokenColors::Absent => Ok(
            RulesModel { editor_foreground: None, entries: Seq::empty() },
        ),
    }
}

/// A converted theme.
#[verifier::ext_equal]
pub struct ConvertedModel {
    pub name: Seq<char>,
    pub appearance: ThemeMode,
    pub colors: Map<Seq<char>, Seq<char>>,
    pub selection: Option<Seq<char>>,
    pub cursor: Option<Seq<char>>,
    pub entries: Seq<EntryModel>,
}

/// A style with the editor's foreground, where the style had none and the rules
/// have one.
pub open spec fn with_editor_foreground(
    colors: Map<Seq<char>, Seq<char>>,
    foreground: Option<Seq<char>>,
) -> Map<Seq<char>, Seq<char>> {
    match foreground {
        Some(color) => if colors.contains_key("editor.foreground"@) {
            colors
        } else {
            colors.insert("editor.foreground"@, color)
        },
        None => colors,
    }
}

pub open spec fn converted_name(name: Option<String>) -> Seq<char> {
    match name {
        Some(text) => if blank(text@) {
            "Imported VS Code Theme"@
        } else {
            text@
        },
        None => "Imported VS Code Theme"@,
    }
}

/// What a theme converts to, or why it is refused.
pub open spec fn converted(theme: VsCodeTheme, categories: Seq<Vec<Option<String>>>) -> Result<
    ConvertedModel,
    ThemeErrorModel,
> {
    let selection = set_color(theme.colors@, "editor.selectionBackground"@);
    let cursor = set_color(theme.colors@, "editorCursor.foreground"@);
    if theme.base is Some || theme.token_colors is External {
        Err(Refusal::ExternalReference)
    } else {
        match appearance_of(theme) {
            Err(refusal) => Err(refusal),
            Ok(appearance) => match ui_style(theme.colors@, UI_COLORS as int) {
                Err(refusal) => Err(refusal),
                Ok(colors) => if color_refusal(selection) is Some {
                    Err(color_refusal(selection)->0)
                } else if color_refusal(cursor) is Some {
                    Err(color_refusal(cursor)->0)
                } else {
                    match rules_of(theme, categories) {
                        Err(refusal) => Err(refusal),
                        Ok(rules) => Ok(
                            ConvertedModel {
                                name: converted_name(theme.name),
                                appearance,
                                colors: with_editor_foreground(colors, rules.editor_foreground),
                                selection,
                                cursor,
                                entries: rules.entries,
                            },
                        ),
                    }
                },
            },
        }
    }
}

/// Whether a value is a text, or nothing where there is none.
pub open spec fn holds_text(value: Option<Json>, text: Option<Seq<char>>) -> bool {
    match (value, text) {
        (Some(Json::Text(got)), Some(want)) => got@ == want,
        (None, None) => true,
        _ => false,
    }
}

/// Whether a value is a number, or nothing where there is none.
pub open spec fn holds_number(value: Option<Json>, digits: Option<Seq<char>>) -> bool {
    match (value, digits) {
        (Some(Json::Number(got)), Some(want)) => got@ == want,
        (None, None) => true,
        _ => false,
    }
}

/// Whether a JSON object says of a category what the rules do.
pub open spec fn holds_entry(value: Json, entry: EntryModel) -> bool {
    match value {
        Json::Object(fields) => {
            &&& holds_text(styled(fields@, "color"@), entry.color)
            &&& holds_text(
                styled(fields@, "font_style"@),
                match entry.face {
                    Some(face) => Some(
                        if face.italic {
                            "italic"@
                        } else {
                            "normal"@
                        },
                    ),
                    None => None,
                },
            )
            &&& holds_number(
                styled(fields@, "font_weight"@),
                match entry.face {
                    Some(face) => Some(
                        if face.bold {
                            "700"@
                        } else {
                            "400"@
                        },
                    ),
                    None => None,
                },
            )
        },
        _ => false,
    }
}

pub open spec fn holds_entries(value: Option<Json>, entries: Seq<EntryModel>) -> bool {
    match value {
        Some(Json::Object(fields)) => {
            &&& fields@.len() == entries.len()
            &&& forall|i: int|
                0 <= i < entries.len() ==> (#[trigger] fields@[i]).0@ == entries[i].category
                    && holds_entry(fields@[i].1, entries[i])
        },
        _ => false,
    }
}

/// Whether a value is the one player of a theme.
pub open spec fn holds_player(value: Option<Json>, selection: Option<Seq<char>>, cursor: Option<
    Seq<char>,
>) -> bool {
    match value {
        Some(Json::Array(players)) => players@.len() == 1 && (match players@[0] {
            Json::Object(fields) => holds_text(styled(fields@, "selection"@), selection)
                && holds_text(styled(fields@, "cursor"@), cursor),
            _ => false,
        }),
        _ => false,
    }
}

pub open spec fn map_get(map: Map<Seq<char>, Seq<char>>, key: Seq<char>) -> Option<Seq<char>> {
    if map.contains_key(key) {
        Some(map[key])
    } else {
        None
    }
}

/// Whether a style is that of a converted theme.
pub open spec fn holds_style(style: Seq<(String, Json)>, theme: ConvertedModel) -> bool {
    forall|key: Seq<char>| #[trigger]
        holds_key(style, theme, key)
}

pub open spec fn holds_key(
    style: Seq<(String, Json)>,
    theme: ConvertedModel,
    key: Seq<char>,
) -> bool {
    if key == "syntax"@ {
        holds_entries(styled(style, key), theme.entries)
    } else if key == "players"@ && (theme.selection is Some || theme.cursor is Some) {
        holds_player(styled(style, key), theme.selection, theme.cursor)
    } else {
        holds_text(styled(style, key), map_get(theme.colors, key))
    }
}

pub open spec fn holds_colors(
    style: Seq<(String, Json)>,
    colors: Map<Seq<char>, Seq<char>>,
) -> bool {
    forall|key: Seq<char>| #[trigger] holds_text(styled(style, key), map_get(colors, key))
}

fn put_color(style: &mut Style, key: &str, color: &String, colors: Ghost<Map<Seq<char>, Seq<char>>>)
    requires
        holds_colors(old(style)@, colors@),
    ensures
        holds_colors(final(style)@, colors@.insert(key@, color@)),
{
    let ghost before = style@;
    put(style, key.to_string(), Json::Text(color.clone()));
    proof {
        let after = colors@.insert(key@, color@);
        assert forall|k: Seq<char>| #[trigger]
            holds_text(styled(style@, k), map_get(after, k)) by {
            assert(holds_text(styled(before, k), map_get(colors@, k)));
        }
    }
}

fn ui_colors(theme: &VsCodeTheme) -> (style: Result<Style, ThemeError>)
    ensures
        match (style, ui_style(theme.colors@, UI_COLORS as int)) {
            (Ok(got), Ok(want)) => holds_colors(got@, want),
            (Err(got), Err(want)) => got@ == want,
            _ => false,
        },
{
    let mut style: Style = Vec::new();
    let ghost mut colors: Map<Seq<char>, Seq<char>> = Map::empty();
    let mut i: usize = 0;
    while i < UI_COLORS
        invariant
            i <= UI_COLORS,
            ui_style(theme.colors@, i as int) == Ok::<_, ThemeErrorModel>(colors),
            holds_colors(style@, colors),
        decreases UI_COLORS - i,
    {
        let keys = ui_color_keys(i);
        match color_under(&theme.colors, keys.0) {
            Some(color) => {
                if parse_color(color.as_str()).is_none() {
                    proof {
                        lemma_ui_refused(theme.colors@, i + 1, UI_COLORS as int);
                    }
                    return Err(Refusal::InvalidColor { value: color_name(color.as_str()) });
                }
                put_color(&mut style, keys.1, color, Ghost(colors));
                proof {
                    colors = colors.insert(keys.1@, color@);
                }
            },
            None => {},
        }
        i += 1;
    }
    Ok(style)
}

proof fn lemma_ui_refused(colors: Seq<(String, Option<String>)>, at: int, n: int)
    requires
        0 < at <= n,
        ui_style(colors, at) is Err,
    ensures
        ui_style(colors, n) == ui_style(colors, at),
    decreases n,
{
    if at < n {
        lemma_ui_refused(colors, at, n - 1);
    }
}

/// What the rules come to.
struct RulesState {
    editor_foreground: Option<String>,
    entries: Vec<SyntaxEntry>,
}

impl View for RulesState {
    type V = RulesModel;

    closed spec fn view(&self) -> RulesModel {
        RulesModel {
            editor_foreground: name_model(self.editor_foreground),
            entries: entries_model(self.entries@),
        }
    }
}

fn category<'a>(categories: &'a Categories, rule: usize, scope: usize) -> (category: Option<
    &'a String,
>)
    ensures
        match (category, category_at(categories@, rule as int, scope as int)) {
            (Some(got), Some(want)) => got@ == want,
            (None, None) => true,
            _ => false,
        },
{
    if rule < categories.len() && scope < categories[rule].len() {
        match &categories[rule][scope] {
            Some(name) => Some(name),
            None => None,
        }
    } else {
        None
    }
}

fn apply_scopes(
    entries: &mut Vec<SyntaxEntry>,
    rule: &TokenRule,
    index: usize,
    categories: &Categories,
)
    ensures
        entries_model(final(entries)@) == scoped(
            entries_model(old(entries)@),
            *rule,
            index as int,
            categories@,
            scopes_of(rule.scope).len() as int,
        ),
{
    let ghost before = entries_model(entries@);
    let scopes = rule_scopes(&rule.scope);
    let mut j: usize = 0;
    while j < scopes.len()
        invariant
            j <= scopes@.len(),
            texts(scopes@) == scopes_of(rule.scope),
            entries_model(entries@) == scoped(before, *rule, index as int, categories@, j as int),
        decreases scopes@.len() - j,
    {
        assert(texts(scopes@)[j as int] == scopes@[j as int]@);
        let length: usize = scopes[j].as_str().as_bytes().len();
        match category(categories, index, j) {
            Some(category) => apply_rule(entries, category, (length, index), rule),
            None => {},
        }
        j += 1;
    }
}

proof fn lemma_rules_refused(
    rules: Seq<TokenRule>,
    categories: Seq<Vec<Option<String>>>,
    at: int,
    n: int,
)
    requires
        0 < at <= n,
        rules_upto(rules, categories, at) is Err,
    ensures
        rules_upto(rules, categories, n) == rules_upto(rules, categories, at),
    decreases n,
{
    if at < n {
        lemma_rules_refused(rules, categories, at, n - 1);
    }
}

fn apply_rules(theme: &VsCodeTheme, categories: &Categories) -> (state: Result<
    RulesState,
    ThemeError,
>)
    ensures
        match (state, rules_of(*theme, categories@)) {
            (Ok(got), Ok(want)) => got@ == want,
            (Err(got), Err(want)) => got@ == want,
            _ => false,
        },
{
    let mut editor_foreground: Option<String> = None;
    let mut entries: Vec<SyntaxEntry> = Vec::new();
    assert(entries_model(entries@) =~= Seq::<EntryModel>::empty());
    match &theme.token_colors {
        TokenColors::External => Err(Refusal::ExternalReference),
        TokenColors::Misshapen => Err(Refusal::Misshapen),
        TokenColors::Absent => Ok(RulesState { editor_foreground, entries }),
        TokenColors::Rules(rules) => {
            let mut i: usize = 0;
            while i < rules.len()
                invariant
                    i <= rules@.len(),
                    theme.token_colors == TokenColors::Rules(*rules),
                    rules_upto(rules@, categories@, i as int) == Ok::<_, ThemeErrorModel>(
                        RulesModel {
                            editor_foreground: name_model(editor_foreground),
                            entries: entries_model(entries@),
                        },
                    ),
                decreases rules@.len() - i,
            {
                let rule = &rules[i];
                let foreground = match &rule.foreground {
                    Some(color) => Some(color),
                    None => None,
                };
                if let Some(refusal) = check_color(foreground) {
                    proof {
                        lemma_rules_refused(rules@, categories@, i + 1, rules@.len() as int);
                    }
                    return Err(refusal);
                }
                match &rule.scope {
                    TokenScope::All => {
                        if editor_foreground.is_none() {
                            editor_foreground = copy_text(&rule.foreground);
                        }
                    },
                    TokenScope::Scopes(_) => apply_scopes(&mut entries, rule, i, categories),
                    TokenScope::NotAllText => {
                        proof {
                            lemma_rules_refused(rules@, categories@, i + 1, rules@.len() as int);
                        }
                        return Err(Refusal::ScopeMustBeString);
                    },
                    TokenScope::Other => {
                        proof {
                            lemma_rules_refused(rules@, categories@, i + 1, rules@.len() as int);
                        }
                        return Err(Refusal::ScopeMustBeStringOrArray);
                    },
                }
                i += 1;
            }
            Ok(RulesState { editor_foreground, entries })
        },
    }
}

fn text_value(name: &str) -> (value: Json)
    ensures
        value == Json::Text(value->Text_0),
        value->Text_0@ == name@,
{
    Json::Text(name.to_string())
}

fn entry_value(entry: &SyntaxEntry) -> (value: Json)
    ensures
        holds_entry(value, entry@),
{
    let mut fields: Style = Vec::new();
    proof {
        reveal_strlit("color");
        reveal_strlit("font_style");
        reveal_strlit("font_weight");
        assert("color"@.len() == 5 && "font_style"@.len() == 10 && "font_weight"@.len() == 11);
    }
    if let Some(color) = &entry.color {
        put(&mut fields, "color".to_string(), Json::Text(color.clone()));
    }
    if let Some(face) = entry.face {
        put(
            &mut fields,
            "font_style".to_string(),
            text_value(
                if face.italic {
                    "italic"
                } else {
                    "normal"
                },
            ),
        );
        let weight = if face.bold {
            "700".to_string()
        } else {
            "400".to_string()
        };
        put(&mut fields, "font_weight".to_string(), Json::Number(weight));
    }
    Json::Object(fields)
}

fn entries_value(entries: &Vec<SyntaxEntry>) -> (value: Json)
    ensures
        holds_entries(Some(value), entries_model(entries@)),
{
    let mut fields: Style = Vec::new();
    let mut i: usize = 0;
    while i < entries.len()
        invariant
            i <= entries@.len(),
            fields@.len() == i,
            forall|j: int|
                0 <= j < i ==> (#[trigger] fields@[j]).0@ == entries@[j]@.category && holds_entry(
                    fields@[j].1,
                    entries@[j]@,
                ),
        decreases entries@.len() - i,
    {
        fields.push((entries[i].category.clone(), entry_value(&entries[i])));
        i += 1;
    }
    Json::Object(fields)
}

fn player_value(selection: Option<&String>, cursor: Option<&String>) -> (value: Json)
    ensures
        holds_player(
            Some(value),
            match selection {
                Some(color) => Some(color@),
                None => None,
            },
            match cursor {
                Some(color) => Some(color@),
                None => None,
            },
        ),
{
    let mut fields: Style = Vec::new();
    proof {
        reveal_strlit("selection");
        reveal_strlit("cursor");
        assert("selection"@.len() == 9 && "cursor"@.len() == 6);
    }
    if let Some(color) = selection {
        put(&mut fields, "selection".to_string(), Json::Text(color.clone()));
    }
    if let Some(color) = cursor {
        put(&mut fields, "cursor".to_string(), Json::Text(color.clone()));
    }
    let mut players: Vec<Json> = Vec::new();
    players.push(Json::Object(fields));
    Json::Array(players)
}

/// Whether a family is what a theme converts to: one theme of its name, by
/// nobody in particular.
pub open spec fn is_converted(family: ThemeFamily, theme: ConvertedModel) -> bool {
    &&& family.name@ == theme.name
    &&& family.author@ == Seq::<char>::empty()
    &&& family.themes@.len() == 1
    &&& family.themes@[0].name@ == theme.name
    &&& family.themes@[0].appearance == theme.appearance
    &&& family.themes@[0].syntax_error is None
    &&& holds_style(family.themes@[0].style@, theme)
}

/// Convert a theme, given the categories of its rules' scopes.
pub fn convert(theme: &VsCodeTheme, categories: &Categories) -> (family: Result<
    ThemeFamily,
    ThemeError,
>)
    ensures
        match (family, converted(*theme, categories@)) {
            (Ok(got), Ok(want)) => is_converted(got, want),
            (Err(got), Err(want)) => got@ == want,
            _ => false,
        },
{
    let external = match &theme.token_colors {
        TokenColors::External => true,
        _ => false,
    };
    if theme.base.is_some() || external {
        return Err(Refusal::ExternalReference);
    }
    let mode = match appearance(theme) {
        Ok(mode) => mode,
        Err(refusal) => {
            return Err(refusal);
        },
    };
    let mut style = match ui_colors(theme) {
        Ok(style) => style,
        Err(refusal) => {
            return Err(refusal);
        },
    };
    let ghost colors = ui_style(theme.colors@, UI_COLORS as int)->Ok_0;
    let selection = color_under(&theme.colors, "editor.selectionBackground");
    if let Some(refusal) = check_color(selection) {
        return Err(refusal);
    }
    let cursor = color_under(&theme.colors, "editorCursor.foreground");
    if let Some(refusal) = check_color(cursor) {
        return Err(refusal);
    }
    let rules = match apply_rules(theme, categories) {
        Ok(rules) => rules,
        Err(refusal) => {
            return Err(refusal);
        },
    };
    assert(holds_text(
        styled(style@, "editor.foreground"@),
        map_get(colors, "editor.foreground"@),
    ));
    if let Some(color) = &rules.editor_foreground {
        if crate::theme::config::lookup(&style, "editor.foreground").is_none() {
            put_color(&mut style, "editor.foreground", color, Ghost(colors));
        }
    }
    let ghost complete = with_editor_foreground(colors, rules@.editor_foreground);
    assert(holds_colors(style@, complete));
    let ghost plain = style@;
    if selection.is_some() || cursor.is_some() {
        put(&mut style, "players".to_string(), player_value(selection, cursor));
    }
    put(&mut style, "syntax".to_string(), entries_value(&rules.entries));
    let name = match &theme.name {
        Some(text) => if is_blank(text.as_str()) {
            "Imported VS Code Theme".to_string()
        } else {
            text.clone()
        },
        None => "Imported VS Code Theme".to_string(),
    };
    let ghost want = converted(*theme, categories@)->Ok_0;
    proof {
        reveal_strlit("players");
        reveal_strlit("syntax");
        assert("players"@.len() == 7 && "syntax"@.len() == 6);
        assert forall|key: Seq<char>| #[trigger] holds_key(style@, want, key) by {
            assert(holds_text(styled(plain, key), map_get(complete, key)));
        }
    }
    let mut themes: Vec<ThemeConfig> = Vec::new();
    themes.push(
        ThemeConfig {
            name: name.clone(),
            appearance: mode,
            style: Rc::new(style),
            syntax_error: None,
        },
    );
    let author = String::new();
    assert(author@ =~= Seq::<char>::empty());
    Ok(ThemeFamily { name, author, themes })
}

/// Every colour that a conversion takes over is one.
pub proof fn law_converted_colors_are_colors(
    colors: Seq<(String, Option<String>)>,
    n: int,
    key: Seq<char>,
)
    requires
        ui_style(colors, n) is Ok,
        ui_style(colors, n)->Ok_0.contains_key(key),
    ensures
        written_color(ui_style(colors, n)->Ok_0[key]) is Some,
    decreases n,
{
    if n > 0 {
        let before = ui_style(colors, n - 1)->Ok_0;
        if before.contains_key(key) {
            law_converted_colors_are_colors(colors, n - 1, key);
        }
    }
}

} // verus!
