//! What of a theme of VS Code goes where.
use crate::text::{trim, white_space};
use crate::theme::color::written_color;
use crate::theme::config::{styled, Json, ThemeFamily};
use crate::theme::slot_laws::ansi_key;
use crate::theme::vscode::{
    appearance_of, converted, face_of, is_converted, pieces, ruled, set_color, simple_pieces,
    ui_color, ui_style, with_editor_foreground, with_rule, word_at, ConvertedModel, EntryModel,
    VsCodeTheme, UI_COLORS,
};
use crate::theme::ThemeMode;
use vstd::prelude::*;

verus! {

/// The colours of the controls go to these keys.
pub proof fn law_control_colors_have_their_places()
    ensures
        ui_color(0) == ("editor.background"@, "background"@),
        ui_color(1) == ("editor.background"@, "editor.background"@),
        ui_color(2) == ("editor.foreground"@, "text"@),
        ui_color(3) == ("foreground"@, "text"@),
        ui_color(4) == ("editor.foreground"@, "editor.foreground"@),
        ui_color(5) == ("descriptionForeground"@, "text.muted"@),
        ui_color(6) == ("focusBorder"@, "border.focused"@),
        ui_color(7) == ("button.background"@, "text.accent"@),
        ui_color(8) == ("textLink.foreground"@, "text.accent"@),
        ui_color(9) == ("panel.border"@, "border"@),
        ui_color(10) == ("input.border"@, "border.variant"@),
        ui_color(11) == ("input.background"@, "element.background"@),
        ui_color(12) == ("dropdown.background"@, "elevated_surface.background"@),
        ui_color(13) == ("sideBar.background"@, "panel.background"@),
        ui_color(14) == ("sideBar.foreground"@, "icon"@),
        ui_color(15) == ("list.hoverBackground"@, "ghost_element.hover"@),
        ui_color(16) == ("list.activeSelectionBackground"@, "ghost_element.selected"@),
        ui_color(17) == ("scrollbarSlider.background"@, "scrollbar.thumb.background"@),
        ui_color(18) == ("scrollbarSlider.hoverBackground"@, "scrollbar.thumb.hover_background"@),
        ui_color(19) == ("terminal.background"@, "terminal.background"@),
        ui_color(20) == ("terminal.foreground"@, "terminal.foreground"@),
        ui_color(21) == ("editorError.foreground"@, "error"@),
        ui_color(22) == ("editorWarning.foreground"@, "warning"@),
        ui_color(23) == ("editorInfo.foreground"@, "info"@),
        ui_color(24) == ("gitDecoration.addedResourceForeground"@, "success"@),
        UI_COLORS == 41,
{
}

/// The name of an ANSI colour as VS Code writes it.
pub open spec fn vscode_ansi_name(n: int) -> Seq<char> {
    if n == 0 {
        "Black"@
    } else if n == 1 {
        "Red"@
    } else if n == 2 {
        "Green"@
    } else if n == 3 {
        "Yellow"@
    } else if n == 4 {
        "Blue"@
    } else if n == 5 {
        "Magenta"@
    } else if n == 6 {
        "Cyan"@
    } else {
        "White"@
    }
}

/// The key of an ANSI colour in VS Code.
pub open spec fn vscode_ansi_key(n: int, bright: bool) -> Seq<char> {
    if bright {
        "terminal.ansi"@ + "Bright"@ + vscode_ansi_name(n)
    } else {
        "terminal.ansi"@ + vscode_ansi_name(n)
    }
}

/// The colours of terminals go to the keys of the same ANSI colours, bright to bright.
pub proof fn law_terminal_colors_keep_their_names(n: int, bright: bool)
    requires
        0 <= n < 8,
    ensures
        ui_color(
            25 + 2 * n + if bright {
                1int
            } else {
                0
            },
        ) == (
            vscode_ansi_key(n, bright),
            ansi_key(
                n + if bright {
                    8int
                } else {
                    0
                },
            ),
        ),
{
    reveal_strlit("terminal.ansi");
    reveal_strlit("terminal.ansi.");
    reveal_strlit("Bright");
    reveal_strlit("bright_");
    if n == 0 && !bright {
        reveal_strlit("Black");
        reveal_strlit("terminal.ansiBlack");
        reveal_strlit("black");
        reveal_strlit("terminal.ansi.black");
        assert("terminal.ansiBlack"@ =~= vscode_ansi_key(n, bright));
        assert("terminal.ansi.black"@ =~= ansi_key(n + if bright {
            8int
        } else {
            0
        }));
    } else if n == 0 && bright {
        reveal_strlit("Black");
        reveal_strlit("terminal.ansiBrightBlack");
        reveal_strlit("black");
        reveal_strlit("terminal.ansi.bright_black");
        assert("terminal.ansiBrightBlack"@ =~= vscode_ansi_key(n, bright));
        assert("terminal.ansi.bright_black"@ =~= ansi_key(n + if bright {
            8int
        } else {
            0
        }));
    } else if n == 1 && !bright {
        reveal_strlit("Red");
        reveal_strlit("terminal.ansiRed");
        reveal_strlit("red");
        reveal_strlit("terminal.ansi.red");
        assert("terminal.ansiRed"@ =~= vscode_ansi_key(n, bright));
        assert("terminal.ansi.red"@ =~= ansi_key(n + if bright {
            8int
        } else {
            0
        }));
    } else if n == 1 && bright {
        reveal_strlit("Red");
        reveal_strlit("terminal.ansiBrightRed");
        reveal_strlit("red");
        reveal_strlit("terminal.ansi.bright_red");
        assert("terminal.ansiBrightRed"@ =~= vscode_ansi_key(n, bright));
        assert("terminal.ansi.bright_red"@ =~= ansi_key(n + if bright {
            8int
        } else {
            0
        }));
    } else if n == 2 && !bright {
        reveal_strlit("Green");
        reveal_strlit("terminal.ansiGreen");
        reveal_strlit("green");
        reveal_strlit("terminal.ansi.green");
        assert("terminal.ansiGreen"@ =~= vscode_ansi_key(n, bright));
        assert("terminal.ansi.green"@ =~= ansi_key(n + if bright {
            8int
        } else {
            0
        }));
    } else if n == 2 && bright {
        reveal_strlit("Green");
        reveal_strlit("terminal.ansiBrightGreen");
        reveal_strlit("green");
        reveal_strlit("terminal.ansi.bright_green");
        assert("terminal.ansiBrightGreen"@ =~= vscode_ansi_key(n, bright));
        assert("terminal.ansi.bright_green"@ =~= ansi_key(n + if bright {
            8int
        } else {
            0
        }));
    } else if n == 3 && !bright {
        reveal_strlit("Yellow");
        reveal_strlit("terminal.ansiYellow");
        reveal_strlit("yellow");
        reveal_strlit("terminal.ansi.yellow");
        assert("terminal.ansiYellow"@ =~= vscode_ansi_key(n, bright));
        assert("terminal.ansi.yellow"@ =~= ansi_key(n + if bright {
            8int
        } else {
            0
        }));
    } else if n == 3 && bright {
        reveal_strlit("Yellow");
        reveal_strlit("terminal.ansiBrightYellow");
        reveal_strlit("yellow");
        reveal_strlit("terminal.ansi.bright_yellow");
        assert("terminal.ansiBrightYellow"@ =~= vscode_ansi_key(n, bright));
        assert("terminal.ansi.bright_yellow"@ =~= ansi_key(n + if bright {
            8int
        } else {
            0
        }));
    } else if n == 4 && !bright {
        reveal_strlit("Blue");
        reveal_strlit("terminal.ansiBlue");
        reveal_strlit("blue");
        reveal_strlit("terminal.ansi.blue");
        assert("terminal.ansiBlue"@ =~= vscode_ansi_key(n, bright));
        assert("terminal.ansi.blue"@ =~= ansi_key(n + if bright {
            8int
        } else {
            0
        }));
    } else if n == 4 && bright {
        reveal_strlit("Blue");
        reveal_strlit("terminal.ansiBrightBlue");
        reveal_strlit("blue");
        reveal_strlit("terminal.ansi.bright_blue");
        assert("terminal.ansiBrightBlue"@ =~= vscode_ansi_key(n, bright));
        assert("terminal.ansi.bright_blue"@ =~= ansi_key(n + if bright {
            8int
        } else {
            0
        }));
    } else if n == 5 && !bright {
        reveal_strlit("Magenta");
        reveal_strlit("terminal.ansiMagenta");
        reveal_strlit("magenta");
        reveal_strlit("terminal.ansi.magenta");
        assert("terminal.ansiMagenta"@ =~= vscode_ansi_key(n, bright));
        assert("terminal.ansi.magenta"@ =~= ansi_key(n + if bright {
            8int
        } else {
            0
        }));
    } else if n == 5 && bright {
        reveal_strlit("Magenta");
        reveal_strlit("terminal.ansiBrightMagenta");
        reveal_strlit("magenta");
        reveal_strlit("terminal.ansi.bright_magenta");
        assert("terminal.ansiBrightMagenta"@ =~= vscode_ansi_key(n, bright));
        assert("terminal.ansi.bright_magenta"@ =~= ansi_key(n + if bright {
            8int
        } else {
            0
        }));
    } else if n == 6 && !bright {
        reveal_strlit("Cyan");
        reveal_strlit("terminal.ansiCyan");
        reveal_strlit("cyan");
        reveal_strlit("terminal.ansi.cyan");
        assert("terminal.ansiCyan"@ =~= vscode_ansi_key(n, bright));
        assert("terminal.ansi.cyan"@ =~= ansi_key(n + if bright {
            8int
        } else {
            0
        }));
    } else if n == 6 && bright {
        reveal_strlit("Cyan");
        reveal_strlit("terminal.ansiBrightCyan");
        reveal_strlit("cyan");
        reveal_strlit("terminal.ansi.bright_cyan");
        assert("terminal.ansiBrightCyan"@ =~= vscode_ansi_key(n, bright));
        assert("terminal.ansi.bright_cyan"@ =~= ansi_key(n + if bright {
            8int
        } else {
            0
        }));
    } else if n == 7 && !bright {
        reveal_strlit("White");
        reveal_strlit("terminal.ansiWhite");
        reveal_strlit("white");
        reveal_strlit("terminal.ansi.white");
        assert("terminal.ansiWhite"@ =~= vscode_ansi_key(n, bright));
        assert("terminal.ansi.white"@ =~= ansi_key(n + if bright {
            8int
        } else {
            0
        }));
    } else if n == 7 && bright {
        reveal_strlit("White");
        reveal_strlit("terminal.ansiBrightWhite");
        reveal_strlit("white");
        reveal_strlit("terminal.ansi.bright_white");
        assert("terminal.ansiBrightWhite"@ =~= vscode_ansi_key(n, bright));
        assert("terminal.ansi.bright_white"@ =~= ansi_key(n + if bright {
            8int
        } else {
            0
        }));
    }
}

/// A colour that a theme sets is in the converted style under the key that it goes to,
/// unless a later colour that the theme sets goes there too.
pub proof fn law_set_colors_are_taken_over(
    colors: Seq<(String, Option<String>)>,
    n: int,
    i: int,
    color: Seq<char>,
)
    requires
        0 <= i < n,
        ui_style(colors, n) is Ok,
        set_color(colors, ui_color(i).0) == Some(color),
        forall|j: int|
            i < j < n ==> (#[trigger] ui_color(j)).1 != ui_color(i).1 || set_color(
                colors,
                ui_color(j).0,
            ) is None,
    ensures
        ui_style(colors, n)->Ok_0.contains_key(ui_color(i).1),
        ui_style(colors, n)->Ok_0[ui_color(i).1] == color,
        written_color(color) is Some,
    decreases n,
{
    if i < n - 1 {
        law_set_colors_are_taken_over(colors, n - 1, i, color);
        assert(ui_color(n - 1).1 != ui_color(i).1 || set_color(colors, ui_color(n - 1).0) is None);
    }
}

/// A colour that is set and is none has the theme refused.
pub proof fn law_what_is_no_color_is_refused(
    colors: Seq<(String, Option<String>)>,
    n: int,
    i: int,
    color: Seq<char>,
)
    requires
        0 <= i < n,
        set_color(colors, ui_color(i).0) == Some(color),
        written_color(color) is None,
    ensures
        ui_style(colors, n) is Err,
    decreases n,
{
    if i < n - 1 {
        law_what_is_no_color_is_refused(colors, n - 1, i, color);
    }
}

/// Nothing is in the converted style that no set colour goes to.
pub proof fn law_only_set_colors_are_taken_over(
    colors: Seq<(String, Option<String>)>,
    n: int,
    key: Seq<char>,
)
    requires
        ui_style(colors, n) is Ok,
        ui_style(colors, n)->Ok_0.contains_key(key),
    ensures
        exists|i: int|
            0 <= i < n && (#[trigger] ui_color(i)).1 == key && set_color(colors, ui_color(i).0)
                == Some(ui_style(colors, n)->Ok_0[key]),
    decreases n,
{
    if n > 0 {
        let before = ui_style(colors, n - 1)->Ok_0;
        if set_color(colors, ui_color(n - 1).0) is Some && ui_color(n - 1).1 == key {
            assert(ui_color(n - 1).1 == key);
        } else {
            law_only_set_colors_are_taken_over(colors, n - 1, key);
        }
    }
}

/// The type that a theme gives itself decides whether it is light or dark; high contrast
/// counts as what it is a contrast of, and any other type is refused.
pub proof fn law_the_type_decides_the_appearance(theme: VsCodeTheme, kind: String)
    requires
        theme.appearance == Some(kind),
    ensures
        kind@ == "light"@ || kind@ == "hcLight"@ ==> appearance_of(theme) == Ok::<
            _,
            crate::theme::config::ThemeErrorModel,
        >(ThemeMode::Light),
        kind@ == "dark"@ || kind@ == "hcDark"@ ==> appearance_of(theme) == Ok::<
            _,
            crate::theme::config::ThemeErrorModel,
        >(ThemeMode::Dark),
        kind@ != "light"@ && kind@ != "hcLight"@ && kind@ != "dark"@ && kind@ != "hcDark"@
            ==> appearance_of(theme) is Err,
{
    reveal_strlit("light");
    reveal_strlit("hcLight");
    reveal_strlit("dark");
    reveal_strlit("hcDark");
    assert("light"@.len() == 5 && "hcLight"@.len() == 7 && "dark"@.len() == 4 && "hcDark"@.len()
        == 6);
}

/// Without a type, a theme is light exactly if the brightest and the darkest channel of
/// its editor's background together are over the middle; without a background it is
/// refused.
pub proof fn law_the_background_decides_without_a_type(
    theme: VsCodeTheme,
    background: Seq<char>,
    r: int,
    g: int,
    b: int,
)
    requires
        theme.appearance is None,
        set_color(theme.colors@, "editor.background"@) == Some(background),
        written_color(background) is Some,
        0 <= r <= b,
        b <= g < 256,
        written_color(background)->0.rgba as int == ((r * 256 + g) * 256 + b) * 256 + 255,
    ensures
        appearance_of(theme) == Ok::<_, crate::theme::config::ThemeErrorModel>(
            if r + g > 255 {
                ThemeMode::Light
            } else {
                ThemeMode::Dark
            },
        ),
{
    let v = written_color(background)->0.rgba as int;
    assert(v / 0x100_0000 == r);
    assert(v / 0x1_0000 % 0x100 == g);
    assert(v / 0x100 % 0x100 == b);
}

/// A theme that builds on another file, or keeps its rules in one, is refused.
pub proof fn law_themes_in_several_files_are_refused(
    theme: VsCodeTheme,
    categories: Seq<Vec<Option<String>>>,
)
    requires
        theme.base is Some || theme.token_colors is External,
    ensures
        converted(theme, categories) is Err,
        converted(theme, categories)->Err_0 is ExternalReference,
{
}

/// A converted theme has the editor's selection and cursor as its player's, is light or
/// dark as told, and keeps its name; a blank one is replaced.
pub proof fn law_a_conversion_keeps_what_the_theme_is(
    theme: VsCodeTheme,
    categories: Seq<Vec<Option<String>>>,
)
    requires
        converted(theme, categories) is Ok,
    ensures
        ({
            let after = converted(theme, categories)->Ok_0;
            &&& after.selection == set_color(theme.colors@, "editor.selectionBackground"@)
            &&& after.cursor == set_color(theme.colors@, "editorCursor.foreground"@)
            &&& appearance_of(theme) == Ok::<_, crate::theme::config::ThemeErrorModel>(
                after.appearance,
            )
            &&& theme.name is None ==> after.name == "Imported VS Code Theme"@
            &&& theme.name is Some ==> after.name == if forall|i: int|
                0 <= i < theme.name->0@.len() ==> crate::text::white_space(
                    #[trigger] theme.name->0@[i],
                ) {
                "Imported VS Code Theme"@
            } else {
                theme.name->0@
            }
            &&& after.selection is Some ==> written_color(after.selection->0) is Some
            &&& after.cursor is Some ==> written_color(after.cursor->0) is Some
        }),
{
}

/// A font is italic exactly if `italic` is among its words, and bold exactly if `bold` is.
pub proof fn law_fonts_are_what_their_words_say(font: Seq<char>)
    ensures
        face_of(font).italic <==> exists|at: int| #[trigger] word_at(font, "italic"@, at),
        face_of(font).bold <==> exists|at: int| #[trigger] word_at(font, "bold"@, at),
{
}

/// Of two rules for a category the one with the longer scope wins, and of two with scopes
/// of one length the later one; a rule that wins keeps what it does not say.
pub proof fn law_the_longer_scope_wins(
    entry: EntryModel,
    length: int,
    place: int,
    foreground: Option<Seq<char>>,
    font_style: Option<Seq<char>>,
)
    ensures
        ({
            let (old_length, old_place) = entry.rank;
            let after = ruled(entry, (length, place), foreground, font_style);
            let wins = length > old_length || (length == old_length && place >= old_place);
            &&& after.category == entry.category
            &&& !wins ==> after == entry
            &&& wins ==> after.rank == (length, place)
            &&& wins && foreground is Some ==> after.color == foreground
            &&& wins && foreground is None ==> after.color == entry.color
            &&& wins && font_style is Some ==> after.face == Some(face_of(font_style->0))
            &&& wins && font_style is None ==> after.face == entry.face
        }),
{
}

/// A rule changes the entry of its category, or adds one, and leaves all others.
pub proof fn law_a_rule_concerns_its_category(
    entries: Seq<EntryModel>,
    category: Seq<char>,
    rank: (int, int),
    foreground: Option<Seq<char>>,
    font_style: Option<Seq<char>>,
)
    ensures
        ({
            let after = with_rule(entries, category, rank, foreground, font_style);
            &&& exists|i: int| 0 <= i < after.len() && (#[trigger] after[i]).category == category
            &&& after.len() >= entries.len()
            &&& forall|i: int|
                0 <= i < entries.len() && (#[trigger] entries[i]).category != category ==> after[i]
                    == entries[i]
        }),
    decreases entries.len(),
{
    let after = with_rule(entries, category, rank, foreground, font_style);
    if entries.len() == 0 {
        assert(after[0].category == category);
    } else if entries[0].category == category {
        assert(after[0].category == category);
        assert forall|i: int|
            0 <= i < entries.len() && (#[trigger] entries[i]).category != category implies after[i]
            == entries[i] by {
            assert(entries.drop_first()[i - 1] == entries[i]);
        }
    } else {
        let rest = entries.drop_first();
        law_a_rule_concerns_its_category(rest, category, rank, foreground, font_style);
        let tail = with_rule(rest, category, rank, foreground, font_style);
        let k = choose|k: int| 0 <= k < tail.len() && (#[trigger] tail[k]).category == category;
        assert(after[k + 1].category == category);
        assert forall|i: int|
            0 <= i < entries.len() && (#[trigger] entries[i]).category != category implies after[i]
            == entries[i] by {
            if i > 0 {
                assert(rest[i - 1] == entries[i]);
                assert(tail[i - 1] == rest[i - 1]);
            }
        }
    }
}

/// The converted style says of the selection, the cursor and each colour what the
/// conversion found.
pub proof fn law_a_converted_style_says_what_was_found(
    family: ThemeFamily,
    theme: ConvertedModel,
    key: Seq<char>,
)
    requires
        is_converted(family, theme),
        key != "syntax"@,
        key != "players"@,
    ensures
        family.themes@.len() == 1,
        family.themes@[0].appearance == theme.appearance,
        family.themes@[0].name@ == theme.name,
        theme.colors.contains_key(key) ==> (match styled(family.themes@[0].style@, key) {
            Some(Json::Text(text)) => text@ == theme.colors[key],
            _ => false,
        }),
        !theme.colors.contains_key(key) ==> styled(family.themes@[0].style@, key) is None,
{
    assert(crate::theme::vscode::holds_key(family.themes@[0].style@, theme, key));
}

/// A converted theme's style has an entry for each category that the rules speak of, in
/// the colour and the font that they give it.
pub proof fn law_converted_syntax_says_what_the_rules_do(
    family: ThemeFamily,
    theme: ConvertedModel,
    i: int,
)
    requires
        is_converted(family, theme),
        0 <= i < theme.entries.len(),
    ensures
        match styled(family.themes@[0].style@, "syntax"@) {
            Some(Json::Object(fields)) => {
                &&& fields@.len() == theme.entries.len()
                &&& fields@[i].0@ == theme.entries[i].category
                &&& match fields@[i].1 {
                    Json::Object(entry) => {
                        &&& match styled(entry@, "color"@) {
                            Some(Json::Text(color)) => theme.entries[i].color == Some(color@),
                            None => theme.entries[i].color is None,
                            _ => false,
                        }
                        &&& theme.entries[i].face is None ==> styled(entry@, "font_style"@) is None
                            && styled(entry@, "font_weight"@) is None
                        &&& theme.entries[i].face is Some ==> (match styled(
                            entry@,
                            "font_style"@,
                        ) {
                            Some(Json::Text(font)) => font@ == if theme.entries[i].face->0.italic {
                                "italic"@
                            } else {
                                "normal"@
                            },
                            _ => false,
                        })
                        &&& theme.entries[i].face is Some ==> (match styled(
                            entry@,
                            "font_weight"@,
                        ) {
                            Some(Json::Number(weight)) => weight@ == if theme.entries[i].face->0.bold {
                                "700"@
                            } else {
                                "400"@
                            },
                            _ => false,
                        })
                    },
                    _ => false,
                }
            },
            _ => false,
        },
{
    let style = family.themes@[0].style@;
    assert(crate::theme::vscode::holds_key(style, theme, "syntax"@));
    if let Some(Json::Object(fields)) = styled(style, "syntax"@) {
        assert(fields@[i].0@ == theme.entries[i].category);
    }
}

/// The selection and the cursor that a theme sets become those of the one player of the
/// converted theme.
pub proof fn law_converted_players_have_the_selection_and_the_cursor(
    family: ThemeFamily,
    theme: ConvertedModel,
)
    requires
        is_converted(family, theme),
        theme.selection is Some || theme.cursor is Some,
    ensures
        match styled(family.themes@[0].style@, "players"@) {
            Some(Json::Array(players)) => players@.len() == 1 && (match players@[0] {
                Json::Object(fields) => {
                    &&& match styled(fields@, "selection"@) {
                        Some(Json::Text(color)) => theme.selection == Some(color@),
                        None => theme.selection is None,
                        _ => false,
                    }
                    &&& match styled(fields@, "cursor"@) {
                        Some(Json::Text(color)) => theme.cursor == Some(color@),
                        None => theme.cursor is None,
                        _ => false,
                    }
                },
                _ => false,
            }),
            _ => false,
        },
{
    reveal_strlit("players");
    reveal_strlit("syntax");
    assert("players"@.len() != "syntax"@.len());
    assert(crate::theme::vscode::holds_key(family.themes@[0].style@, theme, "players"@));
}

/// Cutting a text at its commas gives pieces without commas, which joined by commas are
/// the text.
pub proof fn law_scopes_are_cut_at_commas(text: Seq<char>)
    ensures
        joined_by_commas(pieces(text)) == text,
        pieces(text).len() > 0,
        forall|i: int|
            0 <= i < pieces(text).len() ==> !(#[trigger] pieces(text)[i]).contains(','),
    decreases text.len(),
{
    if text.len() == 0 {
        let all = pieces(text);
        assert(all.drop_last() =~= Seq::<Seq<char>>::empty());
        assert(joined_by_commas(all) =~= text);
    } else {
        let init = text.drop_last();
        let c = text.last();
        law_scopes_are_cut_at_commas(init);
        let before = pieces(init);
        let all = pieces(text);
        if c == ',' {
            assert(all.drop_last() =~= before);
            assert(joined_by_commas(all) =~= joined_by_commas(before) + seq![','] + Seq::<
                char,
            >::empty());
            assert(joined_by_commas(all) =~= text);
            assert forall|i: int| 0 <= i < all.len() implies !(#[trigger] all[i]).contains(',') by {
                if i < before.len() {
                    assert(all[i] == before[i]);
                }
            }
        } else {
            let grown = before.last().push(c);
            assert(all.drop_last() =~= before.drop_last());
            assert(all.last() == grown);
            assert(joined_by_commas(all) =~= joined_by_commas(before).push(c));
            assert(joined_by_commas(all) =~= text);
            assert forall|i: int| 0 <= i < all.len() implies !(#[trigger] all[i]).contains(',') by {
                if i < before.len() - 1 {
                    assert(all[i] == before[i]);
                } else {
                    assert(!before[before.len() - 1].contains(','));
                    if grown.contains(',') {
                        let k = choose|k: int| 0 <= k < grown.len() && grown[k] == ',';
                        if k < before.last().len() {
                            assert(before.last()[k] == ',');
                        }
                    }
                }
            }
        }
    }
}

/// Texts with a comma between each two.
pub open spec fn joined_by_commas(all: Seq<Seq<char>>) -> Seq<char>
    decreases all.len(),
{
    if all.len() == 0 {
        Seq::empty()
    } else if all.len() == 1 {
        all[0]
    } else {
        joined_by_commas(all.drop_last()) + seq![','] + all.last()
    }
}

/// Of the pieces of a list of scopes exactly those count that name one thing, without
/// the white space around them.
pub proof fn law_simple_scopes_count(all: Seq<Seq<char>>, n: int, i: int)
    requires
        0 <= i < n <= all.len(),
    ensures
        (forall|k: int| 0 <= k < trim(all[i]).len() ==> !white_space(#[trigger] trim(all[i])[k]))
            ==> simple_pieces(all, n).contains(trim(all[i])),
        forall|p: int, k: int|
            0 <= p < simple_pieces(all, n).len() && 0 <= k < simple_pieces(all, n)[p].len()
                ==> !white_space(#[trigger] simple_pieces(all, n)[p][k]),
    decreases n,
{
    let before = simple_pieces(all, n - 1);
    let kept = simple_pieces(all, n);
    if n > 1 {
        law_simple_scopes_count(
            all,
            n - 1,
            if i < n - 1 {
                i
            } else {
                0
            },
        );
    } else {
        assert(before.len() == 0);
    }
    if forall|k: int| 0 <= k < trim(all[i]).len() ==> !white_space(#[trigger] trim(all[i])[k]) {
        if i < n - 1 {
            let p = choose|p: int| 0 <= p < before.len() && before[p] == trim(all[i]);
            assert(kept[p] == before[p]);
        } else {
            assert(kept[before.len() as int] == trim(all[i]));
        }
    }
    assert forall|p: int, k: int| 0 <= p < kept.len() && 0 <= k < kept[p].len() implies
    !white_space(#[trigger] kept[p][k]) by {
        if p < before.len() {
            assert(kept[p] == before[p]);
            assert(!white_space(before[p][k]));
        }
    }
}

/// A rule without a scope gives the editor's text colour, the first of them that has
/// one; it stands only where the theme itself sets none.
pub proof fn law_a_rule_without_a_scope_colors_the_editor(
    colors: Map<Seq<char>, Seq<char>>,
    color: Seq<char>,
    other: Seq<char>,
)
    requires
        other != "editor.foreground"@,
    ensures
        colors.contains_key("editor.foreground"@) ==> with_editor_foreground(colors, Some(color))
            == colors,
        !colors.contains_key("editor.foreground"@) ==> {
            let after = with_editor_foreground(colors, Some(color));
            after.contains_key("editor.foreground"@) && after["editor.foreground"@] == color
        },
        with_editor_foreground(colors, Some(color)).contains_key(other) == colors.contains_key(
            other,
        ),
        colors.contains_key(other) ==> with_editor_foreground(colors, Some(color))[other]
            == colors[other],
        with_editor_foreground(colors, None) == colors,
{
}

} // verus!
