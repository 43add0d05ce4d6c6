//! Where each colour of a theme comes from.
use crate::theme::color::{written_color, Color};
use crate::theme::config::{styled, Json, ThemeConfig};
use crate::theme::resolve::{
    resolved, rule_of, slot_color, slot_colors, syntax_refusal, Fallback, Source, ANSI, BACKGROUND,
    BORDER, CONTENT_SURFACE, DANGER, EDITOR_FOREGROUND, FOREGROUND, INFO, INPUT, LIST_ACTIVE,
    LIST_HOVER, MUTED, MUTED_FOREGROUND, POPOVER, PRIMARY, RING, SCROLLBAR, SCROLLBAR_THUMB,
    SCROLLBAR_THUMB_HOVER, SECONDARY, SELECTION, SIDEBAR, SIDEBAR_FOREGROUND, SLOTS, SUCCESS,
    SYNTAX, TERMINAL_BACKGROUND, TERMINAL_CURSOR, TERMINAL_FOREGROUND, WARNING,
};
use vstd::prelude::*;

verus! {

/// Whether a style has a colour under a key.
pub open spec fn sets(style: Seq<(String, Json)>, key: Seq<char>, color: Color) -> bool {
    match styled(style, key) {
        Some(Json::Text(text)) => written_color(text@) == Some(color),
        _ => false,
    }
}

/// Whether a style has nothing under a key.
pub open spec fn leaves(style: Seq<(String, Json)>, key: Seq<char>) -> bool {
    match styled(style, key) {
        None => true,
        Some(Json::Null) => true,
        _ => false,
    }
}

/// Whether the first of a style's players has a colour in a field.
pub open spec fn player_sets(style: Seq<(String, Json)>, field: Seq<char>, color: Color) -> bool {
    match styled(style, "players"@) {
        Some(Json::Array(players)) => players@.len() > 0 && (match players@[0] {
            Json::Object(fields) => sets(fields@, field, color),
            _ => false,
        }),
        _ => false,
    }
}

/// The colours that a theme that resolves has in its slots.
pub open spec fn slots_of(config: ThemeConfig, bundled: Seq<(String, Json)>) -> Seq<Color> {
    slot_colors(SLOTS as nat, config.style@, bundled, syntax_refusal(config))->Ok_0
}

proof fn lemma_rule(slot: int)
    requires
        0 <= slot < SLOTS,
    ensures
        match rule_of(slot).fallback {
            Fallback::Faded(of, _) => of < slot,
            Fallback::Bundled => true,
        },
{
}

proof fn lemma_slots(
    n: nat,
    slot: int,
    style: Seq<(String, Json)>,
    bundled: Seq<(String, Json)>,
    syntax_error: Option<Seq<char>>,
)
    requires
        n <= SLOTS,
        slot_colors(n, style, bundled, syntax_error) is Ok,
    ensures
        slot_colors(n, style, bundled, syntax_error)->Ok_0.len() == n,
        0 <= slot < n ==> slot_color(
            slot,
            style,
            bundled,
            syntax_error,
            slot_colors(n, style, bundled, syntax_error)->Ok_0,
        ) == Ok::<_, crate::theme::config::ThemeErrorModel>(
            slot_colors(n, style, bundled, syntax_error)->Ok_0[slot],
        ),
    decreases n,
{
    if n > 0 {
        lemma_slots((n - 1) as nat, slot, style, bundled, syntax_error);
        let before = slot_colors((n - 1) as nat, style, bundled, syntax_error)->Ok_0;
        let after = slot_colors(n, style, bundled, syntax_error)->Ok_0;
        if 0 <= slot < n {
            lemma_rule(slot);
            match rule_of(slot).fallback {
                Fallback::Faded(of, _) => {
                    assert(after[of as int] == before[of as int]);
                },
                Fallback::Bundled => {},
            }
            assert(slot_color(slot, style, bundled, syntax_error, after) == slot_color(
                slot,
                style,
                bundled,
                syntax_error,
                before,
            ));
        }
    }
}

/// A slot of a theme that resolves has what its rule gives, over the other slots.
proof fn lemma_slot(config: ThemeConfig, bundled: Seq<(String, Json)>, slot: int)
    requires
        resolved(config, bundled) is Ok,
        0 <= slot < SLOTS,
    ensures
        slots_of(config, bundled).len() == SLOTS,
        slot_color(
            slot,
            config.style@,
            bundled,
            syntax_refusal(config),
            slots_of(config, bundled),
        ) == Ok::<_, crate::theme::config::ThemeErrorModel>(slots_of(config, bundled)[slot]),
{
    lemma_slots(SLOTS as nat, slot, config.style@, bundled, syntax_refusal(config));
}

/// The name of the ANSI colour of a number.
pub open spec fn ansi_name(index: int) -> Seq<char> {
    let n = index % 8;
    if n == 0 {
        "black"@
    } else if n == 1 {
        "red"@
    } else if n == 2 {
        "green"@
    } else if n == 3 {
        "yellow"@
    } else if n == 4 {
        "blue"@
    } else if n == 5 {
        "magenta"@
    } else if n == 6 {
        "cyan"@
    } else {
        "white"@
    }
}

/// The key of the ANSI colour of a number: the second eight are the bright ones.
pub open spec fn ansi_key(index: int) -> Seq<char> {
    if index < 8 {
        "terminal.ansi."@ + ansi_name(index)
    } else {
        "terminal.ansi."@ + "bright_"@ + ansi_name(index)
    }
}

proof fn lemma_ansi_key(index: int)
    requires
        0 <= index < 16,
    ensures
        rule_of(ANSI + index).source == Source::Style(ansi_key(index)),
{
    reveal_strlit("terminal.ansi.");
    reveal_strlit("bright_");
    if index == 0 {
        reveal_strlit("black");
        reveal_strlit("terminal.ansi.black");
        assert("terminal.ansi.black"@ =~= ansi_key(index));
    } else if index == 1 {
        reveal_strlit("red");
        reveal_strlit("terminal.ansi.red");
        assert("terminal.ansi.red"@ =~= ansi_key(index));
    } else if index == 2 {
        reveal_strlit("green");
        reveal_strlit("terminal.ansi.green");
        assert("terminal.ansi.green"@ =~= ansi_key(index));
    } else if index == 3 {
        reveal_strlit("yellow");
        reveal_strlit("terminal.ansi.yellow");
        assert("terminal.ansi.yellow"@ =~= ansi_key(index));
    } else if index == 4 {
        reveal_strlit("blue");
        reveal_strlit("terminal.ansi.blue");
        assert("terminal.ansi.blue"@ =~= ansi_key(index));
    } else if index == 5 {
        reveal_strlit("magenta");
        reveal_strlit("terminal.ansi.magenta");
        assert("terminal.ansi.magenta"@ =~= ansi_key(index));
    } else if index == 6 {
        reveal_strlit("cyan");
        reveal_strlit("terminal.ansi.cyan");
        assert("terminal.ansi.cyan"@ =~= ansi_key(index));
    } else if index == 7 {
        reveal_strlit("white");
        reveal_strlit("terminal.ansi.white");
        assert("terminal.ansi.white"@ =~= ansi_key(index));
    } else if index == 8 {
        reveal_strlit("black");
        reveal_strlit("terminal.ansi.bright_black");
        assert("terminal.ansi.bright_black"@ =~= ansi_key(index));
    } else if index == 9 {
        reveal_strlit("red");
        reveal_strlit("terminal.ansi.bright_red");
        assert("terminal.ansi.bright_red"@ =~= ansi_key(index));
    } else if index == 10 {
        reveal_strlit("green");
        reveal_strlit("terminal.ansi.bright_green");
        assert("terminal.ansi.bright_green"@ =~= ansi_key(index));
    } else if index == 11 {
        reveal_strlit("yellow");
        reveal_strlit("terminal.ansi.bright_yellow");
        assert("terminal.ansi.bright_yellow"@ =~= ansi_key(index));
    } else if index == 12 {
        reveal_strlit("blue");
        reveal_strlit("terminal.ansi.bright_blue");
        assert("terminal.ansi.bright_blue"@ =~= ansi_key(index));
    } else if index == 13 {
        reveal_strlit("magenta");
        reveal_strlit("terminal.ansi.bright_magenta");
        assert("terminal.ansi.bright_magenta"@ =~= ansi_key(index));
    } else if index == 14 {
        reveal_strlit("cyan");
        reveal_strlit("terminal.ansi.bright_cyan");
        assert("terminal.ansi.bright_cyan"@ =~= ansi_key(index));
    } else {
        reveal_strlit("white");
        reveal_strlit("terminal.ansi.bright_white");
        assert("terminal.ansi.bright_white"@ =~= ansi_key(index));
    }
}

/// What programs print in one of the sixteen ANSI colours has the colour that the style
/// sets under the key of that number, else the one that the bundled theme has there.
pub proof fn law_ansi_colors_go_by_their_names(
    config: ThemeConfig,
    bundled: Seq<(String, Json)>,
    index: int,
    color: Color,
)
    requires
        resolved(config, bundled) is Ok,
        0 <= index < 16,
    ensures
        resolved(config, bundled)->Ok_0.terminal.ansi.len() == 16,
        sets(config.style@, ansi_key(index), color)
            ==> resolved(config, bundled)->Ok_0.terminal.ansi[index] == color,
        leaves(config.style@, ansi_key(index)) && sets(bundled, ansi_key(index), color)
            ==> resolved(config, bundled)->Ok_0.terminal.ansi[index] == color,
{
    lemma_ansi_key(index);
    lemma_slot(config, bundled, ANSI + index);
    lemma_bundled_ansi(index);
}

proof fn lemma_bundled_ansi(index: int)
    requires
        0 <= index < 16,
    ensures
        rule_of(ANSI + index).fallback is Bundled,
{
}

/// What a style sets under the keys of the surfaces and the text is what the application
/// paints them with.
pub proof fn law_set_surfaces_are_used(
    config: ThemeConfig,
    bundled: Seq<(String, Json)>,
    color: Color,
)
    requires
        resolved(config, bundled) is Ok,
    ensures
        ({
            let style = config.style@;
            let c = resolved(config, bundled)->Ok_0.colors;
            &&& sets(style, "background"@, color) ==> c.background == color
            &&& sets(style, "text"@, color) ==> c.foreground == color
            &&& sets(style, "editor.background"@, color) ==> c.content_surface == color
                && c.tab_active == color
            &&& sets(style, "editor.foreground"@, color) ==> c.editor_foreground == color
            &&& sets(style, "text.accent"@, color) ==> c.primary == color && c.link == color
            &&& sets(style, "element.background"@, color) ==> c.secondary == color
                && c.secondary_active == color && c.accent == color && c.sidebar_accent == color
            &&& sets(style, "ghost_element.background"@, color) ==> c.muted == color
            &&& sets(style, "text.muted"@, color) ==> c.muted_foreground == color
            &&& sets(style, "elevated_surface.background"@, color) ==> c.popover == color
            &&& sets(style, "panel.background"@, color) ==> c.sidebar == color
            &&& sets(style, "icon"@, color) ==> c.sidebar_foreground == color
        }),
{
    lemma_slot(config, bundled, BACKGROUND as int);
    lemma_slot(config, bundled, FOREGROUND as int);
    lemma_slot(config, bundled, CONTENT_SURFACE as int);
    lemma_slot(config, bundled, EDITOR_FOREGROUND as int);
    lemma_slot(config, bundled, PRIMARY as int);
    lemma_slot(config, bundled, SECONDARY as int);
    lemma_slot(config, bundled, MUTED as int);
    lemma_slot(config, bundled, MUTED_FOREGROUND as int);
    lemma_slot(config, bundled, POPOVER as int);
    lemma_slot(config, bundled, SIDEBAR as int);
    lemma_slot(config, bundled, SIDEBAR_FOREGROUND as int);
}

/// What a style sets under the keys of borders, messages, lists and scrollbars is what the
/// application paints them with.
pub proof fn law_set_details_are_used(
    config: ThemeConfig,
    bundled: Seq<(String, Json)>,
    color: Color,
)
    requires
        resolved(config, bundled) is Ok,
    ensures
        ({
            let style = config.style@;
            let c = resolved(config, bundled)->Ok_0.colors;
            &&& sets(style, "border"@, color) ==> c.border == color
            &&& sets(style, "border.variant"@, color) ==> c.input == color
            &&& sets(style, "border.focused"@, color) ==> c.ring == color
            &&& sets(style, "error"@, color) ==> c.danger == color && c.danger_active == color
                && c.danger_foreground == color
            &&& sets(style, "info"@, color) ==> c.info == color && c.info_foreground == color
            &&& sets(style, "success"@, color) ==> c.success == color && c.success_foreground
                == color
            &&& sets(style, "warning"@, color) ==> c.warning == color && c.warning_foreground
                == color
            &&& sets(style, "ghost_element.selected"@, color) ==> c.list_active == color
            &&& sets(style, "ghost_element.hover"@, color) ==> c.list_hover == color
            &&& sets(style, "scrollbar.track.background"@, color) ==> c.scrollbar == color
            &&& sets(style, "scrollbar.thumb.background"@, color) ==> c.scrollbar_thumb == color
            &&& sets(style, "scrollbar.thumb.hover_background"@, color)
                ==> c.scrollbar_thumb_hover == color
        }),
{
    lemma_slot(config, bundled, BORDER as int);
    lemma_slot(config, bundled, INPUT as int);
    lemma_slot(config, bundled, RING as int);
    lemma_slot(config, bundled, DANGER as int);
    lemma_slot(config, bundled, INFO as int);
    lemma_slot(config, bundled, SUCCESS as int);
    lemma_slot(config, bundled, WARNING as int);
    lemma_slot(config, bundled, LIST_ACTIVE as int);
    lemma_slot(config, bundled, LIST_HOVER as int);
    lemma_slot(config, bundled, SCROLLBAR as int);
    lemma_slot(config, bundled, SCROLLBAR_THUMB as int);
    lemma_slot(config, bundled, SCROLLBAR_THUMB_HOVER as int);
}

/// The terminal has the colours that the style sets for it, and the selection and the
/// cursor of the style's first player.
pub proof fn law_set_terminal_colors_are_used(
    config: ThemeConfig,
    bundled: Seq<(String, Json)>,
    color: Color,
)
    requires
        resolved(config, bundled) is Ok,
    ensures
        ({
            let style = config.style@;
            let t = resolved(config, bundled)->Ok_0;
            &&& sets(style, "terminal.background"@, color) ==> t.terminal.background == color
            &&& sets(style, "terminal.foreground"@, color) ==> t.terminal.foreground == color
            &&& player_sets(style, "selection"@, color) ==> t.terminal.selection == color
                && t.colors.selection == color
            &&& player_sets(style, "cursor"@, color) ==> t.terminal.cursor == color
            &&& t.terminal.selection == t.colors.selection
        }),
{
    lemma_slot(config, bundled, TERMINAL_BACKGROUND as int);
    lemma_slot(config, bundled, TERMINAL_FOREGROUND as int);
    lemma_slot(config, bundled, SELECTION as int);
    lemma_slot(config, bundled, TERMINAL_CURSOR as int);
}

/// Whether a colour is another one with a percentage of its opacity.
pub open spec fn is_share(color: Color, of: Color, percent: int) -> bool {
    color.rgba == of.rgba && color.opacity as int == of.opacity as int * percent / 100
}

proof fn lemma_share(of: Color, percent: nat)
    requires
        percent <= 100,
    ensures
        is_share(of.faded(percent), of, percent as int),
        percent == 100 ==> of.faded(percent) == of,
{
    let kept = of.opacity as int;
    assert(0 <= kept * percent / 100 <= kept) by (nonlinear_arith)
        requires
            0 <= kept,
            0 <= percent <= 100,
    ;
    assert(percent == 100 ==> kept * percent == 100 * kept) by (nonlinear_arith);
}

/// Surfaces and text that a style leaves unset follow other colours of the theme: the
/// editor the window, controls a hint of the text's colour, muted text two thirds of it.
pub proof fn law_unset_surfaces_follow_others(config: ThemeConfig, bundled: Seq<(String, Json)>)
    requires
        resolved(config, bundled) is Ok,
    ensures
        ({
            let style = config.style@;
            let c = resolved(config, bundled)->Ok_0.colors;
            &&& leaves(style, "editor.background"@) ==> c.content_surface == c.background
            &&& leaves(style, "editor.foreground"@) ==> c.editor_foreground == c.foreground
            &&& leaves(style, "element.background"@) ==> is_share(c.secondary, c.foreground, 6)
            &&& leaves(style, "ghost_element.background"@) ==> c.muted == c.secondary
            &&& leaves(style, "text.muted"@) ==> is_share(c.muted_foreground, c.foreground, 65)
            &&& leaves(style, "elevated_surface.background"@) ==> c.popover == c.content_surface
            &&& leaves(style, "panel.background"@) ==> c.sidebar == c.background
            &&& leaves(style, "icon"@) ==> c.sidebar_foreground == c.foreground
        }),
{
    let s = slots_of(config, bundled);
    lemma_slot(config, bundled, CONTENT_SURFACE as int);
    lemma_slot(config, bundled, EDITOR_FOREGROUND as int);
    lemma_slot(config, bundled, SECONDARY as int);
    lemma_slot(config, bundled, MUTED as int);
    lemma_slot(config, bundled, MUTED_FOREGROUND as int);
    lemma_slot(config, bundled, POPOVER as int);
    lemma_slot(config, bundled, SIDEBAR as int);
    lemma_slot(config, bundled, SIDEBAR_FOREGROUND as int);
    lemma_share(s[BACKGROUND as int], 100);
    lemma_share(s[FOREGROUND as int], 100);
    lemma_share(s[FOREGROUND as int], 6);
    lemma_share(s[FOREGROUND as int], 65);
    lemma_share(s[SECONDARY as int], 100);
    lemma_share(s[CONTENT_SURFACE as int], 100);
}

/// Borders, lists, scrollbars and the terminal, where a style leaves them unset, follow
/// other colours of the theme.
pub proof fn law_unset_details_follow_others(config: ThemeConfig, bundled: Seq<(String, Json)>)
    requires
        resolved(config, bundled) is Ok,
    ensures
        ({
            let style = config.style@;
            let t = resolved(config, bundled)->Ok_0;
            let c = t.colors;
            &&& leaves(style, "border"@) ==> is_share(c.border, c.foreground, 12)
            &&& leaves(style, "border.variant"@) ==> c.input == c.border
            &&& leaves(style, "border.focused"@) ==> c.ring == c.primary
            &&& leaves(style, "ghost_element.selected"@) ==> c.list_active == c.selection
            &&& leaves(style, "ghost_element.hover"@) ==> c.list_hover == c.secondary
            &&& leaves(style, "scrollbar.track.background"@) ==> is_share(
                c.scrollbar,
                c.background,
                0,
            )
            &&& leaves(style, "scrollbar.thumb.background"@) ==> is_share(
                c.scrollbar_thumb,
                c.foreground,
                20,
            )
            &&& leaves(style, "scrollbar.thumb.hover_background"@) ==> is_share(
                c.scrollbar_thumb_hover,
                c.foreground,
                35,
            )
            &&& leaves(style, "terminal.background"@) ==> t.terminal.background
                == c.content_surface
            &&& leaves(style, "terminal.foreground"@) ==> t.terminal.foreground == c.foreground
            &&& leaves(style, "players"@) ==> is_share(c.selection, c.primary, 30)
                && t.terminal.cursor == c.foreground
        }),
{
    let s = slots_of(config, bundled);
    lemma_slot(config, bundled, BORDER as int);
    lemma_slot(config, bundled, INPUT as int);
    lemma_slot(config, bundled, RING as int);
    lemma_slot(config, bundled, LIST_ACTIVE as int);
    lemma_slot(config, bundled, LIST_HOVER as int);
    lemma_slot(config, bundled, SCROLLBAR as int);
    lemma_slot(config, bundled, SCROLLBAR_THUMB as int);
    lemma_slot(config, bundled, SCROLLBAR_THUMB_HOVER as int);
    lemma_slot(config, bundled, TERMINAL_BACKGROUND as int);
    lemma_slot(config, bundled, TERMINAL_FOREGROUND as int);
    lemma_slot(config, bundled, SELECTION as int);
    lemma_slot(config, bundled, TERMINAL_CURSOR as int);
    lemma_share(s[FOREGROUND as int], 12);
    lemma_share(s[BORDER as int], 100);
    lemma_share(s[PRIMARY as int], 100);
    lemma_share(s[PRIMARY as int], 30);
    lemma_share(s[SELECTION as int], 100);
    lemma_share(s[SECONDARY as int], 100);
    lemma_share(s[BACKGROUND as int], 0);
    lemma_share(s[FOREGROUND as int], 20);
    lemma_share(s[FOREGROUND as int], 35);
    lemma_share(s[CONTENT_SURFACE as int], 100);
    lemma_share(s[FOREGROUND as int], 100);
}

/// The colours that nothing in the theme can stand in for come from the bundled theme
/// where a style leaves them unset.
pub proof fn law_unset_base_colors_are_bundled(
    config: ThemeConfig,
    bundled: Seq<(String, Json)>,
    color: Color,
)
    requires
        resolved(config, bundled) is Ok,
    ensures
        ({
            let style = config.style@;
            let c = resolved(config, bundled)->Ok_0.colors;
            &&& leaves(style, "background"@) && sets(bundled, "background"@, color)
                ==> c.background == color
            &&& leaves(style, "text"@) && sets(bundled, "text"@, color) ==> c.foreground == color
            &&& leaves(style, "text.accent"@) && sets(bundled, "text.accent"@, color)
                ==> c.primary == color
            &&& leaves(style, "error"@) && sets(bundled, "error"@, color) ==> c.danger == color
            &&& leaves(style, "info"@) && sets(bundled, "info"@, color) ==> c.info == color
            &&& leaves(style, "success"@) && sets(bundled, "success"@, color) ==> c.success
                == color
            &&& leaves(style, "warning"@) && sets(bundled, "warning"@, color) ==> c.warning
                == color
        }),
{
    lemma_slot(config, bundled, BACKGROUND as int);
    lemma_slot(config, bundled, FOREGROUND as int);
    lemma_slot(config, bundled, PRIMARY as int);
    lemma_slot(config, bundled, DANGER as int);
    lemma_slot(config, bundled, INFO as int);
    lemma_slot(config, bundled, SUCCESS as int);
    lemma_slot(config, bundled, WARNING as int);
}

/// A theme is refused that has, under a key of a colour, a text that writes none or
/// something that is no text.
pub proof fn law_themes_are_refused_for_what_is_no_color(
    config: ThemeConfig,
    bundled: Seq<(String, Json)>,
    slot: int,
    key: Seq<char>,
)
    requires
        0 <= slot < SLOTS,
        rule_of(slot).source == Source::Style(key),
        match styled(config.style@, key) {
            None => false,
            Some(Json::Null) => false,
            Some(Json::Text(text)) => written_color(text@) is None,
            _ => true,
        },
    ensures
        resolved(config, bundled) is Err,
{
    if resolved(config, bundled) is Ok {
        lemma_slot(config, bundled, slot);
    }
}

/// A theme whose syntax colours the highlighter refuses is refused.
pub proof fn law_refused_syntax_refuses_the_theme(
    config: ThemeConfig,
    bundled: Seq<(String, Json)>,
)
    requires
        config.syntax_error is Some,
    ensures
        resolved(config, bundled) is Err,
{
    if resolved(config, bundled) is Ok {
        lemma_slot(config, bundled, SYNTAX as int);
    }
}

} // verus!
