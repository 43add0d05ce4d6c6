//! What theme files say, and the colours that they write.

use super::color::{all_hex, doubled, hex_number, light, named_color, written_color, Color};
use super::config::{put_style, styled, Json, ThemeConfig, ThemeError, ThemeFamily};
use super::editor::first_line_len;
use super::file::{
    config_holds, family_holds, is_config, is_family, is_vscode, rule_holds, source_holds,
    vscode_holds, ThemeSource,
};
use super::resolve::{Theme, ThemeColors};
use super::vscode::{TokenRule, TokenScope, VsCodeTheme};
use super::ThemeMode;
use crate::protocol::ConnectionState;
use crate::text::{hex_value, trim, trim_end, trim_start, white_space};
use vstd::prelude::*;
use vstd::utf8::{encode_scalar, encode_utf8};

verus! {

/// What is found under a key of a style is the first that stands there.
pub proof fn law_a_style_is_read_by_its_keys(style: Seq<(String, Json)>, key: Seq<char>, at: int)
    ensures
        0 <= at < style.len() && style[at].0@ == key && (forall|j: int|
            0 <= j < at ==> (#[trigger] style[j]).0@ != key) ==> styled(style, key) == Some(
            style[at].1,
        ),
        (forall|j: int| 0 <= j < style.len() ==> (#[trigger] style[j]).0@ != key) ==> styled(
            style,
            key,
        ) is None,
    decreases style.len(),
{
    if style.len() > 0 {
        let rest = style.drop_first();
        law_a_style_is_read_by_its_keys(rest, key, at - 1);
        if style[0].0@ != key {
            if 0 <= at < style.len() && style[at].0@ == key && (forall|j: int|
                0 <= j < at ==> (#[trigger] style[j]).0@ != key) {
                assert forall|j: int| 0 <= j < at - 1 implies (#[trigger] rest[j]).0@ != key by {
                    assert(rest[j] == style[j + 1]);
                }
            }
            if forall|j: int| 0 <= j < style.len() ==> (#[trigger] style[j]).0@ != key {
                assert forall|j: int| 0 <= j < rest.len() implies (#[trigger] rest[j]).0@ != key by {
                    assert(rest[j] == style[j + 1]);
                }
            }
        } else if 0 < at < style.len() {
            assert(style[0].0@ == key);
        }
    }
}

proof fn lemma_hex_is_ink(c: char)
    requires
        hex_value(c) is Some,
    ensures
        !white_space(c),
        (c as u32) < 0x80,
{
}

proof fn lemma_at_least_one_byte_each(text: Seq<char>)
    ensures
        encode_utf8(text).len() >= text.len(),
    decreases text.len(),
{
    if text.len() > 0 {
        lemma_at_least_one_byte_each(text.drop_first());
        assert(encode_scalar(text[0] as u32).len() >= 1);
    }
}

proof fn lemma_one_byte_each(text: Seq<char>)
    requires
        forall|i: int| 0 <= i < text.len() ==> (#[trigger] text[i]) as u32 <= 0x7f,
    ensures
        encode_utf8(text).len() == text.len(),
    decreases text.len(),
{
    if text.len() > 0 {
        lemma_one_byte_each(text.drop_first());
        assert(text[0] as u32 <= 0x7f);
        assert(encode_scalar(text[0] as u32).len() == 1);
    }
}

proof fn lemma_nothing_to_trim(text: Seq<char>)
    requires
        text.len() > 0,
        !white_space(text[0]),
        !white_space(text.last()),
    ensures
        trim(text) == text,
{
    assert(trim_start(text) == text);
    assert(trim_end(text) == text);
}

/// The number that eight digits write.
pub open spec fn eight(d: Seq<char>) -> int {
    (hex_value(d[0])->0 * 0x1000_0000 + hex_value(d[1])->0 * 0x100_0000 + hex_value(d[2])->0
        * 0x10_0000 + hex_value(d[3])->0 * 0x1_0000 + hex_value(d[4])->0 * 0x1000 + hex_value(
        d[5],
    )->0 * 0x100 + hex_value(d[6])->0 * 0x10 + hex_value(d[7])->0) as int
}

/// A text of a hash mark and digits.
pub open spec fn hashed(digits: Seq<char>) -> Seq<char> {
    seq!['#'] + digits
}

proof fn lemma_hashed(digits: Seq<char>)
    requires
        digits.len() == 6 || digits.len() == 8,
        all_hex(digits),
    ensures
        named_color(hashed(digits)) == hashed(digits),
        trim(hashed(digits)) == hashed(digits),
        hashed(digits).subrange(1, hashed(digits).len() as int) == digits,
{
    let text = hashed(digits);
    lemma_at_least_one_byte_each(text);
    assert(text[0] == '#');
    assert(text.last() == digits[digits.len() - 1]);
    lemma_hex_is_ink(digits[digits.len() - 1]);
    lemma_nothing_to_trim(text);
    assert(text.subrange(1, text.len() as int) =~= digits);
}

/// Eight digits behind a hash mark are the red, the green, the blue and the alpha of a
/// colour, two each; with six the colour is opaque.
pub proof fn law_long_digits_are_channels(digits: Seq<char>)
    requires
        digits.len() == 6 || digits.len() == 8,
        all_hex(digits),
    ensures
        digits.len() == 8 ==> written_color(hashed(digits)) == Some(
            Color { rgba: eight(digits) as u32, opacity: 100_000_000 },
        ),
        digits.len() == 6 ==> written_color(hashed(digits)) == Some(
            Color { rgba: eight(digits + seq!['f', 'f']) as u32, opacity: 100_000_000 },
        ),
{
    lemma_hashed(digits);
    let full = if digits.len() == 8 {
        digits
    } else {
        digits + seq!['f', 'f']
    };
    assert forall|i: int| 0 <= i < full.len() implies hex_value(#[trigger] full[i]) is Some by {
        if i < digits.len() {
            assert(full[i] == digits[i]);
        }
    }
    lemma_eight(full);
}

proof fn lemma_eight(d: Seq<char>)
    requires
        d.len() == 8,
        all_hex(d),
    ensures
        hex_number(d) == eight(d),
{
    reveal_with_fuel(hex_number, 9);
    assert(d.drop_last().len() == 7);
    let seven = d.drop_last();
    let six = seven.drop_last();
    let five = six.drop_last();
    let four = five.drop_last();
    let three = four.drop_last();
    let two = three.drop_last();
    let one = two.drop_last();
    assert(hex_number(one) == hex_value(d[0])->0);
    assert(hex_number(two) == hex_number(one) * 16 + hex_value(d[1])->0);
    assert(hex_number(three) == hex_number(two) * 16 + hex_value(d[2])->0);
    assert(hex_number(four) == hex_number(three) * 16 + hex_value(d[3])->0);
    assert(hex_number(five) == hex_number(four) * 16 + hex_value(d[4])->0);
    assert(hex_number(six) == hex_number(five) * 16 + hex_value(d[5])->0);
    assert(hex_number(seven) == hex_number(six) * 16 + hex_value(d[6])->0);
}

/// Three or four digits behind a hash mark are short for each of them written twice.
pub proof fn law_short_digits_are_doubled(a: char, b: char, c: char, d: char)
    requires
        hex_value(a) is Some,
        hex_value(b) is Some,
        hex_value(c) is Some,
        hex_value(d) is Some,
    ensures
        written_color(hashed(seq![a, b, c])) == written_color(hashed(seq![a, a, b, b, c, c])),
        written_color(hashed(seq![a, b, c, d])) == written_color(
            hashed(seq![a, a, b, b, c, c, d, d]),
        ),
        written_color(hashed(seq![a, b, c])) is Some,
        written_color(hashed(seq![a, b, c, d])) is Some,
{
    let three = hashed(seq![a, b, c]);
    let four = hashed(seq![a, b, c, d]);
    lemma_hex_is_ink(a);
    lemma_hex_is_ink(b);
    lemma_hex_is_ink(c);
    lemma_hex_is_ink(d);
    lemma_one_byte_each(three);
    lemma_one_byte_each(four);
    reveal_with_fuel(doubled, 5);
    assert(three.drop_first() =~= seq![a, b, c]);
    assert(four.drop_first() =~= seq![a, b, c, d]);
    assert(seq![a, b, c].drop_last() =~= seq![a, b]);
    assert(seq![a, b, c, d].drop_last() =~= seq![a, b, c]);
    assert(seq![a, b].drop_last() =~= seq![a]);
    assert(seq![a].drop_last() =~= Seq::<char>::empty());
    assert(doubled(seq![a]) =~= seq![a, a]);
    assert(doubled(seq![a, b]) =~= seq![a, a, b, b]);
    assert(doubled(seq![a, b, c]) =~= seq![a, a, b, b, c, c]);
    assert(doubled(seq![a, b, c, d]) =~= seq![a, a, b, b, c, c, d, d]);
    let six = seq![a, a, b, b, c, c];
    let eight = seq![a, a, b, b, c, c, d, d];
    assert(named_color(three) == hashed(six));
    assert(named_color(four) == hashed(eight));
    law_long_digits_are_channels(six);
    law_long_digits_are_channels(eight);
    lemma_hashed(six);
    lemma_hashed(eight);
}

/// A text without a hash mark in front is no colour, nor is one with a character
/// behind it that is no digit.
pub proof fn law_only_digits_write_a_color(text: Seq<char>)
    requires
        text.len() >= 6,
        !white_space(text[0]),
        !white_space(text.last()),
    ensures
        written_color(text) is Some ==> {
            &&& text[0] == '#'
            &&& text.len() == 7 || text.len() == 9
            &&& forall|i: int| 1 <= i < text.len() ==> hex_value(#[trigger] text[i]) is Some
        },
{
    lemma_at_least_one_byte_each(text);
    lemma_nothing_to_trim(text);
    assert(named_color(text) == text);
    if written_color(text) is Some {
        let d = text.subrange(1, text.len() as int);
        let full = super::color::full_digits(d)->0;
        assert(text.len() == 7 || text.len() == 9 || text.len() == 4 || text.len() == 5);
        assert forall|i: int| 1 <= i < text.len() implies hex_value(#[trigger] text[i]) is Some by {
            assert(d[i - 1] == text[i]);
            assert(full[i - 1] == d[i - 1]);
        }
    }
}

/// The number of a colour of three channels and an alpha.
pub open spec fn channels(r: u8, g: u8, b: u8, a: u8) -> int {
    r * 0x100_0000 + g * 0x1_0000 + b * 0x100 + a
}

proof fn lemma_channels(r: u8, g: u8, b: u8, a: u8)
    ensures
        0 <= channels(r, g, b, a) <= u32::MAX,
        channels(r, g, b, a) / 0x100_0000 == r,
        channels(r, g, b, a) / 0x1_0000 % 0x100 == g,
        channels(r, g, b, a) / 0x100 % 0x100 == b,
{
    let n = channels(r, g, b, a);
    assert(n / 0x100 == r * 0x1_0000 + g * 0x100 + b);
    assert(n / 0x1_0000 == r * 0x100 + g);
}

/// A colour is light exactly if its strongest and its weakest channel come to more than
/// one whole together, whichever they are.
pub proof fn law_light_colors_are_light(most: u8, middle: u8, least: u8, a: u8, opacity: u32)
    requires
        least <= middle <= most,
    ensures
        light(Color { rgba: channels(most, middle, least, a) as u32, opacity }) <==> most + least
            > 255,
        light(Color { rgba: channels(most, least, middle, a) as u32, opacity }) <==> most + least
            > 255,
        light(Color { rgba: channels(middle, most, least, a) as u32, opacity }) <==> most + least
            > 255,
        light(Color { rgba: channels(middle, least, most, a) as u32, opacity }) <==> most + least
            > 255,
        light(Color { rgba: channels(least, most, middle, a) as u32, opacity }) <==> most + least
            > 255,
        light(Color { rgba: channels(least, middle, most, a) as u32, opacity }) <==> most + least
            > 255,
{
    lemma_channels(most, middle, least, a);
    lemma_channels(most, least, middle, a);
    lemma_channels(middle, most, least, a);
    lemma_channels(middle, least, most, a);
    lemma_channels(least, most, middle, a);
    lemma_channels(least, middle, most, a);
}

/// A theme has the name, the appearance and the style that its file gives it.
pub proof fn law_a_theme_is_what_its_file_says(config: ThemeConfig, fields: Vec<(String, Json)>)
    requires
        config_holds(config, Json::Object(fields)),
        is_config(Json::Object(fields)),
    ensures
        styled(fields@, "name"@) matches Some(Json::Text(name)) && name@ == config.name@,
        match styled(fields@, "style"@) {
            Some(Json::Object(style)) => style@ == config.style@,
            _ => false,
        },
        match styled(fields@, "appearance"@) {
            Some(Json::Text(mode)) => (mode@ == "dark"@ ==> config.appearance == ThemeMode::Dark)
                && (mode@ == "light"@ ==> config.appearance == ThemeMode::Light) && (mode@
                == "dark"@ || mode@ == "light"@),
            _ => true,
        },
{
    reveal_strlit("light");
    reveal_strlit("dark");
    assert("light"@.len() != "dark"@.len());
}

/// A family has the name and the author that its file gives it, and each of its themes
/// in its place.
pub proof fn law_a_family_is_what_its_file_says(
    family: ThemeFamily,
    fields: Vec<(String, Json)>,
    i: int,
)
    requires
        family_holds(family, Json::Object(fields)),
    ensures
        styled(fields@, "name"@) matches Some(Json::Text(name)) && name@ == family.name@,
        styled(fields@, "author"@) matches Some(Json::Text(author)) && author@ == family.author@,
        match styled(fields@, "themes"@) {
            Some(Json::Array(items)) => {
                &&& family.themes@.len() == items@.len()
                &&& 0 <= i < items@.len() ==> config_holds(family.themes@[i], items@[i])
            },
            _ => false,
        },
{
}

/// A file without a name, an appearance or a style is no theme, and one without a name,
/// an author or a list of themes is no family.
pub proof fn law_incomplete_files_are_refused(fields: Vec<(String, Json)>)
    ensures
        is_config(Json::Object(fields)) ==> {
            &&& styled(fields@, "name"@) matches Some(Json::Text(_))
            &&& styled(fields@, "style"@) matches Some(Json::Object(_))
            &&& styled(fields@, "appearance"@) is Some
        },
        is_family(Json::Object(fields)) ==> {
            &&& styled(fields@, "name"@) matches Some(Json::Text(_))
            &&& styled(fields@, "author"@) matches Some(Json::Text(_))
            &&& styled(fields@, "themes"@) matches Some(Json::Array(_))
        },
        is_vscode(Json::Object(fields)) ==> {
            styled(fields@, "colors"@) matches Some(Json::Object(_))
        },
{
}

/// A theme of VS Code has the name, the type and the base that its file gives it, and
/// its colours by their keys.
pub proof fn law_a_vscode_theme_is_what_its_file_says(
    theme: VsCodeTheme,
    fields: Vec<(String, Json)>,
    i: int,
)
    requires
        vscode_holds(theme, Json::Object(fields)),
    ensures
        match styled(fields@, "name"@) {
            Some(Json::Text(text)) => theme.name is Some && theme.name->0@ == text@,
            _ => theme.name is None,
        },
        match styled(fields@, "type"@) {
            Some(Json::Text(text)) => theme.appearance is Some && theme.appearance->0@ == text@,
            _ => theme.appearance is None,
        },
        match styled(fields@, "include"@) {
            Some(Json::Text(text)) => theme.base is Some && theme.base->0@ == text@,
            _ => theme.base is None,
        },
        match styled(fields@, "colors"@) {
            Some(Json::Object(colors)) => {
                &&& theme.colors@.len() == colors@.len()
                &&& 0 <= i < colors@.len() ==> theme.colors@[i].0@ == colors@[i].0@ && (
                match colors@[i].1 {
                    Json::Text(text) => theme.colors@[i].1 is Some && theme.colors@[i].1->0@
                        == text@,
                    _ => theme.colors@[i].1 is None,
                })
            },
            _ => false,
        },
        match styled(fields@, "tokenColors"@) {
            None | Some(Json::Null) => theme.token_colors is Absent,
            Some(Json::Text(_)) => theme.token_colors is External,
            Some(Json::Array(_)) => theme.token_colors is Rules || theme.token_colors is Misshapen,
            _ => theme.token_colors is Misshapen,
        },
{
    if let Some(Json::Object(colors)) = styled(fields@, "colors"@) {
        if 0 <= i < colors@.len() {
            assert(theme.colors@[i].0@ == colors@[i].0@);
        }
    }
}

/// A rule for tokens has the scope, the colour and the font that its file gives it; a
/// rule without a scope concerns everything.
pub proof fn law_a_rule_is_what_its_file_says(
    rule: TokenRule,
    fields: Vec<(String, Json)>,
    settings: Vec<(String, Json)>,
)
    requires
        rule_holds(rule, Json::Object(fields)),
        styled(fields@, "settings"@) == Some(Json::Object(settings)),
    ensures
        match styled(settings@, "foreground"@) {
            Some(Json::Text(text)) => rule.foreground is Some && rule.foreground->0@ == text@,
            _ => rule.foreground is None,
        },
        match styled(settings@, "fontStyle"@) {
            Some(Json::Text(text)) => rule.font_style is Some && rule.font_style->0@ == text@,
            _ => rule.font_style is None,
        },
        match styled(fields@, "scope"@) {
            None | Some(Json::Null) => rule.scope is All,
            Some(Json::Text(text)) => match rule.scope {
                TokenScope::Scopes(lists) => lists@.len() == 1 && lists@[0]@ == text@,
                _ => false,
            },
            _ => !(rule.scope is All),
        },
{
}

/// The link's colour says how it is: well, on its way, or lost.
pub proof fn law_the_links_color_says_how_it_is(colors: ThemeColors, state: ConnectionState)
    ensures
        state is Connected ==> Theme::severity(colors, state) == colors.success,
        state is Syncing ==> Theme::severity(colors, state) == colors.warning,
        state is Reconnecting ==> Theme::severity(colors, state) == colors.warning,
        state is Offline ==> Theme::severity(colors, state) == colors.danger,
{
}

/// A message's first line has no line end in it, and is followed by one or by nothing.
pub proof fn law_a_first_line_ends_at_a_line_end(text: Seq<char>)
    ensures
        first_line_len(text) <= text.len(),
        forall|i: int| 0 <= i < first_line_len(text) ==> #[trigger] text[i] != '\n',
        first_line_len(text) < text.len() ==> text[first_line_len(text) as int] == '\n' || (
        text[first_line_len(text) as int] == '\r' && first_line_len(text) + 1 < text.len()
            && text[first_line_len(text) as int + 1] == '\n'),
    decreases text.len(),
{
    if text.len() == 0 || text[0] == '\n' || (text.len() > 1 && text[0] == '\r' && text[1]
        == '\n') {
    } else {
        let rest = text.drop_first();
        law_a_first_line_ends_at_a_line_end(rest);
        assert forall|i: int| 0 <= i < first_line_len(text) implies #[trigger] text[i] != '\n' by {
            if i > 0 {
                assert(rest[i - 1] == text[i]);
            }
        }
    }
}

/// A file with a list of themes is read as a family, and any other as a theme of VS
/// Code; one that has the shape of neither is refused.
pub proof fn law_the_list_of_themes_tells_files_apart(
    read: Result<ThemeSource, ThemeError>,
    fields: Vec<(String, Json)>,
)
    requires
        source_holds(read, Json::Object(fields)),
    ensures
        styled(fields@, "themes"@) is Some ==> (match read {
            Ok(ThemeSource::Family(family)) => family_holds(family, Json::Object(fields)),
            Ok(ThemeSource::VsCode(_)) => false,
            Err(refusal) => refusal is Misshapen && !is_family(Json::Object(fields)),
        }),
        styled(fields@, "themes"@) is None ==> (match read {
            Ok(ThemeSource::VsCode(theme)) => vscode_holds(theme, Json::Object(fields)),
            Ok(ThemeSource::Family(_)) => false,
            Err(refusal) => refusal is Misshapen && !is_vscode(Json::Object(fields)),
        }),
{
}

/// Putting a value under a key changes what is found there, and nothing under any other
/// key.
pub proof fn law_a_value_is_put_under_its_key(
    style: Seq<(String, Json)>,
    key: Seq<char>,
    value: Json,
    other: Seq<char>,
)
    requires
        other != key,
    ensures
        put_style(style, key, value, key) == Some(value),
        put_style(style, key, value, other) == styled(style, other),
{
}

} // verus!
