//! Themes.
use std::rc::Rc;
use tcode_ui::protocol::{ConnectionFailure, ConnectionState, ThemePreference};
use tcode_ui::theme::color::{color_name, is_light, parse_color, rgb, Color, OPAQUE};
use tcode_ui::theme::config::{
    lookup, put, Json, Refusal, Style, ThemeConfig, ThemeError, ThemeFamily,
};
use tcode_ui::theme::editor::{apply, first_line};
use tcode_ui::theme::file::{read_theme, ThemeSource};
use tcode_ui::theme::import::{validate_family, Imported};
use tcode_ui::theme::registry::{ThemePreferences, Themes};
use tcode_ui::theme::resolve::{mono_font_family, resolve_theme};
use tcode_ui::theme::vscode::{
    convert, rule_scopes, TokenColors, TokenRule, TokenScope, VsCodeTheme,
};
use tcode_ui::theme::{ThemeMode, WindowAppearance};
use tcode_ui::window_seam::Platform;

const ANSI: [&str; 8] = [
    "black", "red", "green", "yellow", "blue", "magenta", "cyan", "white",
];

fn text(value: &str) -> Json {
    Json::Text(value.to_string())
}

fn style(entries: &[(&str, &str)]) -> Style {
    let mut style = Vec::new();
    for (key, value) in entries {
        put(&mut style, key.to_string(), text(value));
    }
    style
}

fn full_style(background: &str, accent: &str) -> Style {
    let mut full = style(&[
        ("background", background),
        ("text", "#101112"),
        ("text.accent", accent),
        ("error", "#c00000"),
        ("info", "#0000c0"),
        ("success", "#00c000"),
        ("warning", "#c0c000"),
    ]);
    for name in ANSI {
        put(&mut full, format!("terminal.ansi.{name}"), text("#010203"));
        put(&mut full, format!("terminal.ansi.bright_{name}"), text("#040506"));
    }
    full
}

fn config(name: &str, appearance: ThemeMode, style: Style) -> ThemeConfig {
    ThemeConfig {
        name: name.to_string(),
        appearance,
        style: Rc::new(style),
        syntax_error: None,
    }
}

fn bundle() -> ThemeFamily {
    ThemeFamily {
        name: "tcode".to_string(),
        author: "tcode".to_string(),
        themes: vec![
            config("tcode Light", ThemeMode::Light, full_style("#ffffff", "#1447E6")),
            config("tcode Dark", ThemeMode::Dark, full_style("#15171CC7", "#8ab4f8")),
        ],
    }
}

fn family(name: &str, themes: Vec<ThemeConfig>) -> ThemeFamily {
    ThemeFamily { name: name.to_string(), author: "Theme author".to_string(), themes }
}

const ZED: &str = r##"{
    // A single-appearance family with optional fields omitted or null.
    "name": "Test family", "author": "Theme author",
    "themes": [{"name":"Plum", "appearance":"dark", "style": {
        "background":"#201028", "editor.background":"#302038", "text.accent":"#ffff00",
        "text":"#eee", "border":null, "terminal.ansi.red":"#f08",
        "syntax":{"comment":{"color":"#8c9", "font_style":"italic"}},
        "players":[{"cursor":"#fff", "selection":"#4568"}],
        "panel.unused_setting":"preserved",
    }}],
}"##;

/// Import a file as an application does, with a highlighter that takes any object
/// for its colours.
fn import(themes: &mut Themes, source: &str) -> Result<Imported, ThemeError> {
    let (mut family, converted) = match read_theme(source)? {
        ThemeSource::Family(family) => (family, false),
        ThemeSource::VsCode(theme) => (converted(theme)?, true),
    };
    for theme in &mut family.themes {
        theme.syntax_error = match lookup(&theme.style, "syntax") {
            None | Some(Json::Null) | Some(Json::Object(_)) => None,
            Some(_) => Some("syntax must be an object".to_string()),
        };
    }
    themes.import(family, converted)
}

fn theme_syntax<'a>(themes: &'a Themes, category: &str, field: &str) -> Option<&'a str> {
    syntax_in(&themes.current.style, category, field)
}

fn color(value: &str) -> Color {
    parse_color(value).unwrap()
}

#[test]
fn machine_connection_dots_preserve_severity() {
    let themes = Themes::init(bundle()).unwrap();
    for theme in &themes.available {
        for (state, expected) in [
            (ConnectionState::Connected, theme.colors.success),
            (ConnectionState::Syncing, theme.colors.warning),
            (
                ConnectionState::Reconnecting {
                    attempt: 1,
                    reason: Some(ConnectionFailure::Unreachable),
                },
                theme.colors.warning,
            ),
            (
                ConnectionState::Offline { reason: ConnectionFailure::AuthenticationRejected },
                theme.colors.danger,
            ),
        ] {
            assert_eq!(theme.connection_color(&state), expected);
        }
        assert_ne!(theme.colors.success, theme.colors.warning);
        assert_ne!(theme.colors.warning, theme.colors.danger);
        assert_ne!(theme.colors.success, theme.colors.danger);
    }
}

#[test]
fn parses_embedded_tcode_themes() {
    let themes = Themes::init(bundle()).unwrap();
    assert_eq!(themes.available[0].theme_name(), "tcode Light");
    assert_eq!(themes.available[1].theme_name(), "tcode Dark");
    assert_eq!(themes.available[0].colors.primary, color("#1447E6"));
    assert_eq!(themes.available[1].colors.background, color("#15171CC7"));
    assert_eq!(tcode_ui::theme::resolve::RADIUS, 10);
}

#[test]
fn imported_theme_survives_selection_restore_and_failed_replacement() {
    let mut themes = Themes::init_with_options(bundle(), true).unwrap();
    assert_eq!(
        import(&mut themes, ZED).ok().unwrap(),
        Imported { converted: false, mode: ThemeMode::Dark }
    );
    themes.change_mode(ThemeMode::Dark);
    assert_eq!(themes.current.colors.content_surface, color("#302038"));
    assert_eq!(themes.current.terminal.ansi[1], color("#ff0088"));
    assert_eq!(themes.current.colors.selection, color("#44556688"));
    assert_eq!(themes.current.terminal.cursor, color("#ffffff"));
    assert_eq!(themes.current.terminal.ansi[0], color("#010203"));
    assert_eq!(theme_syntax(&themes, "comment", "color"), Some("#8c9"));
    assert_eq!(theme_syntax(&themes, "comment", "font_style"), Some("italic"));
    let revision = themes.current.revision;
    let exported = themes.export_selected().unwrap();
    assert_eq!(exported.author, "Theme author");
    assert!(matches!(
        lookup(&exported.themes[0].style, "panel.unused_setting"),
        Some(Json::Text(kept)) if kept == "preserved"
    ));
    assert!(themes.is_custom());

    assert!(matches!(
        import(&mut themes, &ZED.replace("#201028", "not a color")),
        Err(Refusal::InvalidColor { value }) if value == "not a color"
    ));
    assert_eq!(themes.preferences.families.len(), 1);
    assert_eq!(themes.preferences.dark.as_deref(), Some("Plum"));
    assert_eq!(themes.current.theme_name, "Plum");

    themes.select(ThemeMode::Dark, "tcode Dark".to_string());
    themes.change_mode(ThemeMode::Dark);
    assert_eq!(themes.current.theme_name, "tcode Dark");
    assert_ne!(theme_syntax(&themes, "comment", "color"), Some("#8c9"));
    assert!(!themes.is_custom());
    assert!(themes.current.revision > revision);

    let mut saved = ThemePreferences::default();
    saved.families = vec![exported];
    saved.dark = Some("Plum".to_string());
    themes.restore_preferences(Some(saved));
    themes.change_mode(ThemeMode::Dark);
    assert_eq!(themes.current.theme_name, "Plum");
    assert_eq!(theme_syntax(&themes, "comment", "color"), Some("#8c9"));
    themes.remove_selected();
    themes.change_mode(ThemeMode::Dark);
    assert_eq!(themes.current.theme_name, "tcode Dark");
    assert!(themes.preferences.families.is_empty());
    assert_eq!(themes.preferences.dark, None);
}

#[test]
fn a_family_replaces_themes_of_the_same_names() {
    let mut themes = Themes::init(bundle()).unwrap();
    let both = family("a", vec![
        config("One", ThemeMode::Light, style(&[])),
        config("Two", ThemeMode::Light, style(&[])),
    ]);
    themes.import(both, false).ok().unwrap();
    assert_eq!(themes.preferences.light.as_deref(), Some("Two"), "the last one is chosen");
    let one = family("b", vec![config("One", ThemeMode::Light, style(&[("text", "#123456")]))]);
    let imported = themes.import(one, true).ok().unwrap();
    assert!(imported.converted);
    let names: Vec<Vec<String>> = themes
        .preferences
        .families
        .iter()
        .map(|family| family.themes.iter().map(|theme| theme.name.clone()).collect())
        .collect();
    assert_eq!(names, vec![vec!["Two".to_string()], vec!["One".to_string()]]);
    assert_eq!(themes.choices(ThemeMode::Light), ["tcode Light", "Two", "One"]);
    assert_eq!(themes.choices(ThemeMode::Dark), ["tcode Dark"]);
    assert_eq!(themes.selected_name(ThemeMode::Light), "One");
    assert_eq!(themes.selected(ThemeMode::Light).colors.foreground, color("#123456"));
    let two = family("c", vec![config("Two", ThemeMode::Dark, style(&[]))]);
    let imported = themes.import(two, false).ok().unwrap();
    assert_eq!(imported.mode, ThemeMode::Dark);
    assert_eq!(themes.preferences.families.len(), 2, "an emptied family goes");
    themes.reset_selection();
    assert_eq!(themes.selected_name(ThemeMode::Light), "tcode Light");
}

#[test]
fn families_are_refused_for_what_is_wrong_with_them() {
    let bundle = bundle();
    let refusal = |themes: Vec<ThemeConfig>| validate_family(&family("f", themes), &bundle).err();
    let plain = |name: &str| config(name, ThemeMode::Light, style(&[]));
    assert!(matches!(refusal(vec![]), Some(Refusal::EmptyFamily)));
    assert!(matches!(refusal(vec![plain(" \t")]), Some(Refusal::EmptyName)));
    assert!(matches!(
        refusal(vec![plain("x"), plain("x")]),
        Some(Refusal::Duplicate { name }) if name == "x"
    ));
    assert!(matches!(
        refusal(vec![plain("tcode Dark")]),
        Some(Refusal::BuiltIn { name }) if name == "tcode Dark"
    ));
    let mut loud = plain("x");
    loud.syntax_error = Some("syntax must be an object".to_string());
    assert!(matches!(
        refusal(vec![loud]),
        Some(Refusal::Syntax { message }) if message == "syntax must be an object"
    ));
    let mut wrong = plain("x");
    wrong.style = Rc::new(vec![("text".to_string(), Json::Bool(true))]);
    assert!(matches!(
        refusal(vec![wrong]),
        Some(Refusal::MustBeColor { key }) if key == "text"
    ));
    assert!(refusal(vec![plain("x"), plain("y")]).is_none());
    let mut themes = Themes::init(bundle.clone_for_test()).unwrap();
    assert!(themes.import(family("empty", vec![]), false).is_err());
    assert!(themes.preferences.families.is_empty());
}

trait CloneForTest {
    fn clone_for_test(&self) -> Self;
}

impl CloneForTest for ThemeFamily {
    fn clone_for_test(&self) -> Self {
        ThemeFamily {
            name: self.name.clone(),
            author: self.author.clone(),
            themes: self.themes.clone(),
        }
    }
}

#[test]
fn unset_colors_come_from_others_or_from_the_bundle() {
    let bundled = full_style("#ffffff", "#1447e6");
    let theme = resolve_theme(
        &config("x", ThemeMode::Light, style(&[("text", "#808080")])),
        &bundled,
    )
    .ok()
    .unwrap();
    let faded = |percent: u32| Color { rgba: 0x808080ff, opacity: percent * (OPAQUE / 100) };
    assert_eq!(theme.colors.foreground, faded(100));
    assert_eq!(theme.colors.secondary, faded(6));
    assert_eq!(theme.colors.accent, faded(6));
    assert_eq!(theme.colors.muted_foreground, faded(65));
    assert_eq!(theme.colors.border, faded(12));
    assert_eq!(theme.colors.input, faded(12));
    assert_eq!(theme.colors.scrollbar_thumb, faded(20));
    assert_eq!(theme.colors.scrollbar_thumb_hover, faded(35));
    assert_eq!(theme.colors.scrollbar, Color { rgba: 0xffffffff, opacity: 0 });
    assert_eq!(theme.colors.selection, Color { rgba: 0x1447e6ff, opacity: 30_000_000 });
    assert_eq!(theme.colors.list_active, theme.colors.selection);
    assert_eq!(theme.colors.ring, color("#1447e6"));
    assert_eq!(theme.colors.danger_foreground, color("#c00000"));
    assert_eq!(theme.terminal.background, color("#fff"));
    assert_eq!(theme.terminal.cursor, faded(100));
    assert_eq!(theme.fast_mode_accent(), rgb(0xF5A524));
    let bare = resolve_theme(&config("x", ThemeMode::Light, style(&[])), &style(&[]));
    assert!(matches!(bare, Err(Refusal::MustBeColor { key }) if key == "background"));
}

#[test]
fn colors_are_read_in_their_four_forms() {
    assert_eq!(parse_color("#f08"), Some(Color { rgba: 0xff0088ff, opacity: OPAQUE }));
    assert_eq!(parse_color("#4568"), Some(Color { rgba: 0x44556688, opacity: OPAQUE }));
    assert_eq!(parse_color(" #15171CC7 "), Some(Color { rgba: 0x15171cc7, opacity: OPAQUE }));
    assert_eq!(parse_color("#302038"), Some(rgb(0x302038)));
    for wrong in ["", "#", "302038", "#30203", "#30203g", "##30203", "#3020388", "not a color"] {
        assert_eq!(parse_color(wrong), None, "{wrong}");
    }
    // Short digits are written out before white space is left aside.
    assert_eq!(parse_color("#12 "), Some(Color { rgba: 0x11112222, opacity: OPAQUE }));
    assert_eq!(parse_color("#123 "), Some(rgb(0x112233)));
    assert_eq!(parse_color(" #12"), None);
    assert_eq!(parse_color("#12  "), parse_color("#1122"));
    assert!(is_light(color("#fafafa")) && !is_light(color("#201028")));
    assert!(!is_light(color("#00ff00")) && is_light(color("#01ff01")));
    assert_eq!(rgb(0x010203).opacity(50), Color { rgba: 0x010203ff, opacity: OPAQUE / 2 });
    assert_eq!(rgb(0x010203).opacity(50).opacity(100).opacity, OPAQUE / 2);
    assert_eq!(rgb(0x010203).opacity(6).opacity(10).opacity, 600_000, "0.6 %");
    assert_eq!(rgb(0x010203).opacity(1).opacity(1).opacity(1).opacity(1).opacity, 1);
}

#[test]
fn refused_short_colors_are_named_by_their_doubled_digits() {
    assert_eq!(color_name("#xyz"), "#xxyyzz");
    assert_eq!(color_name("#12g4"), "#1122gg44");
    assert_eq!(color_name("#\u{e9}1"), "#\u{e9}\u{e9}11", "lengths are those of bytes");
    assert_eq!(color_name("#\u{e9}\u{e9}1"), "#\u{e9}\u{e9}1");
    assert_eq!(color_name("#12345g"), "#12345g");
    assert_eq!(color_name(" #xyz"), " #xyz");
    assert_eq!(color_name("blue"), "blue");
    assert_eq!(color_name(""), "");
    let short = config("x", ThemeMode::Light, style(&[("text", "#xyz")]));
    assert!(matches!(
        resolve_theme(&short, &full_style("#ffffff", "#1447e6")),
        Err(Refusal::InvalidColor { value }) if value == "#xxyyzz"
    ));
    let colors = vec![("focusBorder".to_string(), Some("#xyz".to_string()))];
    assert!(matches!(
        converted(VsCodeTheme { colors, ..paper() }),
        Err(Refusal::InvalidColor { value }) if value == "#xxyyzz"
    ));
}

#[test]
fn a_null_color_is_an_omitted_one() {
    let bundled = full_style("#ffffff", "#1447e6");
    let mut nulls = style(&[("text", "#808080")]);
    for key in ["border", "background", "text.accent", "players", "terminal.ansi.red"] {
        put(&mut nulls, key.to_string(), Json::Null);
    }
    let with = resolve_theme(&config("x", ThemeMode::Light, nulls), &bundled).ok().unwrap();
    let without =
        resolve_theme(&config("x", ThemeMode::Light, style(&[("text", "#808080")])), &bundled)
            .ok()
            .unwrap();
    assert_eq!(format!("{:?}", with.colors), format!("{:?}", without.colors));
    assert_eq!(with.terminal.ansi, without.terminal.ansi);
    assert_eq!(with.terminal.cursor, without.terminal.cursor);
    let empty = resolve_theme(&config("x", ThemeMode::Light, style(&[])), &bundled).ok().unwrap();
    assert_eq!(empty.colors.background, color("#ffffff"));
    assert_eq!(empty.mode, ThemeMode::Light);
    assert_eq!(empty.theme_name, "x");
}

fn paper() -> VsCodeTheme {
    VsCodeTheme {
        name: Some("Paper".to_string()),
        appearance: Some("light".to_string()),
        colors: vec![
            ("editor.background".to_string(), Some("#fafafa".to_string())),
            ("terminal.ansiBlue".to_string(), Some("#234567".to_string())),
            ("terminal.ansiBrightRed".to_string(), Some("#765432".to_string())),
            ("foreground".to_string(), None),
        ],
        token_colors: TokenColors::Rules(vec![
            TokenRule {
                scope: TokenScope::Scopes(vec!["comment".to_string()]),
                foreground: Some("#456789".to_string()),
                font_style: Some("italic bold".to_string()),
            },
            TokenRule {
                scope: TokenScope::Scopes(vec![
                    "string.quoted".to_string(),
                    "constant.character.escape".to_string(),
                ]),
                foreground: Some("#987654".to_string()),
                font_style: None,
            },
        ]),
        base: None,
    }
}

fn category(scope: &str) -> Option<String> {
    match scope {
        "comment" => Some("comment".to_string()),
        "constant.character.escape" => Some("string.escape".to_string()),
        _ if scope.starts_with("string") => Some("string".to_string()),
        _ => None,
    }
}

fn categories(theme: &VsCodeTheme) -> Vec<Vec<Option<String>>> {
    match &theme.token_colors {
        TokenColors::Rules(rules) => rules
            .iter()
            .map(|rule| rule_scopes(&rule.scope).iter().map(|scope| category(scope)).collect())
            .collect(),
        _ => Vec::new(),
    }
}

fn converted(theme: VsCodeTheme) -> Result<ThemeFamily, ThemeError> {
    let categories = categories(&theme);
    convert(&theme, &categories)
}

fn syntax<'a>(family: &'a ThemeFamily, category: &str, field: &str) -> Option<&'a str> {
    syntax_in(&family.themes[0].style, category, field)
}

fn syntax_in<'a>(style: &'a Style, category: &str, field: &str) -> Option<&'a str> {
    let Some(Json::Object(syntax)) = lookup(style, "syntax") else {
        return None;
    };
    let Some(Json::Object(entry)) = lookup(syntax, category) else {
        return None;
    };
    match lookup(entry, field) {
        Some(Json::Text(value)) | Some(Json::Number(value)) => Some(value),
        _ => None,
    }
}

#[test]
fn vscode_import_converts_light_palette_scopes_and_styles() {
    let mut themes = Themes::init(bundle()).unwrap();
    let source = r##"{
        "name":"Paper", "type":"light",
        "colors":{"editor.background":"#fafafa", "terminal.ansiBlue":"#234567"},
        "tokenColors":[
            {"scope":"comment", "settings":{"foreground":"#456789", "fontStyle":"italic bold"}},
            {"scope":["string.quoted", "constant.character.escape"], "settings":{"foreground":"#987654"}},
        ],
        "semanticTokenColors":{"variable.readonly":"#abcdef"}
    }"##;
    assert_eq!(
        import(&mut themes, source).ok().unwrap(),
        Imported { converted: true, mode: ThemeMode::Light }
    );
    themes.change_mode(ThemeMode::Light);
    assert_eq!(themes.current.theme_name, "Paper");
    assert_eq!(themes.current.colors.background, color("#fafafa"));
    assert_eq!(themes.current.terminal.ansi[4], color("#234567"));
    assert_eq!(theme_syntax(&themes, "comment", "color"), Some("#456789"));
    assert_eq!(theme_syntax(&themes, "comment", "font_weight"), Some("700"));
    assert_eq!(theme_syntax(&themes, "comment", "font_style"), Some("italic"));
    assert_eq!(theme_syntax(&themes, "string.escape", "color"), Some("#987654"));
    assert_eq!(theme_syntax(&themes, "string.escape", "font_weight"), None);
    for source in [
        r#"{"type":"dark","colors":{},"include":"./base.json"}"#,
        r#"{"type":"dark","colors":{},"tokenColors":"./syntax.tmTheme"}"#,
        r#"{"name":"empty","author":"a","themes":[]}"#,
        r#"{"name":"wrong","author":"a","themes":[{"name":"x","appearance":"dark","style":{"syntax":42}}]}"#,
    ] {
        assert!(import(&mut themes, source).is_err(), "{source}");
        assert_eq!(themes.preferences.families.len(), 1);
        assert_eq!(themes.preferences.light.as_deref(), Some("Paper"));
        assert_eq!(themes.preferences.dark, None);
    }
}

#[test]
fn files_are_refused_that_are_not_shaped_like_themes() {
    assert!(matches!(
        read_theme("{"),
        Err(Refusal::Malformed { message }) if message.contains("EOF")
    ));
    let family = |theme: &str| format!(r#"{{"themes":[{theme}],"name":"n","author":"a"}}"#);
    for source in [
        r#"{"themes":[]}"#.to_string(),
        r#"{"themes":[],"name":"n"}"#.to_string(),
        r#"{"themes":null,"name":"n","author":"a"}"#.to_string(),
        family("1"),
        family("{}"),
        family(r#"{"name":"x","appearance":"sepia"}"#),
        family(r#"{"name":"x","appearance":"dark"}"#),
        family(r#"{"name":"x","appearance":{"dark":1},"style":{}}"#),
        family(r#"{"name":"x","appearance":{"dark":null,"light":null},"style":{}}"#),
        family(r#"["x","dark"]"#),
        family(r#"["x","dark",{},1]"#),
        "[]".to_string(),
        r#"{"colors":{"a":1}}"#.to_string(),
        r#"{"colors":{},"name":1}"#.to_string(),
        r#"{"colors":{},"type":1}"#.to_string(),
        r#"{"colors":{},"include":1}"#.to_string(),
        r#"["n","dark",{},null]"#.to_string(),
    ] {
        assert!(matches!(read_theme(&source), Err(Refusal::Misshapen)), "{source}");
    }
    let refusal: ThemeError = Refusal::Misshapen;
    assert!(matches!(
        refusal.worded("missing field".to_string()),
        Refusal::Malformed { message } if message == "missing field"
    ));
    let refusal: ThemeError = Refusal::EmptyName;
    assert!(matches!(refusal.worded("missing field".to_string()), Refusal::EmptyName));
    let tokens = |tokens: &str| match read_theme(&format!(
        r#"{{"colors":{{}},"type":"dark","tokenColors":{tokens}}}"#
    )) {
        Ok(ThemeSource::VsCode(theme)) => converted(theme).err(),
        _ => panic!("{tokens}"),
    };
    for source in [
        "1",
        "[1]",
        r#"[{}]"#,
        r#"[{"settings":{"foreground":1}}]"#,
        r#"[{"settings":{"fontStyle":1}}]"#,
        r#"[[null]]"#,
        r#"[[null,[null]]]"#,
    ] {
        assert!(matches!(tokens(source), Some(Refusal::Misshapen)), "{source}");
    }
    assert!(matches!(
        tokens(r#"[{"scope":["a",1],"settings":{}}]"#),
        Some(Refusal::ScopeMustBeString)
    ));
    assert!(matches!(
        tokens(r#"[{"scope":1,"settings":{}}]"#),
        Some(Refusal::ScopeMustBeStringOrArray)
    ));
    assert!(tokens(r#"[{"scope":null,"settings":{"foreground":null}}]"#).is_none());
    assert!(tokens("null").is_none());
}

#[test]
fn structures_may_be_arrays_and_modes_objects() {
    let Ok(ThemeSource::Family(family)) = read_theme(
        r##"{"name":"n","author":"a","themes":[
            ["One", "dark", {"text":"#123456"}],
            {"name":"Two", "appearance":{"light":null}, "style":{}, "more":1},
        ]}"##,
    ) else {
        panic!("unreadable");
    };
    assert_eq!(family.themes[0].name, "One");
    assert_eq!(family.themes[0].appearance, ThemeMode::Dark);
    assert!(matches!(
        lookup(&family.themes[0].style, "text"),
        Some(Json::Text(color)) if color == "#123456"
    ));
    assert_eq!(family.themes[1].name, "Two");
    assert_eq!(family.themes[1].appearance, ThemeMode::Light);
    let Ok(ThemeSource::VsCode(theme)) = read_theme(
        r##"["Paper", "light", {"focusBorder":"#111111"},
            [["comment", ["#222222", null]], [null, {"fontStyle":"bold"}]], null]"##,
    ) else {
        panic!("unreadable");
    };
    assert_eq!(theme.name.as_deref(), Some("Paper"));
    assert_eq!(theme.appearance.as_deref(), Some("light"));
    assert_eq!(theme.base, None);
    assert_eq!(theme.colors, [("focusBorder".to_string(), Some("#111111".to_string()))]);
    let TokenColors::Rules(rules) = theme.token_colors else {
        panic!("no rules");
    };
    assert!(matches!(&rules[0].scope, TokenScope::Scopes(scopes) if scopes == &["comment"]));
    assert_eq!(rules[0].foreground.as_deref(), Some("#222222"));
    assert_eq!(rules[0].font_style, None);
    assert!(matches!(rules[1].scope, TokenScope::All));
    assert_eq!(rules[1].font_style.as_deref(), Some("bold"));
}

#[test]
fn numbers_keep_their_digits() {
    let Ok(ThemeSource::Family(family)) = read_theme(
        r#"{"name":"n","author":"a","themes":[{"name":"x","appearance":"light",
            "style":{"a":12,"b":true,"c":[null]}}]}"#,
    ) else {
        panic!("unreadable");
    };
    let style = &family.themes[0].style;
    assert!(matches!(lookup(style, "a"), Some(Json::Number(digits)) if digits == "12"));
    assert!(matches!(lookup(style, "b"), Some(Json::Bool(true))));
    assert!(matches!(lookup(style, "c"), Some(Json::Array(items)) if items.len() == 1));
}

#[test]
fn vscode_themes_are_refused_for_what_is_wrong_with_them() {
    let refused = |theme: VsCodeTheme| converted(theme).err().unwrap();
    assert!(matches!(
        refused(VsCodeTheme { base: Some("./base.json".to_string()), ..paper() }),
        Refusal::ExternalReference
    ));
    assert!(matches!(
        refused(VsCodeTheme { token_colors: TokenColors::External, ..paper() }),
        Refusal::ExternalReference
    ));
    assert!(matches!(
        refused(VsCodeTheme { appearance: Some("sepia".to_string()), ..paper() }),
        Refusal::UnsupportedType { appearance } if appearance == "sepia"
    ));
    assert!(matches!(
        refused(VsCodeTheme { appearance: None, colors: vec![], ..paper() }),
        Refusal::UnknownAppearance
    ));
    let bad = |key: &str| vec![(key.to_string(), Some("red".to_string()))];
    for key in [
        "focusBorder",
        "terminal.ansiBrightWhite",
        "editor.selectionBackground",
        "editorCursor.foreground",
    ] {
        assert!(matches!(
            refused(VsCodeTheme { colors: bad(key), ..paper() }),
            Refusal::InvalidColor { value } if value == "red"
        ));
    }
    assert!(matches!(
        refused(VsCodeTheme {
            token_colors: TokenColors::Misshapen,
            ..paper()
        }),
        Refusal::Misshapen
    ));
    let rule = |scope, foreground: Option<&str>| {
        TokenColors::Rules(vec![TokenRule {
            scope,
            foreground: foreground.map(str::to_string),
            font_style: None,
        }])
    };
    assert!(matches!(
        refused(VsCodeTheme { token_colors: rule(TokenScope::NotAllText, None), ..paper() }),
        Refusal::ScopeMustBeString
    ));
    assert!(matches!(
        refused(VsCodeTheme { token_colors: rule(TokenScope::Other, None), ..paper() }),
        Refusal::ScopeMustBeStringOrArray
    ));
    assert!(matches!(
        refused(VsCodeTheme { token_colors: rule(TokenScope::All, Some("red")), ..paper() }),
        Refusal::InvalidColor { .. }
    ));
}

#[test]
fn longer_scopes_win_and_later_rules_break_ties() {
    let rule = |scope: &str, color: &str| TokenRule {
        scope: TokenScope::Scopes(vec![scope.to_string()]),
        foreground: Some(color.to_string()),
        font_style: None,
    };
    let themed = |rules| {
        converted(VsCodeTheme { token_colors: TokenColors::Rules(rules), ..paper() }).ok().unwrap()
    };
    let family = themed(vec![rule("string.quoted", "#111111"), rule("string", "#222222")]);
    assert_eq!(syntax(&family, "string", "color"), Some("#111111"));
    let family = themed(vec![rule("string", "#111111"), rule("string", "#222222")]);
    assert_eq!(syntax(&family, "string", "color"), Some("#222222"));
    let family = themed(vec![rule("string , comment, not this", "#333333")]);
    assert_eq!(syntax(&family, "string", "color"), Some("#333333"));
    assert_eq!(syntax(&family, "comment", "color"), Some("#333333"));
    assert_eq!(
        rule_scopes(&TokenScope::Scopes(vec!["a, b c ,,d".to_string()])),
        ["a", "", "d"]
    );
    let family = themed(vec![
        TokenRule { scope: TokenScope::All, foreground: Some("#010101".to_string()), font_style: None },
        TokenRule { scope: TokenScope::All, foreground: Some("#020202".to_string()), font_style: None },
    ]);
    assert!(matches!(
        lookup(&family.themes[0].style, "editor.foreground"),
        Some(Json::Text(color)) if color == "#010101"
    ));
}

#[test]
fn unnamed_dark_themes_are_told_by_their_background() {
    let dark = VsCodeTheme {
        name: Some(" ".to_string()),
        appearance: None,
        colors: vec![
            ("editor.background".to_string(), Some("#101010".to_string())),
            ("editorCursor.foreground".to_string(), Some("#ff0000".to_string())),
        ],
        token_colors: TokenColors::Absent,
        base: None,
    };
    let family = converted(dark).ok().unwrap();
    assert_eq!(family.name, "Imported VS Code Theme");
    assert_eq!(family.author, "");
    assert_eq!(family.themes[0].appearance, ThemeMode::Dark);
    let Some(Json::Array(players)) = lookup(&family.themes[0].style, "players") else {
        panic!("no players");
    };
    let Json::Object(player) = &players[0] else {
        panic!("no player");
    };
    assert!(matches!(lookup(player, "cursor"), Some(Json::Text(color)) if color == "#ff0000"));
    assert!(lookup(player, "selection").is_none());
}

#[test]
fn bundled_themes_are_exported_under_another_name() {
    let themes = Themes::init(bundle()).unwrap();
    let file = themes.export_selected().unwrap();
    assert_eq!(file.name, "tcode Light Custom");
    assert_eq!(file.themes[0].name, "tcode Light Custom");
    assert_eq!(file.author, "tcode");
    let mut themes = themes;
    themes.current.theme_name = "gone".to_string();
    assert!(themes.export_selected().is_none());
}

#[test]
fn a_bundle_needs_a_light_and_a_dark_theme_that_resolve() {
    assert!(Themes::init(family("x", vec![])).is_none());
    let mut broken = bundle();
    broken.themes[1].style = Rc::new(style(&[("text", "blue")]));
    assert!(Themes::init(broken).is_none());
    // A saved theme that does not resolve is left out.
    let mut themes = Themes::init(bundle()).unwrap();
    let mut saved = ThemePreferences::default();
    saved.families = vec![family("f", vec![config(
        "Bad",
        ThemeMode::Dark,
        style(&[("text", "blue")]),
    )])];
    themes.restore_preferences(Some(saved));
    assert_eq!(themes.available.len(), 2);
    themes.restore_preferences(None);
    assert!(themes.preferences.families.is_empty());
}

#[test]
fn themes_follow_the_platform() {
    let mut themes = Themes::init(bundle()).unwrap();
    assert_eq!(themes.current.mode, ThemeMode::Light);
    themes.sync_system_appearance(WindowAppearance::VibrantDark);
    assert_eq!(themes.current.mode, ThemeMode::Dark);
    assert_eq!(themes.current.revision, 2);
    assert_eq!(ThemeMode::default().name(), "light");
    assert!(ThemeMode::Dark.is_dark());
    assert_eq!(mono_font_family(Platform::Ios), "Lilex");
    assert_eq!(mono_font_family(Platform::Linux), "SF Mono");
}

#[test]
fn importing_changes_the_appearance_only_where_it_must() {
    let imported = Imported { converted: true, mode: ThemeMode::Dark };
    let applied = apply(imported, ThemeMode::Dark, ThemePreference::System);
    assert_eq!(applied.set_client_theme, None);
    assert_eq!(applied.apply, ThemePreference::System);
    assert!(applied.converted);
    let applied = apply(imported, ThemeMode::Light, ThemePreference::System);
    assert_eq!(applied.set_client_theme, Some(ThemePreference::Dark));
    assert_eq!(applied.apply, ThemePreference::Dark);
    assert_eq!(first_line("one\r\ntwo"), "one");
    assert_eq!(first_line("one\rtwo\nthree"), "one\rtwo");
    assert_eq!(first_line(""), "");
}
