//! Controls.
use tcode_ui::geometry::Edges;
use tcode_ui::protocol::PixelBits;
use tcode_ui::terminal::drawer::MouseButton;
use tcode_ui::theme::color::{rgb, Color};
use tcode_ui::theme::resolve::ThemeColors;
use tcode_ui::utf16::count_utf16;
use tcode_ui::widgets::button::{
    Button, ButtonBox, ButtonRounded, ButtonVariant, ButtonVariants, Corners, IconSize, Size,
};
use tcode_ui::widgets::controls::{
    Checkbox, Extent, Progress, Switch, Tooltip, TooltipContent, WHOLE,
};
use tcode_ui::widgets::field::{
    changed_selection, selection_menu, text_length_utf16, EditorState, FieldBox, Input,
    TextInputAction, TextSize, Textarea,
};
use tcode_ui::widgets::menu::{MenuItem, MenuOutcome, PopupMenu};
use tcode_ui::widgets::popover::{
    max_sheet_height, sheet_mounted, trigger_selected, Anchor, Popover,
};
use tcode_ui::widgets::word::{select_word_at, ByteRange, HoldOutcome};

fn colors() -> ThemeColors {
    let c = |value| rgb(value);
    ThemeColors {
        accent: c(1),
        background: c(2),
        content_surface: c(3),
        editor_foreground: c(4),
        border: c(5),
        danger: c(6),
        danger_active: c(7),
        danger_foreground: c(8),
        foreground: c(9),
        info: c(10),
        info_foreground: c(11),
        input: c(12),
        link: c(13),
        list_active: c(14),
        list_hover: c(15),
        muted: c(16),
        muted_foreground: c(17),
        popover: c(18),
        primary: c(19),
        ring: c(20),
        scrollbar: c(21),
        scrollbar_thumb: c(22),
        scrollbar_thumb_hover: c(23),
        secondary: c(24),
        secondary_active: c(25),
        selection: c(26),
        sidebar: c(27),
        sidebar_accent: c(28),
        sidebar_foreground: c(29),
        success: c(30),
        success_foreground: c(31),
        tab_active: c(32),
        warning: c(33),
        warning_foreground: c(34),
    }
}

fn faded(value: u32, percent: u32) -> Color {
    Color { opacity: percent * 1_000_000, ..rgb(value) }
}

fn name(text: &str) -> String {
    text.to_string()
}

#[test]
fn buttons_take_the_colors_of_their_variant() {
    let on_primary = rgb(99);
    let look = |button: Button| button.render(&colors(), on_primary).colors;
    let plain = look(Button::new(name("b")));
    assert_eq!((plain.background, plain.border), (rgb(2), rgb(12)));
    let primary = look(Button::new(name("b")).primary());
    assert_eq!((primary.foreground, primary.hover), (on_primary, faded(19, 85)));
    let danger = look(Button::new(name("b")).danger());
    assert_eq!((danger.background, danger.foreground), (faded(6, 20), rgb(6)));
    let success = look(Button::new(name("b")).success());
    assert_eq!((success.hover, success.border), (faded(30, 30), rgb(30)));
    let secondary = look(Button::new(name("b")).secondary());
    assert_eq!((secondary.background, secondary.hover), (rgb(24), rgb(25)));
    let ghost = look(Button::new(name("b")).ghost());
    assert_eq!((ghost.background, ghost.border), (faded(2, 0), rgb(5)));
    let text = look(Button::new(name("b")).text());
    assert_eq!((text.foreground, text.border), (faded(9, 90), faded(2, 0)));
    let outlined = look(Button::new(name("b")).primary().outline());
    assert_eq!((outlined.background, outlined.foreground), (faded(19, 10), rgb(19)));
    let mut theme = colors();
    theme.secondary = faded(9, 6);
    let outlined = Button::new(name("b")).secondary().outline().render(&theme, on_primary).colors;
    assert_eq!(outlined.background, Color { opacity: 600_000, ..rgb(9) }, "0.6 %");
    assert_eq!(ButtonVariant::default(), ButtonVariant::Default);
}

#[test]
fn buttons_take_their_shape_from_what_they_hold() {
    let view = |button: Button| button.render(&colors(), rgb(0));
    let icon = view(Button::new(name("b")).icon(name("close")).with_size(Size::XSmall));
    assert!(icon.icon_only && icon.tight && icon.bordered);
    assert_eq!(icon.shape, ButtonBox::Square(5));
    let row = view(Button::new(name("b")).label(name("Save")).compact());
    assert_eq!(row.shape, ButtonBox::WideRow { height: 8, padding_pixels: 8 });
    let row = view(Button::new(name("b")).label(name("Save")));
    assert_eq!(row.shape, ButtonBox::WideRow { height: 8, padding_pixels: 10 });
    let small = view(Button::new(name("b")).label(name("Save")).with_size(Size::Small));
    assert_eq!(small.shape, ButtonBox::Row { height: 6, padding: 2 });
    assert_eq!(view(Button::new(name("b")).label(name("x")).text()).shape, ButtonBox::Inline);
    let sized = Size::Size(PixelBits(7));
    assert_eq!(
        view(Button::new(name("b")).with_size(sized)).shape,
        ButtonBox::SquareOf(PixelBits(7))
    );
    let busy = view(Button::new(name("b")).icon(name("run")).loading(true));
    assert!(busy.disabled && busy.spinner);
    assert!(!view(Button::new(name("b")).loading(true)).spinner);
    assert!(view(Button::new(name("b")).disabled(true)).disabled);
    assert!(!view(Button::new(name("b")).ghost()).bordered);
    assert_eq!((busy.opacity, icon.opacity), (50, 100));
    assert_eq!(icon.icon_size, IconSize::Of(Size::XSmall));
    assert_eq!(
        view(Button::new(name("b")).with_size(sized)).icon_size,
        IconSize::ThreeQuartersOf(PixelBits(7))
    );
}

#[test]
fn selected_and_rounded_buttons_look_it() {
    let view = |button: Button| button.render(&colors(), rgb(0));
    let plain = view(Button::new(name("b")));
    assert_eq!((plain.selected, plain.corners), (None, Corners::Pixels(10)));
    let chosen = view(Button::new(name("b")).selected(true).rounded(PixelBits(3)));
    let look = chosen.selected.unwrap();
    assert_eq!((look.background, look.border), (rgb(16), rgb(19)));
    assert_eq!(chosen.corners, Corners::Length(PixelBits(3)));
}

#[test]
fn buttons_are_named_and_configured() {
    let button = Button::new(name("b"))
        .label(name("Save"))
        .tooltip(name("tip"))
        .selected(true)
        .rounded(PixelBits(3))
        .on_click(4)
        .on_hover(5);
    assert_eq!(button.accessibility_label().map(String::as_str), Some("Save"));
    assert!(button.is_selected());
    assert_eq!(button.rounded, ButtonRounded::Size(PixelBits(3)));
    assert_eq!((button.on_click, button.on_hover), (Some(4), Some(5)));
    let named = button.aria_label(name("Save file"));
    assert_eq!(named.accessibility_label().map(String::as_str), Some("Save file"));
    assert_eq!(named.tooltip.as_deref(), Some("tip"));
    assert!(Button::new(name("b")).accessibility_label().is_none());
}

#[test]
fn menus_separate_and_come_round() {
    let menu = PopupMenu::new()
        .separator()
        .menu(name("Copy"), 1)
        .separator()
        .separator()
        .menu_with_enable(name("Paste"), 2, false)
        .menu_with_check(name("Wrap"), true, 3)
        .menu_element(4)
        .touch(true);
    assert_eq!(menu.items.len(), 5);
    assert!(matches!(menu.items[1], MenuItem::Separator));
    assert_eq!(menu.clickable(), vec![0, 3, 4]);
    assert!(menu.touch && !menu.is_empty() && PopupMenu::new().is_empty());
    let mut menu = menu;
    assert_eq!(menu.confirm(), MenuOutcome::Nothing);
    assert_eq!(menu.down(), MenuOutcome::Notify);
    assert_eq!(menu.selected, Some(0));
    menu.down();
    menu.down();
    assert_eq!(menu.selected, Some(4));
    menu.down();
    assert_eq!(menu.selected, Some(0));
    menu.up();
    assert_eq!(menu.selected, Some(4));
    assert_eq!(menu.confirm(), MenuOutcome::Dispatch(4));
    assert_eq!(menu.choose_item(2), MenuOutcome::Nothing);
    assert_eq!(menu.choose_item(1), MenuOutcome::Nothing);
    assert_eq!(menu.choose_item(9), MenuOutcome::Nothing);
    assert_eq!(menu.choose_item(3), MenuOutcome::Dispatch(3));
    assert_eq!(menu.cancel(), MenuOutcome::Dismiss);
    menu.selected = None;
    menu.up();
    assert_eq!(menu.selected, Some(4), "up from nowhere is the last choice");
    let mut empty = PopupMenu::new().menu_with_enable(name("x"), 1, false);
    assert_eq!(empty.down(), MenuOutcome::Nothing);
    assert_eq!(empty.up(), MenuOutcome::Nothing);
    assert_eq!(empty.selected, None);
}

#[test]
fn holding_selects_the_word_after_an_emoji() {
    // Four bytes of emoji, a space, then the word.
    assert_eq!(
        select_word_at("😀 example here", Some(7), false, false),
        HoldOutcome::Select(ByteRange { start: 5, end: 12 })
    );
    assert_eq!(
        select_word_at("😀 example here", Some(0), false, false),
        HoldOutcome::Select(ByteRange { start: 0, end: 4 })
    );
    assert_eq!(
        select_word_at("😀 example here", Some(17), false, false),
        HoldOutcome::Select(ByteRange { start: 17, end: 17 })
    );
    assert_eq!(
        select_word_at("secret words", Some(1), true, false),
        HoldOutcome::Select(ByteRange { start: 0, end: 12 })
    );
    assert_eq!(select_word_at("x", None, false, false), HoldOutcome::Click);
    assert_eq!(select_word_at("x", Some(0), false, true), HoldOutcome::Ignored);
}

#[test]
fn text_is_measured_as_input_methods_do() {
    for sample in ["", "abc", "é中", "😀 example", "\u{10000}\u{ffff}"] {
        assert_eq!(count_utf16(sample), sample.encode_utf16().count());
        assert_eq!(text_length_utf16(sample), sample.encode_utf16().count());
    }
}

#[test]
fn fields_are_configured_by_what_they_edit() {
    let line = Input::new(1).bordered(false).with_size(Size::Small).tab_index(2).role(name("search"));
    let view = line.render(true, &colors());
    assert!(!view.multi_line && view.focused && !view.disabled);
    let surface = view.surface.unwrap();
    assert_eq!((surface.background, surface.radius, surface.frame), (rgb(2), 10, None));
    assert_eq!(view.action, TextInputAction::Done);
    assert_eq!((view.text, view.inset), (TextSize::Small, 0));
    assert_eq!(view.shape, FieldBox::Row { height: 12, padding: 4 });
    assert_eq!((view.colors.caret, view.colors.muted_foreground), (rgb(9), rgb(17)));
    assert_eq!((line.tab_index, line.role.as_deref()), (2, Some("search")));
    let off = Input::new(1).disabled(true).render(true, &colors());
    assert!(!off.focused && off.disabled);
    assert!(Input::new(1).appearance(false).render(false, &colors()).surface.is_none());
    let sized = |size| {
        let view = Input::new(1).with_size(size).render(false, &colors());
        (view.text, view.shape)
    };
    assert_eq!(
        sized(Size::XSmall),
        (TextSize::XSmall, FieldBox::Row { height: 10, padding: 2 })
    );
    assert_eq!(sized(Size::Medium), (TextSize::Small, FieldBox::Row { height: 16, padding: 5 }));
    assert_eq!(sized(Size::Large), (TextSize::Base, FieldBox::Row { height: 20, padding: 6 }));
    let length = PixelBits(7);
    assert_eq!(
        sized(Size::Size(length)),
        (TextSize::SevenEighthsOf(length), FieldBox::RowOf(length))
    );
    let area = Textarea::new(2).h(PixelBits(9)).disabled(false).bordered(true).appearance(true);
    let view = area.input.render(false, &colors());
    assert!(view.multi_line);
    let frame = view.surface.unwrap().frame.unwrap();
    assert_eq!((frame.border, frame.focused), (rgb(12), rgb(20)));
    assert_eq!(view.action, TextInputAction::Enter);
    assert_eq!((view.shape, view.inset), (FieldBox::Area(Some(PixelBits(9))), 8));
    let grown = Textarea::new(2).input.render(false, &colors());
    assert_eq!(grown.shape, FieldBox::Area(None));
    assert_eq!(area.input.state, EditorState::Textarea(2));
    let placeholder = name("Message");
    let empty = String::new();
    assert_eq!(Input::new(1).accessibility_label(&placeholder), Some(&placeholder));
    assert_eq!(Input::new(1).accessibility_label(&empty), None);
    let named = Input::new(1).aria_label(name("To"));
    assert_eq!(named.accessibility_label(&placeholder).map(String::as_str), Some("To"));
    assert_eq!(Input::new(1).h(PixelBits(1)).height, Some(PixelBits(1)));
    let here = ByteRange { start: 1, end: 2 };
    assert_eq!(changed_selection(here, here), None);
    let there = ByteRange { start: 0, end: 2 };
    assert_eq!(changed_selection(here, there), Some(there));
    let menu = selection_menu(false, false, true);
    assert!(menu.copy && menu.cut && menu.paste && menu.select_all);
    let masked = selection_menu(true, false, true);
    assert!(!masked.copy && !masked.cut && masked.paste);
    assert!(!selection_menu(false, false, false).paste);
}

#[test]
fn checkboxes_and_switches_show_their_state() {
    let checkbox = Checkbox::new(name("c")).checked(true).with_size(Size::Large).label(name("On"));
    let view = checkbox.render(&colors(), rgb(99));
    assert_eq!((view.indicator, view.background), (Extent::Design(18), rgb(19)));
    assert_eq!((view.mark, view.opacity), (Some(rgb(99)), 100));
    let off = Checkbox::new(name("c")).disabled(true).on_click(3).render(&colors(), rgb(99));
    assert_eq!((off.border, off.text), (rgb(12), rgb(17)));
    assert_eq!((off.mark, off.opacity), (None, 50));
    let switch = Switch::new(name("s")).checked(true);
    let view = switch.render(&colors());
    assert_eq!((view.width, view.thumb_left, view.track), (36, 16, rgb(19)));
    let small = Switch::new(name("s")).with_size(Size::Small).color(rgb(7)).tooltip(name("t"));
    assert_eq!(small.render(&colors()).thumb_left, 0);
    assert_eq!(small.render(&colors()).track, rgb(16));
    let small = small.checked(true).label(name("l")).disabled(true).on_click(1);
    assert_eq!(
        (small.render(&colors()).width, small.render(&colors()).thumb_left),
        (28, 12)
    );
    assert_eq!(small.render(&colors()).track, rgb(7));
    assert_eq!((view.thumb_color, view.opacity), (rgb(2), 100));
    assert_eq!(small.render(&colors()).opacity, 50);
}

#[test]
fn progress_fills_up_to_all_of_it() {
    let bar = Progress::new(name("p")).value(2_500_000).with_size(Size::XSmall);
    let view = bar.render(&colors());
    assert_eq!((view.filled, view.height), (Some(WHOLE), Extent::Design(4)));
    assert_eq!((view.indicator, view.track), (rgb(19), faded(19, 20)));
    let third = Progress::new(name("p")).value(333_333).render(&colors());
    assert_eq!(third.filled, Some(333_333));
    let busy = Progress::new(name("p")).value(300_000).loading(true).color(rgb(3));
    assert_eq!(busy.render(&colors()).filled, None);
    assert_eq!(busy.render(&colors()).indicator, rgb(3));
}

#[test]
fn tooltips_show_the_keys_they_know() {
    let bound = name("ctrl-s");
    let tip = Tooltip::new(name("Save"));
    assert!(matches!(&tip.content, TooltipContent::Text(text) if text == "Save"));
    assert_eq!(tip.shown_keys(Some(&bound)), None);
    let tip = tip.action(1, Some(name("Editor")));
    assert_eq!(tip.shown_keys(Some(&bound)), Some(&bound));
    assert_eq!(tip.shown_keys(None), None);
    let tip = tip.key_binding(Some(name("f2")));
    assert_eq!(tip.shown_keys(Some(&bound)).map(String::as_str), Some("f2"));
    assert!(matches!(Tooltip::element(4).content, TooltipContent::Element(4)));
}

#[test]
fn popovers_and_sheets_are_there_when_they_can_be_touched() {
    let popover = Popover::new(name("p"))
        .anchor(Anchor::BottomRight)
        .mouse_button(MouseButton::Right)
        .default_open(true)
        .open(false)
        .overlay_closable(false)
        .appearance(false)
        .track_focus(1)
        .on_open_change(2)
        .trigger(3)
        .content(4);
    assert!(!popover.is_sheet() && !popover.closes_outside());
    assert_eq!((popover.anchor, popover.mouse_button), (Anchor::BottomRight, MouseButton::Right));
    assert_eq!((popover.open, popover.tracked_focus), (Some(false), Some(1)));
    assert!(popover.bottom_sheet(name("Model")).is_sheet());
    assert!(trigger_selected(false, true) && !trigger_selected(false, false));
    assert!(sheet_mounted(true, true, false) && sheet_mounted(true, false, true));
    assert!(!sheet_mounted(true, false, false) && !sheet_mounted(false, true, true));
    let insets = Edges { top: 47, right: 0, bottom: 300, left: 0 };
    assert_eq!(max_sheet_height(852, insets, 1), 453);
    assert_eq!(max_sheet_height(300, insets, 1), 0);
}
