//! How buttons, fields and menus look and answer.

use super::button::{
    button_colors, control_opacity, Button, ButtonBox, ButtonRounded, ButtonVariant, Corners,
    IconSize, Size,
};
use super::field::{editor_colors, plain_input, EditorState, FieldBox, Input, TextSize};
use super::menu::{above, below, choices, chosen, MenuItem, MenuOutcome};
use super::popover::sheet_height;
use crate::geometry::Edges;
use crate::theme::color::Color;
use crate::theme::resolve::ThemeColors;
use vstd::prelude::*;

verus! {

/// A plain button is painted in the colours that the theme has for what it is for: the
/// page's, the accent, the second accent, a warning's, a success's, or none.
pub proof fn law_buttons_are_painted_by_what_they_are_for(theme: ThemeColors, on_primary: Color)
    ensures
        ({
            let c = button_colors(ButtonVariant::Default, false, theme, on_primary);
            c.background == theme.background && c.foreground == theme.foreground && c.hover
                == theme.muted && c.border == theme.input
        }),
        ({
            let c = button_colors(ButtonVariant::Primary, false, theme, on_primary);
            c.background == theme.primary && c.foreground == on_primary && c.hover
                == theme.primary.faded(85) && c.border == theme.primary
        }),
        ({
            let c = button_colors(ButtonVariant::Secondary, false, theme, on_primary);
            c.background == theme.secondary && c.foreground == theme.foreground && c.hover
                == theme.secondary_active && c.border == theme.border
        }),
        ({
            let c = button_colors(ButtonVariant::Danger, false, theme, on_primary);
            c.background == theme.danger.faded(20) && c.foreground == theme.danger && c.hover
                == theme.danger.faded(30) && c.border == theme.danger
        }),
        ({
            let c = button_colors(ButtonVariant::Success, false, theme, on_primary);
            c.background == theme.success.faded(20) && c.foreground == theme.success && c.hover
                == theme.success.faded(30) && c.border == theme.success
        }),
        ({
            let c = button_colors(ButtonVariant::Quiet, false, theme, on_primary);
            c.background.opacity == 0 && c.foreground == theme.foreground && c.hover == theme.muted
                && c.border == theme.border
        }),
        ({
            let c = button_colors(ButtonVariant::Text, false, theme, on_primary);
            c.background.opacity == 0 && c.foreground == theme.foreground.faded(90) && c.hover
                == theme.muted && c.border.opacity == 0
        }),
{
}

/// An outline leaves a tenth of the background, and writes in the colour that the
/// background would have had where that is one of its own.
pub proof fn law_outlined_buttons(variant: ButtonVariant, theme: ThemeColors, on_primary: Color)
    ensures
        ({
            let plain = button_colors(variant, false, theme, on_primary);
            let lined = button_colors(variant, true, theme, on_primary);
            &&& lined.background == plain.background.faded(10)
            &&& lined.hover == plain.hover
            &&& lined.border == plain.border
            &&& lined.foreground == if variant == ButtonVariant::Primary {
                theme.primary
            } else if variant == ButtonVariant::Danger {
                theme.danger
            } else if variant == ButtonVariant::Success {
                theme.success
            } else {
                plain.foreground
            }
        }),
{
}

/// A button that shows its icon alone is a square of the button's size.
pub proof fn law_a_bare_icon_has_a_square_button(button: Button)
    requires
        button.label is None,
        button.children == 0,
    ensures
        button.size == Size::XSmall ==> button.shape() == ButtonBox::Square(5),
        button.size == Size::Small ==> button.shape() == ButtonBox::Square(6),
        button.size == Size::Medium || button.size == Size::Large ==> button.shape()
            == ButtonBox::Square(8),
        button.size matches Size::Size(length) ==> button.shape() == ButtonBox::SquareOf(length),
{
}

/// A button with words is a row of the button's size, narrower where it is compact; a
/// text button stands in the line.
pub proof fn law_a_button_with_words_is_a_row(button: Button)
    requires
        button.label is Some || button.children > 0,
    ensures
        button.variant == ButtonVariant::Text ==> button.shape() == ButtonBox::Inline,
        button.variant != ButtonVariant::Text ==> {
            &&& button.size == Size::XSmall ==> button.shape() == (ButtonBox::Row {
                height: 5,
                padding: 1,
            })
            &&& button.size == Size::Small ==> button.shape() == (ButtonBox::Row {
                height: 6,
                padding: 2,
            })
            &&& button.size == Size::Medium || button.size == Size::Large ==> button.shape() == (
            ButtonBox::WideRow {
                height: 8,
                padding_pixels: if button.compact {
                    8
                } else {
                    10
                },
            })
            &&& button.size matches Size::Size(length) ==> button.shape() == ButtonBox::PaddedBy(
                length,
            )
        },
{
}

/// Corners and icons go by the size of a button, and by its own where it has one.
pub proof fn law_corners_and_icons(button: Button, theme: ThemeColors)
    ensures
        button.rounded == ButtonRounded::Medium ==> button.corners() == Corners::Pixels(10),
        button.rounded matches ButtonRounded::Size(length) ==> button.corners() == Corners::Length(
            length,
        ),
        button.size matches Size::Size(length) ==> button.icon_size() == IconSize::ThreeQuartersOf(
            length,
        ),
        !(button.size is Size) ==> button.icon_size() == IconSize::Of(button.size),
        button.selected ==> button.selected_look(theme) is Some && button.selected_look(
            theme,
        )->0.background == theme.muted && button.selected_look(theme)->0.border == theme.primary,
        !button.selected ==> button.selected_look(theme) is None,
        control_opacity(true) == 50,
        control_opacity(false) == 100,
{
}

/// A field writes in the page's text colour on the page's background, its hints muted,
/// and its frame takes the focus colour with the focus.
pub proof fn law_fields_are_painted_as_the_page(input: Input, theme: ThemeColors)
    ensures
        editor_colors(theme).foreground == theme.foreground,
        editor_colors(theme).muted_foreground == theme.muted_foreground,
        editor_colors(theme).background == theme.background,
        editor_colors(theme).border == theme.border,
        editor_colors(theme).selection == theme.selection,
        editor_colors(theme).caret == theme.foreground,
        input.surface(theme) is Some <==> input.appearance,
        input.appearance ==> {
            let surface = input.surface(theme)->0;
            &&& surface.background == theme.background
            &&& surface.radius == 10
            &&& surface.frame is Some <==> input.bordered
            &&& input.bordered ==> surface.frame->0.border == theme.input
                && surface.frame->0.focused == theme.ring
        },
{
}

/// A field of one line is a row of the field's size, one of many as high as it is told.
pub proof fn law_a_fields_box(input: Input)
    ensures
        input.state is Textarea ==> input.shape() == FieldBox::Area(input.height),
        !(input.state is Textarea) ==> {
            &&& input.size == Size::XSmall ==> input.shape() == (FieldBox::Row {
                height: 10,
                padding: 2,
            })
            &&& input.size == Size::Small ==> input.shape() == (FieldBox::Row {
                height: 12,
                padding: 4,
            })
            &&& input.size == Size::Medium ==> input.shape() == (FieldBox::Row {
                height: 16,
                padding: 5,
            })
            &&& input.size == Size::Large ==> input.shape() == (FieldBox::Row {
                height: 20,
                padding: 6,
            })
            &&& input.size matches Size::Size(length) ==> input.shape() == FieldBox::RowOf(length)
        },
        input.size == Size::XSmall ==> input.text_size() == TextSize::XSmall,
        input.size == Size::Small || input.size == Size::Medium ==> input.text_size()
            == TextSize::Small,
        input.size == Size::Large ==> input.text_size() == TextSize::Base,
        input.size matches Size::Size(length) ==> input.text_size() == TextSize::SevenEighthsOf(
            length,
        ),
{
}

/// A new field is of middle size, painted with its frame, and can be typed into.
pub proof fn law_a_new_field(state: EditorState)
    ensures
        ({
            let input = plain_input(state);
            &&& input.state == state
            &&& input.size == Size::Medium
            &&& input.appearance && input.bordered && !input.disabled
            &&& input.height is None && input.role is None && input.aria_label is None
            &&& input.tab_index == 0
        }),
{
}

/// Choosing an entry does what the entry is for; a disabled entry, a separator and a
/// place outside the menu do nothing.
pub proof fn law_choosing_does_what_the_entry_says(items: Seq<MenuItem>, index: usize)
    ensures
        index >= items.len() ==> chosen(items, index) == MenuOutcome::Nothing,
        index < items.len() ==> match items[index as int] {
            MenuItem::Item { action, disabled, .. } => chosen(items, index) == if disabled {
                MenuOutcome::Nothing
            } else {
                MenuOutcome::Dispatch(action)
            },
            MenuItem::Separator => chosen(items, index) == MenuOutcome::Nothing,
        },
{
}

/// Whether an entry can be chosen.
pub open spec fn can_be_chosen(item: MenuItem) -> bool {
    match item {
        MenuItem::Item { disabled, .. } => !disabled,
        MenuItem::Separator => false,
    }
}

/// The keys go through exactly the entries that can be chosen, in their order.
pub proof fn law_keys_go_through_every_choice(items: Seq<MenuItem>, n: int)
    requires
        0 <= n <= items.len(),
    ensures
        forall|i: int|
            0 <= i < n ==> (can_be_chosen(#[trigger] items[i]) <==> choices(items, n).contains(i)),
        forall|k: int|
            0 <= k < choices(items, n).len() ==> 0 <= #[trigger] choices(items, n)[k] < n,
        forall|k: int, l: int|
            0 <= k < l < choices(items, n).len() ==> #[trigger] choices(items, n)[k]
                < #[trigger] choices(items, n)[l],
    decreases n,
{
    if n > 0 {
        law_keys_go_through_every_choice(items, n - 1);
        let before = choices(items, n - 1);
        let all = choices(items, n);
        assert forall|i: int| 0 <= i < n implies (can_be_chosen(#[trigger] items[i])
            <==> all.contains(i)) by {
            if i < n - 1 {
                if before.contains(i) {
                    let k = choose|k: int| 0 <= k < before.len() && before[k] == i;
                    assert(all[k] == i);
                }
                if all.contains(i) {
                    let k = choose|k: int| 0 <= k < all.len() && all[k] == i;
                    assert(k < before.len());
                    assert(before[k] == i);
                }
            } else if can_be_chosen(items[i]) {
                assert(all[before.len() as int] == i);
            } else if all.contains(i) {
                let k = choose|k: int| 0 <= k < all.len() && all[k] == i;
                assert(before[k] == i);
            }
        }
    }
}

/// Down goes to the next choice and from the last to the first; up goes to the one
/// before and from the first to the last; with nothing selected down starts with the
/// first and up with the last.
pub proof fn law_keys_go_round(items: Seq<MenuItem>, k: int)
    requires
        0 <= k < choices(items, items.len() as int).len(),
        items.len() <= usize::MAX,
    ensures
        ({
            let all = choices(items, items.len() as int);
            let n = all.len() as int;
            let at = Some(all[k] as usize);
            &&& k + 1 < n ==> below(all, at) == all[k + 1]
            &&& k + 1 == n ==> below(all, at) == all[0]
            &&& k > 0 ==> above(all, at) == all[k - 1]
            &&& k == 0 ==> above(all, at) == all[n - 1]
            &&& below(all, None) == all[0]
            &&& above(all, None) == all[n - 1]
        }),
{
    let all = choices(items, items.len() as int);
    let n = all.len() as int;
    law_keys_go_through_every_choice(items, items.len() as int);
    let at = all[k] as usize;
    assert(at as int == all[k]);
    assert(all.contains(at as int));
    let found = choose|i: int| 0 <= i < all.len() && #[trigger] all[i] == at;
    assert(all[found] == all[k]);
    assert(found == k) by {
        if found < k {
            assert(all[found] < all[k]);
        } else if k < found {
            assert(all[k] < all[found]);
        }
    }
    assert((k + 1) % n == if k + 1 < n {
        k + 1
    } else {
        0
    }) by {
        if k + 1 < n {
            vstd::arithmetic::div_mod::lemma_small_mod((k + 1) as nat, n as nat);
        } else {
            vstd::arithmetic::div_mod::lemma_mod_self_0(n);
        }
    }
    assert((k + n - 1) % n == if k > 0 {
        k - 1
    } else {
        n - 1
    }) by {
        if k > 0 {
            vstd::arithmetic::div_mod::lemma_mod_add_multiples_vanish(k - 1, n);
            vstd::arithmetic::div_mod::lemma_small_mod((k - 1) as nat, n as nat);
        } else {
            vstd::arithmetic::div_mod::lemma_small_mod((n - 1) as nat, n as nat);
        }
    }
}

/// A sheet leaves fifty-two pixels above it free, besides what the system covers, and
/// is never of negative height.
pub proof fn law_a_sheet_leaves_room_above(viewport: i64, insets: Edges, pixel: i64)
    ensures
        sheet_height(viewport, insets, pixel) >= 0,
        viewport - insets.top - insets.bottom > 52 * pixel ==> sheet_height(viewport, insets, pixel)
            == viewport - insets.top - insets.bottom - 52 * pixel,
        viewport - insets.top - insets.bottom <= 52 * pixel ==> sheet_height(
            viewport,
            insets,
            pixel,
        ) == 0,
{
}

} // verus!
