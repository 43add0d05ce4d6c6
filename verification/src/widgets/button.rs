//! Buttons.
use crate::protocol::PixelBits;
use crate::theme::color::Color;
use crate::theme::resolve::{ThemeColors, RADIUS};
use vstd::prelude::*;

verus! {

/// How large a control is.
#[derive(Clone, Copy, Debug, PartialEq, Eq, Structural)]
pub enum Size {
    XSmall,
    Small,
    Medium,
    Large,
    /// As large as a length says.
    Size(PixelBits),
}

#[derive(Clone, Copy, Debug, PartialEq, Eq, Structural)]
pub enum ButtonVariant {
    Default,
    Primary,
    Secondary,
    Danger,
    Success,
    /// Transparent at rest.
    Quiet,
    Text,
}

impl Default for ButtonVariant {
    fn default() -> (variant: Self)
        ensures
            variant == ButtonVariant::Default,
    {
        ButtonVariant::Default
    }
}

/// A control that comes in the variants of a button.
pub trait ButtonVariants: Sized {
    /// What the control is once it has a variant.
    spec fn in_variant(self, variant: ButtonVariant) -> Self;

    fn with_variant(self, variant: ButtonVariant) -> (control: Self)
        ensures
            control == self.in_variant(variant),
    ;

    fn primary(self) -> (control: Self)
        ensures
            control == self.in_variant(ButtonVariant::Primary),
    {
        self.with_variant(ButtonVariant::Primary)
    }

    fn secondary(self) -> (control: Self)
        ensures
            control == self.in_variant(ButtonVariant::Secondary),
    {
        self.with_variant(ButtonVariant::Secondary)
    }

    fn danger(self) -> (control: Self)
        ensures
            control == self.in_variant(ButtonVariant::Danger),
    {
        self.with_variant(ButtonVariant::Danger)
    }

    fn success(self) -> (control: Self)
        ensures
            control == self.in_variant(ButtonVariant::Success),
    {
        self.with_variant(ButtonVariant::Success)
    }

    fn ghost(self) -> (control: Self)
        ensures
            control == self.in_variant(ButtonVariant::Quiet),
    {
        self.with_variant(ButtonVariant::Quiet)
    }

    fn text(self) -> (control: Self)
        ensures
            control == self.in_variant(ButtonVariant::Text),
    {
        self.with_variant(ButtonVariant::Text)
    }
}

/// The corners of a button.
#[derive(Clone, Copy, Debug, PartialEq, Eq, Structural)]
pub enum ButtonRounded {
    /// As the theme has them.
    Medium,
    Size(PixelBits),
}

pub struct Button {
    pub id: String,
    pub icon: Option<String>,
    pub label: Option<String>,
    /// How many elements it holds besides its icon and its label.
    pub children: usize,
    pub disabled: bool,
    pub selected: bool,
    pub variant: ButtonVariant,
    pub rounded: ButtonRounded,
    pub outline: bool,
    pub compact: bool,
    pub loading: bool,
    pub size: Size,
    pub tooltip: Option<String>,
    /// The accessible name of a button that has no visible label to take one from.
    pub aria_label: Option<String>,
    pub on_click: Option<u64>,
    pub on_hover: Option<u64>,
}

impl ButtonVariants for Button {
    open spec fn in_variant(self, variant: ButtonVariant) -> Self {
        Button { variant, ..self }
    }

    fn with_variant(self, variant: ButtonVariant) -> (control: Self) {
        let mut control = self;
        control.variant = variant;
        control
    }
}

impl Button {
    pub fn new(id: String) -> (button: Self)
        ensures
            button == (Button {
                id,
                icon: None,
                label: None,
                children: 0,
                disabled: false,
                selected: false,
                variant: ButtonVariant::Default,
                rounded: ButtonRounded::Medium,
                outline: false,
                compact: false,
                loading: false,
                size: Size::Medium,
                tooltip: None,
                aria_label: None,
                on_click: None,
                on_hover: None,
            }),
    {
        Button {
            id,
            icon: None,
            label: None,
            children: 0,
            disabled: false,
            selected: false,
            variant: ButtonVariant::Default,
            rounded: ButtonRounded::Medium,
            outline: false,
            compact: false,
            loading: false,
            size: Size::Medium,
            tooltip: None,
            aria_label: None,
            on_click: None,
            on_hover: None,
        }
    }

    pub fn outline(self) -> (button: Self)
        ensures
            button == (Button { outline: true, ..self }),
    {
        let mut button = self;
        button.outline = true;
        button
    }

    pub fn rounded(self, radius: PixelBits) -> (button: Self)
        ensures
            button == (Button { rounded: ButtonRounded::Size(radius), ..self }),
    {
        let mut button = self;
        button.rounded = ButtonRounded::Size(radius);
        button
    }

    pub fn label(self, label: String) -> (button: Self)
        ensures
            button == (Button { label: Some(label), ..self }),
    {
        let mut button = self;
        button.label = Some(label);
        button
    }

    pub fn icon(self, icon: String) -> (button: Self)
        ensures
            button == (Button { icon: Some(icon), ..self }),
    {
        let mut button = self;
        button.icon = Some(icon);
        button
    }

    pub fn tooltip(self, tooltip: String) -> (button: Self)
        ensures
            button == (Button { tooltip: Some(tooltip), ..self }),
    {
        let mut button = self;
        button.tooltip = Some(tooltip);
        button
    }

    /// Name a button that shows only an icon.
    pub fn aria_label(self, label: String) -> (button: Self)
        ensures
            button == (Button { aria_label: Some(label), ..self }),
    {
        let mut button = self;
        button.aria_label = Some(label);
        button
    }

    pub fn compact(self) -> (button: Self)
        ensures
            button == (Button { compact: true, ..self }),
    {
        let mut button = self;
        button.compact = true;
        button
    }

    pub fn loading(self, loading: bool) -> (button: Self)
        ensures
            button == (Button { loading, ..self }),
    {
        let mut button = self;
        button.loading = loading;
        button
    }

    pub fn disabled(self, disabled: bool) -> (button: Self)
        ensures
            button == (Button { disabled, ..self }),
    {
        let mut button = self;
        button.disabled = disabled;
        button
    }

    pub fn selected(self, selected: bool) -> (button: Self)
        ensures
            button == (Button { selected, ..self }),
    {
        let mut button = self;
        button.selected = selected;
        button
    }

    pub fn is_selected(&self) -> (selected: bool)
        ensures
            selected == self.selected,
    {
        self.selected
    }

    pub fn with_size(self, size: Size) -> (button: Self)
        ensures
            button == (Button { size, ..self }),
    {
        let mut button = self;
        button.size = size;
        button
    }

    pub fn on_click(self, handler: u64) -> (button: Self)
        ensures
            button == (Button { on_click: Some(handler), ..self }),
    {
        let mut button = self;
        button.on_click = Some(handler);
        button
    }

    pub fn on_hover(self, handler: u64) -> (button: Self)
        ensures
            button == (Button { on_hover: Some(handler), ..self }),
    {
        let mut button = self;
        button.on_hover = Some(handler);
        button
    }
}

/// The colours of a button.
#[derive(Clone, Copy, Debug, PartialEq, Eq, Structural)]
pub struct ButtonColors {
    pub background: Color,
    pub foreground: Color,
    pub hover: Color,
    pub border: Color,
}

/// The colours of a variant. `on_primary` is what reads on the primary colour.
pub open spec fn variant_colors(
    variant: ButtonVariant,
    theme: ThemeColors,
    on_primary: Color,
) -> ButtonColors {
    let transparent = theme.background.faded(0);
    match variant {
        ButtonVariant::Default => ButtonColors {
            background: theme.background,
            foreground: theme.foreground,
            hover: theme.muted,
            border: theme.input,
        },
        ButtonVariant::Primary => ButtonColors {
            background: theme.primary,
            foreground: on_primary,
            hover: theme.primary.faded(85),
            border: theme.primary,
        },
        ButtonVariant::Secondary => ButtonColors {
            background: theme.secondary,
            foreground: theme.foreground,
            hover: theme.secondary_active,
            border: theme.border,
        },
        ButtonVariant::Danger => ButtonColors {
            background: theme.danger.faded(20),
            foreground: theme.danger,
            hover: theme.danger.faded(30),
            border: theme.danger,
        },
        ButtonVariant::Success => ButtonColors {
            background: theme.success.faded(20),
            foreground: theme.success,
            hover: theme.success.faded(30),
            border: theme.success,
        },
        ButtonVariant::Quiet => ButtonColors {
            background: transparent,
            foreground: theme.foreground,
            hover: theme.muted,
            border: theme.border,
        },
        ButtonVariant::Text => ButtonColors {
            background: transparent,
            foreground: theme.foreground.faded(90),
            hover: theme.muted,
            border: transparent,
        },
    }
}

/// The colours of a button: an outlined one has hardly any background, and its
/// text has the colour that the background would have had.
pub open spec fn button_colors(
    variant: ButtonVariant,
    outline: bool,
    theme: ThemeColors,
    on_primary: Color,
) -> ButtonColors {
    let plain = variant_colors(variant, theme, on_primary);
    if outline {
        ButtonColors {
            background: plain.background.faded(10),
            foreground: match variant {
                ButtonVariant::Primary => theme.primary,
                ButtonVariant::Danger => theme.danger,
                ButtonVariant::Success => theme.success,
                _ => plain.foreground,
            },
            ..plain
        }
    } else {
        plain
    }
}

fn plain_colors(
    variant: ButtonVariant,
    theme: &ThemeColors,
    on_primary: Color,
) -> (colors: ButtonColors)
    ensures
        colors == variant_colors(variant, *theme, on_primary),
{
    let transparent = theme.background.opacity(0);
    match variant {
        ButtonVariant::Default => ButtonColors {
            background: theme.background,
            foreground: theme.foreground,
            hover: theme.muted,
            border: theme.input,
        },
        ButtonVariant::Primary => ButtonColors {
            background: theme.primary,
            foreground: on_primary,
            hover: theme.primary.opacity(85),
            border: theme.primary,
        },
        ButtonVariant::Secondary => ButtonColors {
            background: theme.secondary,
            foreground: theme.foreground,
            hover: theme.secondary_active,
            border: theme.border,
        },
        ButtonVariant::Danger => ButtonColors {
            background: theme.danger.opacity(20),
            foreground: theme.danger,
            hover: theme.danger.opacity(30),
            border: theme.danger,
        },
        ButtonVariant::Success => ButtonColors {
            background: theme.success.opacity(20),
            foreground: theme.success,
            hover: theme.success.opacity(30),
            border: theme.success,
        },
        ButtonVariant::Quiet => ButtonColors {
            background: transparent,
            foreground: theme.foreground,
            hover: theme.muted,
            border: theme.border,
        },
        ButtonVariant::Text => ButtonColors {
            background: transparent,
            foreground: theme.foreground.opacity(90),
            hover: theme.muted,
            border: transparent,
        },
    }
}

/// The box of a button, in quarters of the design's unit where a number is given.
#[derive(Clone, Copy, Debug, PartialEq, Eq, Structural)]
pub enum ButtonBox {
    /// A square of a side.
    Square(u32),
    /// A square of a length.
    SquareOf(PixelBits),
    /// A height and a padding on both sides.
    Row { height: u32, padding: u32 },
    /// A height, and a padding on both sides in the design's pixels.
    WideRow { height: u32, padding_pixels: u32 },
    /// A padding on both sides of a fifth of a length.
    PaddedBy(PixelBits),
    /// As large as its text.
    Inline,
}

/// The radius of a control's corners: a number of pixels, or a length.
#[derive(Clone, Copy, Debug, PartialEq, Eq, Structural)]
pub enum Corners {
    Pixels(u32),
    Length(PixelBits),
}

/// The size of a button's icon.
#[derive(Clone, Copy, Debug, PartialEq, Eq, Structural)]
pub enum IconSize {
    Of(Size),
    /// Three quarters of a length.
    ThreeQuartersOf(PixelBits),
}

/// What a selected button has in place of its own background and border.
#[derive(Clone, Copy, Debug, PartialEq, Eq, Structural)]
pub struct SelectedLook {
    pub background: Color,
    pub border: Color,
}

/// How opaque a control is that cannot be used, in percent.
pub const DISABLED_OPACITY: u32 = 50;

/// How opaque a control is, in percent.
pub open spec fn control_opacity(disabled: bool) -> u32 {
    if disabled {
        DISABLED_OPACITY
    } else {
        100
    }
}

pub(crate) fn opacity_of(disabled: bool) -> (opacity: u32)
    ensures
        opacity == control_opacity(disabled),
{
    if disabled {
        DISABLED_OPACITY
    } else {
        100
    }
}

/// What a button looks like and how it behaves.
#[derive(Clone, Copy, Debug, PartialEq, Eq, Structural)]
pub struct ButtonView {
    pub colors: ButtonColors,
    pub bordered: bool,
    pub disabled: bool,
    /// Whether a spinner stands for its icon.
    pub spinner: bool,
    pub icon_only: bool,
    pub shape: ButtonBox,
    /// Whether what it holds stands closer together: one quarter of the design's unit
    /// apart, and not two.
    pub tight: bool,
    pub selected: Option<SelectedLook>,
    pub corners: Corners,
    pub icon_size: IconSize,
    /// How opaque it is, in percent.
    pub opacity: u32,
}

impl Button {
    pub open spec fn shows_only_icon(&self) -> bool {
        self.label is None && self.children == 0
    }

    pub open spec fn shape(&self) -> ButtonBox {
        if self.shows_only_icon() {
            match self.size {
                Size::XSmall => ButtonBox::Square(5),
                Size::Small => ButtonBox::Square(6),
                Size::Size(length) => ButtonBox::SquareOf(length),
                _ => ButtonBox::Square(8),
            }
        } else if self.variant == ButtonVariant::Text {
            ButtonBox::Inline
        } else {
            match self.size {
                Size::XSmall => ButtonBox::Row { height: 5, padding: 1 },
                Size::Small => ButtonBox::Row { height: 6, padding: 2 },
                Size::Size(length) => ButtonBox::PaddedBy(length),
                _ => ButtonBox::WideRow {
                    height: 8,
                    padding_pixels: if self.compact {
                        8
                    } else {
                        10
                    },
                },
            }
        }
    }

    pub open spec fn corners(&self) -> Corners {
        match self.rounded {
            ButtonRounded::Medium => Corners::Pixels(RADIUS),
            ButtonRounded::Size(length) => Corners::Length(length),
        }
    }

    pub open spec fn icon_size(&self) -> IconSize {
        match self.size {
            Size::Size(length) => IconSize::ThreeQuartersOf(length),
            size => IconSize::Of(size),
        }
    }

    pub open spec fn selected_look(&self, theme: ThemeColors) -> Option<SelectedLook> {
        if self.selected {
            Some(SelectedLook { background: theme.muted, border: theme.primary })
        } else {
            None
        }
    }

    /// Decide how the button is shown.
    pub fn render(&self, theme: &ThemeColors, on_primary: Color) -> (view: ButtonView)
        ensures
            view == (ButtonView {
                colors: button_colors(self.variant, self.outline, *theme, on_primary),
                bordered: self.variant == ButtonVariant::Default || self.outline,
                disabled: self.disabled || self.loading,
                spinner: self.loading && self.icon is Some,
                icon_only: self.shows_only_icon(),
                shape: self.shape(),
                tight: self.size == Size::XSmall || self.size == Size::Small,
                selected: self.selected_look(*theme),
                corners: self.corners(),
                icon_size: self.icon_size(),
                opacity: control_opacity(self.disabled || self.loading),
            }),
    {
        let plain = plain_colors(self.variant, theme, on_primary);
        let colors = if self.outline {
            ButtonColors {
                background: plain.background.opacity(10),
                foreground: match self.variant {
                    ButtonVariant::Primary => theme.primary,
                    ButtonVariant::Danger => theme.danger,
                    ButtonVariant::Success => theme.success,
                    _ => plain.foreground,
                },
                hover: plain.hover,
                border: plain.border,
            }
        } else {
            plain
        };
        let icon_only = self.label.is_none() && self.children == 0;
        let shape = if icon_only {
            match self.size {
                Size::XSmall => ButtonBox::Square(5),
                Size::Small => ButtonBox::Square(6),
                Size::Size(length) => ButtonBox::SquareOf(length),
                _ => ButtonBox::Square(8),
            }
        } else if self.variant == ButtonVariant::Text {
            ButtonBox::Inline
        } else {
            match self.size {
                Size::XSmall => ButtonBox::Row { height: 5, padding: 1 },
                Size::Small => ButtonBox::Row { height: 6, padding: 2 },
                Size::Size(length) => ButtonBox::PaddedBy(length),
                _ => ButtonBox::WideRow {
                    height: 8,
                    padding_pixels: if self.compact {
                        8
                    } else {
                        10
                    },
                },
            }
        };
        let tight = match self.size {
            Size::XSmall | Size::Small => true,
            _ => false,
        };
        ButtonView {
            colors,
            bordered: self.variant == ButtonVariant::Default || self.outline,
            disabled: self.disabled || self.loading,
            spinner: self.loading && self.icon.is_some(),
            icon_only,
            shape,
            tight,
            selected: if self.selected {
                Some(SelectedLook { background: theme.muted, border: theme.primary })
            } else {
                None
            },
            corners: match self.rounded {
                ButtonRounded::Medium => Corners::Pixels(RADIUS),
                ButtonRounded::Size(length) => Corners::Length(length),
            },
            icon_size: match self.size {
                Size::Size(length) => IconSize::ThreeQuartersOf(length),
                size => IconSize::Of(size),
            },
            opacity: opacity_of(self.disabled || self.loading),
        }
    }

    /// The name of the button for assistive technology: its own, else its label.
    pub fn accessibility_label(&self) -> (label: Option<&String>)
        ensures
            match label {
                Some(got) => if self.aria_label is Some {
                    Some(*got) == self.aria_label
                } else {
                    Some(*got) == self.label
                },
                None => self.aria_label is None && self.label is None,
            },
    {
        match &self.aria_label {
            Some(label) => Some(label),
            None => match &self.label {
                Some(label) => Some(label),
                None => None,
            },
        }
    }
}

} // verus!
