//! Checkboxes, switches, progress bars and tooltips.
use crate::protocol::PixelBits;
use crate::theme::color::Color;
use crate::theme::resolve::ThemeColors;
use crate::widgets::button::{control_opacity, opacity_of, Size};
use vstd::prelude::*;

verus! {

/// A length: a number of the design's pixels, or one that was asked for.
#[derive(Clone, Copy, Debug, PartialEq, Eq, Structural)]
pub enum Extent {
    Design(u32),
    Length(PixelBits),
}

pub struct Checkbox {
    pub id: String,
    pub label: Option<String>,
    pub checked: bool,
    pub disabled: bool,
    pub size: Size,
    pub on_click: Option<u64>,
}

/// How a checkbox is shown.
#[derive(Clone, Copy, Debug, PartialEq, Eq, Structural)]
pub struct CheckboxView {
    pub indicator: Extent,
    pub background: Color,
    pub border: Color,
    pub text: Color,
    /// The colour of the check mark, where it is drawn.
    pub mark: Option<Color>,
    /// How opaque the indicator is, in percent.
    pub opacity: u32,
}

impl Checkbox {
    pub fn new(id: String) -> (checkbox: Self)
        ensures
            checkbox == (Checkbox {
                id,
                label: None,
                checked: false,
                disabled: false,
                size: Size::Medium,
                on_click: None,
            }),
    {
        Checkbox {
            id,
            label: None,
            checked: false,
            disabled: false,
            size: Size::Medium,
            on_click: None,
        }
    }

    pub fn label(self, label: String) -> (checkbox: Self)
        ensures
            checkbox == (Checkbox { label: Some(label), ..self }),
    {
        let mut checkbox = self;
        checkbox.label = Some(label);
        checkbox
    }

    pub fn checked(self, checked: bool) -> (checkbox: Self)
        ensures
            checkbox == (Checkbox { checked, ..self }),
    {
        let mut checkbox = self;
        checkbox.checked = checked;
        checkbox
    }

    pub fn disabled(self, disabled: bool) -> (checkbox: Self)
        ensures
            checkbox == (Checkbox { disabled, ..self }),
    {
        let mut checkbox = self;
        checkbox.disabled = disabled;
        checkbox
    }

    pub fn with_size(self, size: Size) -> (checkbox: Self)
        ensures
            checkbox == (Checkbox { size, ..self }),
    {
        let mut checkbox = self;
        checkbox.size = size;
        checkbox
    }

    pub fn on_click(self, handler: u64) -> (checkbox: Self)
        ensures
            checkbox == (Checkbox { on_click: Some(handler), ..self }),
    {
        let mut checkbox = self;
        checkbox.on_click = Some(handler);
        checkbox
    }

    /// Decide how the checkbox is shown.
    pub fn render(&self, theme: &ThemeColors, on_primary: Color) -> (view: CheckboxView)
        ensures
            view == (CheckboxView {
                indicator: match self.size {
                    Size::XSmall => Extent::Design(12),
                    Size::Small => Extent::Design(14),
                    Size::Medium => Extent::Design(16),
                    Size::Large => Extent::Design(18),
                    Size::Size(length) => Extent::Length(length),
                },
                background: if self.checked {
                    theme.primary
                } else {
                    theme.background
                },
                border: if self.checked {
                    theme.primary
                } else {
                    theme.input
                },
                text: if self.disabled {
                    theme.muted_foreground
                } else {
                    theme.foreground
                },
                mark: if self.checked {
                    Some(on_primary)
                } else {
                    None
                },
                opacity: control_opacity(self.disabled),
            }),
    {
        let indicator = match self.size {
            Size::XSmall => Extent::Design(12),
            Size::Small => Extent::Design(14),
            Size::Medium => Extent::Design(16),
            Size::Large => Extent::Design(18),
            Size::Size(length) => Extent::Length(length),
        };
        CheckboxView {
            indicator,
            background: if self.checked {
                theme.primary
            } else {
                theme.background
            },
            border: if self.checked {
                theme.primary
            } else {
                theme.input
            },
            text: if self.disabled {
                theme.muted_foreground
            } else {
                theme.foreground
            },
            mark: if self.checked {
                Some(on_primary)
            } else {
                None
            },
            opacity: opacity_of(self.disabled),
        }
    }
}

pub struct Switch {
    pub id: String,
    pub checked: bool,
    pub disabled: bool,
    pub label: Option<String>,
    pub on_click: Option<u64>,
    pub size: Size,
    pub color: Option<Color>,
    pub tooltip: Option<String>,
}

/// How a switch is shown, in the design's pixels.
#[derive(Clone, Copy, Debug, PartialEq, Eq, Structural)]
pub struct SwitchView {
    pub width: u32,
    pub height: u32,
    pub thumb: u32,
    /// How far the thumb stands from the left, inside the track.
    pub thumb_left: u32,
    pub track: Color,
    pub thumb_color: Color,
    /// How opaque the track is, in percent.
    pub opacity: u32,
}

/// The space between the thumb and the edge of its track.
pub const SWITCH_INSET: u32 = 2;

impl Switch {
    pub fn new(id: String) -> (switch: Self)
        ensures
            switch == (Switch {
                id,
                checked: false,
                disabled: false,
                label: None,
                on_click: None,
                size: Size::Medium,
                color: None,
                tooltip: None,
            }),
    {
        Switch {
            id,
            checked: false,
            disabled: false,
            label: None,
            on_click: None,
            size: Size::Medium,
            color: None,
            tooltip: None,
        }
    }

    pub fn checked(self, checked: bool) -> (switch: Self)
        ensures
            switch == (Switch { checked, ..self }),
    {
        let mut switch = self;
        switch.checked = checked;
        switch
    }

    pub fn label(self, label: String) -> (switch: Self)
        ensures
            switch == (Switch { label: Some(label), ..self }),
    {
        let mut switch = self;
        switch.label = Some(label);
        switch
    }

    pub fn on_click(self, handler: u64) -> (switch: Self)
        ensures
            switch == (Switch { on_click: Some(handler), ..self }),
    {
        let mut switch = self;
        switch.on_click = Some(handler);
        switch
    }

    pub fn color(self, color: Color) -> (switch: Self)
        ensures
            switch == (Switch { color: Some(color), ..self }),
    {
        let mut switch = self;
        switch.color = Some(color);
        switch
    }

    pub fn tooltip(self, tooltip: String) -> (switch: Self)
        ensures
            switch == (Switch { tooltip: Some(tooltip), ..self }),
    {
        let mut switch = self;
        switch.tooltip = Some(tooltip);
        switch
    }

    pub fn disabled(self, disabled: bool) -> (switch: Self)
        ensures
            switch == (Switch { disabled, ..self }),
    {
        let mut switch = self;
        switch.disabled = disabled;
        switch
    }

    pub fn with_size(self, size: Size) -> (switch: Self)
        ensures
            switch == (Switch { size, ..self }),
    {
        let mut switch = self;
        switch.size = size;
        switch
    }

    pub open spec fn small(&self) -> bool {
        self.size == Size::XSmall || self.size == Size::Small
    }

    /// Decide how the switch is shown: its thumb is at the far end while it is on.
    pub fn render(&self, theme: &ThemeColors) -> (view: SwitchView)
        ensures
            view.width == if self.small() {
                28u32
            } else {
                36
            },
            view.height == if self.small() {
                16u32
            } else {
                20
            },
            view.thumb == if self.small() {
                12u32
            } else {
                16
            },
            view.thumb_left == if self.checked {
                view.width - view.thumb - 2 * SWITCH_INSET
            } else {
                0
            },
            view.track == if self.checked {
                match self.color {
                    Some(color) => color,
                    None => theme.primary,
                }
            } else {
                theme.muted
            },
            view.thumb_color == theme.background,
            view.opacity == control_opacity(self.disabled),
    {
        let small = match self.size {
            Size::XSmall | Size::Small => true,
            _ => false,
        };
        let width: u32 = if small {
            28
        } else {
            36
        };
        let height: u32 = if small {
            16
        } else {
            20
        };
        let thumb: u32 = if small {
            12
        } else {
            16
        };
        let on = match self.color {
            Some(color) => color,
            None => theme.primary,
        };
        SwitchView {
            width,
            height,
            thumb,
            thumb_left: if self.checked {
                width - thumb - 2 * SWITCH_INSET
            } else {
                0
            },
            track: if self.checked {
                on
            } else {
                theme.muted
            },
            thumb_color: theme.background,
            opacity: opacity_of(self.disabled),
        }
    }
}

/// All of what a progress bar measures: one percent is ten thousand parts of it.
pub const WHOLE: u32 = 1_000_000;

pub struct Progress {
    pub id: String,
    pub color: Option<Color>,
    /// How much is done, of [`WHOLE`] parts.
    pub value: u32,
    pub size: Size,
    pub loading: bool,
}

/// How a progress bar is shown.
#[derive(Clone, Copy, Debug, PartialEq, Eq, Structural)]
pub struct ProgressView {
    pub height: Extent,
    pub indicator: Color,
    pub track: Color,
    /// How much of the track is filled, of [`WHOLE`] parts; nothing while the bar
    /// only shows that something is going on.
    pub filled: Option<u32>,
}

impl Progress {
    pub fn new(id: String) -> (progress: Self)
        ensures
            progress == (Progress {
                id,
                color: None,
                value: 0,
                size: Size::Medium,
                loading: false,
            }),
    {
        Progress { id, color: None, value: 0, size: Size::Medium, loading: false }
    }

    pub fn loading(self, loading: bool) -> (progress: Self)
        ensures
            progress == (Progress { loading, ..self }),
    {
        let mut progress = self;
        progress.loading = loading;
        progress
    }

    pub fn color(self, color: Color) -> (progress: Self)
        ensures
            progress == (Progress { color: Some(color), ..self }),
    {
        let mut progress = self;
        progress.color = Some(color);
        progress
    }

    pub fn with_size(self, size: Size) -> (progress: Self)
        ensures
            progress == (Progress { size, ..self }),
    {
        let mut progress = self;
        progress.size = size;
        progress
    }

    /// Say how much is done; all of it at most.
    pub fn value(self, value: u32) -> (progress: Self)
        ensures
            progress == (Progress {
                value: if value > WHOLE {
                    WHOLE
                } else {
                    value
                },
                ..self
            }),
    {
        let mut progress = self;
        progress.value = if value > WHOLE {
            WHOLE
        } else {
            value
        };
        progress
    }

    /// Decide how the bar is shown.
    pub fn render(&self, theme: &ThemeColors) -> (view: ProgressView)
        ensures
            view.height == (match self.size {
                Size::XSmall => Extent::Design(4),
                Size::Small => Extent::Design(6),
                Size::Medium => Extent::Design(8),
                Size::Large => Extent::Design(10),
                Size::Size(length) => Extent::Length(length),
            }),
            view.indicator == (match self.color {
                Some(color) => color,
                None => theme.primary,
            }),
            view.track == view.indicator.faded(20),
            view.filled == if self.loading {
                None
            } else {
                Some(self.value)
            },
    {
        let height = match self.size {
            Size::XSmall => Extent::Design(4),
            Size::Small => Extent::Design(6),
            Size::Medium => Extent::Design(8),
            Size::Large => Extent::Design(10),
            Size::Size(length) => Extent::Length(length),
        };
        let indicator = match self.color {
            Some(color) => color,
            None => theme.primary,
        };
        ProgressView {
            height,
            indicator,
            track: indicator.opacity(20),
            filled: if self.loading {
                None
            } else {
                Some(self.value)
            },
        }
    }
}

/// What a tooltip shows: a text, or what the painter draws.
pub enum TooltipContent {
    Text(String),
    Element(u64),
}

pub struct Tooltip {
    pub content: TooltipContent,
    /// The keys to show, where they were given.
    pub key_binding: Option<String>,
    /// The action whose keys are shown else.
    pub action: Option<TooltipAction>,
}

/// An action, by the number that the painter knows it by, and the context that it is
/// bound in.
pub struct TooltipAction {
    pub action: u64,
    pub context: Option<String>,
}

impl Tooltip {
    pub fn new(content: String) -> (tooltip: Self)
        ensures
            tooltip == (Tooltip {
                content: TooltipContent::Text(content),
                key_binding: None,
                action: None,
            }),
    {
        Tooltip { content: TooltipContent::Text(content), key_binding: None, action: None }
    }

    pub fn element(builder: u64) -> (tooltip: Self)
        ensures
            tooltip == (Tooltip {
                content: TooltipContent::Element(builder),
                key_binding: None,
                action: None,
            }),
    {
        Tooltip { content: TooltipContent::Element(builder), key_binding: None, action: None }
    }

    pub fn action(self, action: u64, context: Option<String>) -> (tooltip: Self)
        ensures
            tooltip == (Tooltip { action: Some(TooltipAction { action, context }), ..self }),
    {
        let mut tooltip = self;
        tooltip.action = Some(TooltipAction { action, context });
        tooltip
    }

    pub fn key_binding(self, key_binding: Option<String>) -> (tooltip: Self)
        ensures
            tooltip == (Tooltip { key_binding, ..self }),
    {
        let mut tooltip = self;
        tooltip.key_binding = key_binding;
        tooltip
    }

    /// The keys that are shown: those given, else those bound to the action.
    pub fn shown_keys<'a>(&'a self, bound: Option<&'a String>) -> (keys: Option<&'a String>)
        ensures
            match keys {
                Some(got) => if self.key_binding is Some {
                    Some(*got) == self.key_binding
                } else {
                    self.action is Some && bound == Some(got)
                },
                None => self.key_binding is None && (self.action is None || bound is None),
            },
    {
        match &self.key_binding {
            Some(keys) => Some(keys),
            None => if self.action.is_some() {
                bound
            } else {
                None
            },
        }
    }
}

} // verus!
