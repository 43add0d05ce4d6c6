//! Text fields.
use crate::protocol::PixelBits;
use crate::theme::color::Color;
use crate::theme::resolve::{ThemeColors, RADIUS};
use crate::utf16::{count_utf16, utf16_len};
use crate::widgets::button::Size;
use crate::widgets::word::ByteRange;
use vstd::prelude::*;
use vstd::string::StrSliceExecFns;

verus! {

/// The editor behind a field, by the number that the painter knows it by.
#[derive(Clone, Copy, Debug, PartialEq, Eq, Structural)]
pub enum EditorState {
    Input(u64),
    Textarea(u64),
}

pub struct Input {
    pub state: EditorState,
    pub size: Size,
    pub height: Option<PixelBits>,
    pub appearance: bool,
    pub bordered: bool,
    pub disabled: bool,
    pub tab_index: isize,
    pub role: Option<String>,
    pub aria_label: Option<String>,
}

pub open spec fn plain_input(state: EditorState) -> Input {
    Input {
        state,
        size: Size::Medium,
        height: None,
        appearance: true,
        bordered: true,
        disabled: false,
        tab_index: 0,
        role: None,
        aria_label: None,
    }
}

/// What the key at the end of a software keyboard does.
#[derive(Clone, Copy, Debug, PartialEq, Eq, Structural)]
pub enum TextInputAction {
    Enter,
    Done,
}

/// How large the text of a field is: as the design has it small, or a share of a length.
#[derive(Clone, Copy, Debug, PartialEq, Eq, Structural)]
pub enum TextSize {
    XSmall,
    Small,
    Base,
    /// Seven eighths of a length.
    SevenEighthsOf(PixelBits),
}

/// The box of a field, in eighths of the design's unit where a number is given.
#[derive(Clone, Copy, Debug, PartialEq, Eq, Structural)]
pub enum FieldBox {
    /// One row: a height and a padding on both sides.
    Row { height: u32, padding: u32 },
    /// One row as high as a length, with a fifth of it as padding on both sides.
    RowOf(PixelBits),
    /// Many rows, as high as they are or as a length says.
    Area(Option<PixelBits>),
}

/// The height of a field's lines, in eighths of the design's unit.
pub const LINE_HEIGHT: u32 = 10;

/// The space between a text area's text and its edges, in pixels.
pub const AREA_INSET: u32 = 8;

/// How a field is shown.
#[derive(Clone, Copy, Debug, PartialEq, Eq, Structural)]
pub struct InputView {
    pub multi_line: bool,
    pub focused: bool,
    pub disabled: bool,
    pub text: TextSize,
    pub shape: FieldBox,
    /// The space between the text and the edges of the editor, in pixels.
    pub inset: u32,
    /// The background, where it is painted.
    pub surface: Option<FieldSurface>,
    pub colors: EditorColors,
    pub action: TextInputAction,
}

/// What a field is painted on.
#[derive(Clone, Copy, Debug, PartialEq, Eq, Structural)]
pub struct FieldSurface {
    pub background: Color,
    /// The radius of its corners, in pixels.
    pub radius: u32,
    /// The frame around it, where there is one.
    pub frame: Option<FieldFrame>,
}

/// The colours of a field's frame.
#[derive(Clone, Copy, Debug, PartialEq, Eq, Structural)]
pub struct FieldFrame {
    pub border: Color,
    /// That of the focused field.
    pub focused: Color,
}

/// The colours of an editor.
#[derive(Clone, Copy, Debug, PartialEq, Eq, Structural)]
pub struct EditorColors {
    pub foreground: Color,
    pub muted_foreground: Color,
    pub background: Color,
    pub border: Color,
    pub selection: Color,
    pub caret: Color,
}

pub open spec fn editor_colors(theme: ThemeColors) -> EditorColors {
    EditorColors {
        foreground: theme.foreground,
        muted_foreground: theme.muted_foreground,
        background: theme.background,
        border: theme.border,
        selection: theme.selection,
        caret: theme.foreground,
    }
}

impl Input {
    fn with_state(state: EditorState) -> (input: Self)
        ensures
            input == plain_input(state),
    {
        Input {
            state,
            size: Size::Medium,
            height: None,
            appearance: true,
            bordered: true,
            disabled: false,
            tab_index: 0,
            role: None,
            aria_label: None,
        }
    }

    pub fn new(state: u64) -> (input: Self)
        ensures
            input == plain_input(EditorState::Input(state)),
    {
        Input::with_state(EditorState::Input(state))
    }

    pub fn appearance(self, appearance: bool) -> (input: Self)
        ensures
            input == (Input { appearance, ..self }),
    {
        let mut input = self;
        input.appearance = appearance;
        input
    }

    pub fn bordered(self, bordered: bool) -> (input: Self)
        ensures
            input == (Input { bordered, ..self }),
    {
        let mut input = self;
        input.bordered = bordered;
        input
    }

    pub fn disabled(self, disabled: bool) -> (input: Self)
        ensures
            input == (Input { disabled, ..self }),
    {
        let mut input = self;
        input.disabled = disabled;
        input
    }

    pub fn h(self, height: PixelBits) -> (input: Self)
        ensures
            input == (Input { height: Some(height), ..self }),
    {
        let mut input = self;
        input.height = Some(height);
        input
    }

    pub fn tab_index(self, tab_index: isize) -> (input: Self)
        ensures
            input == (Input { tab_index, ..self }),
    {
        let mut input = self;
        input.tab_index = tab_index;
        input
    }

    pub fn role(self, role: String) -> (input: Self)
        ensures
            input == (Input { role: Some(role), ..self }),
    {
        let mut input = self;
        input.role = Some(role);
        input
    }

    pub fn aria_label(self, label: String) -> (input: Self)
        ensures
            input == (Input { aria_label: Some(label), ..self }),
    {
        let mut input = self;
        input.aria_label = Some(label);
        input
    }

    pub fn with_size(self, size: Size) -> (input: Self)
        ensures
            input == (Input { size, ..self }),
    {
        let mut input = self;
        input.size = size;
        input
    }

    pub open spec fn is_multi_line(&self) -> bool {
        self.state is Textarea
    }

    pub open spec fn text_size(&self) -> TextSize {
        match self.size {
            Size::XSmall => TextSize::XSmall,
            Size::Small | Size::Medium => TextSize::Small,
            Size::Large => TextSize::Base,
            Size::Size(length) => TextSize::SevenEighthsOf(length),
        }
    }

    pub open spec fn shape(&self) -> FieldBox {
        if self.is_multi_line() {
            FieldBox::Area(self.height)
        } else {
            match self.size {
                Size::XSmall => FieldBox::Row { height: 10, padding: 2 },
                Size::Small => FieldBox::Row { height: 12, padding: 4 },
                Size::Medium => FieldBox::Row { height: 16, padding: 5 },
                Size::Large => FieldBox::Row { height: 20, padding: 6 },
                Size::Size(length) => FieldBox::RowOf(length),
            }
        }
    }

    pub open spec fn surface(&self, theme: ThemeColors) -> Option<FieldSurface> {
        if self.appearance {
            Some(
                FieldSurface {
                    background: theme.background,
                    radius: RADIUS,
                    frame: if self.bordered {
                        Some(FieldFrame { border: theme.input, focused: theme.ring })
                    } else {
                        None
                    },
                },
            )
        } else {
            None
        }
    }

    /// Decide how the field is shown.
    pub fn render(&self, editor_focused: bool, theme: &ThemeColors) -> (view: InputView)
        ensures
            view == (InputView {
                multi_line: self.is_multi_line(),
                focused: editor_focused && !self.disabled,
                disabled: self.disabled,
                text: self.text_size(),
                shape: self.shape(),
                inset: if self.is_multi_line() {
                    AREA_INSET
                } else {
                    0
                },
                surface: self.surface(*theme),
                colors: editor_colors(*theme),
                action: if self.is_multi_line() {
                    TextInputAction::Enter
                } else {
                    TextInputAction::Done
                },
            }),
    {
        let multi_line = match self.state {
            EditorState::Textarea(_) => true,
            EditorState::Input(_) => false,
        };
        let focused = editor_focused && !self.disabled;
        let text = match self.size {
            Size::XSmall => TextSize::XSmall,
            Size::Small | Size::Medium => TextSize::Small,
            Size::Large => TextSize::Base,
            Size::Size(length) => TextSize::SevenEighthsOf(length),
        };
        let shape = if multi_line {
            FieldBox::Area(self.height)
        } else {
            match self.size {
                Size::XSmall => FieldBox::Row { height: 10, padding: 2 },
                Size::Small => FieldBox::Row { height: 12, padding: 4 },
                Size::Medium => FieldBox::Row { height: 16, padding: 5 },
                Size::Large => FieldBox::Row { height: 20, padding: 6 },
                Size::Size(length) => FieldBox::RowOf(length),
            }
        };
        let frame = if self.bordered {
            Some(FieldFrame { border: theme.input, focused: theme.ring })
        } else {
            None
        };
        let surface = if self.appearance {
            Some(FieldSurface { background: theme.background, radius: RADIUS, frame })
        } else {
            None
        };
        InputView {
            multi_line,
            focused,
            disabled: self.disabled,
            text,
            shape,
            inset: if multi_line {
                AREA_INSET
            } else {
                0
            },
            surface,
            colors: EditorColors {
                foreground: theme.foreground,
                muted_foreground: theme.muted_foreground,
                background: theme.background,
                border: theme.border,
                selection: theme.selection,
                caret: theme.foreground,
            },
            action: if multi_line {
                TextInputAction::Enter
            } else {
                TextInputAction::Done
            },
        }
    }

    /// The name of the field for assistive technology: its own, else what it says
    /// while it is empty.
    pub fn accessibility_label<'a>(&'a self, placeholder: &'a String) -> (label: Option<&'a String>)
        ensures
            match label {
                Some(got) => if self.aria_label is Some {
                    Some(*got) == self.aria_label
                } else {
                    got == placeholder && placeholder@.len() > 0
                },
                None => self.aria_label is None && placeholder@.len() == 0,
            },
    {
        match &self.aria_label {
            Some(label) => Some(label),
            None => if placeholder.as_str().unicode_len() > 0 {
                Some(placeholder)
            } else {
                None
            },
        }
    }
}

pub struct Textarea {
    pub input: Input,
}

impl Textarea {
    pub fn new(state: u64) -> (textarea: Self)
        ensures
            textarea.input == plain_input(EditorState::Textarea(state)),
    {
        Textarea { input: Input::with_state(EditorState::Textarea(state)) }
    }

    pub fn appearance(self, value: bool) -> (textarea: Self)
        ensures
            textarea.input == (Input { appearance: value, ..self.input }),
    {
        Textarea { input: self.input.appearance(value) }
    }

    pub fn bordered(self, value: bool) -> (textarea: Self)
        ensures
            textarea.input == (Input { bordered: value, ..self.input }),
    {
        Textarea { input: self.input.bordered(value) }
    }

    pub fn disabled(self, value: bool) -> (textarea: Self)
        ensures
            textarea.input == (Input { disabled: value, ..self.input }),
    {
        Textarea { input: self.input.disabled(value) }
    }

    pub fn h(self, value: PixelBits) -> (textarea: Self)
        ensures
            textarea.input == (Input { height: Some(value), ..self.input }),
    {
        Textarea { input: self.input.h(value) }
    }

}

/// The length of a field's text as input methods count it.
pub fn text_length_utf16(content: &str) -> (units: usize)
    ensures
        units == utf16_len(content@),
{
    count_utf16(content)
}

/// The range to set, where an input method asks for one that is not selected yet.
pub fn changed_selection(selected: ByteRange, asked: ByteRange) -> (set: Option<ByteRange>)
    ensures
        set == if selected == asked {
            None
        } else {
            Some(asked)
        },
{
    if selected == asked {
        None
    } else {
        Some(asked)
    }
}

/// What the menu over a selection offers.
#[derive(Clone, Copy, Debug, PartialEq, Eq, Structural)]
pub struct SelectionMenu {
    pub copy: bool,
    pub cut: bool,
    pub paste: bool,
    pub select_all: bool,
}

/// Masked and disabled text is not copied; what cannot be edited is neither cut
/// nor pasted over.
pub fn selection_menu(masked: bool, disabled: bool, editable: bool) -> (menu: SelectionMenu)
    ensures
        menu == (SelectionMenu {
            copy: !masked && !disabled,
            cut: !masked && !disabled && editable,
            paste: editable,
            select_all: true,
        }),
{
    let copy = !masked && !disabled;
    SelectionMenu { copy, cut: copy && editable, paste: editable, select_all: true }
}

} // verus!
