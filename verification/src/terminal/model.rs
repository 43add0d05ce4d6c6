//! A terminal's grid as a client holds it.
use vstd::prelude::*;

verus! {

/// A colour as a terminal program names it.
#[derive(Debug, Clone, Copy, PartialEq, Eq, Structural)]
pub enum TerminalColor {
    Foreground,
    Background,
    Cursor,
    Rgb { r: u8, g: u8, b: u8 },
    Indexed(u8),
}

/// How many columns a cell's character takes.
#[derive(Debug, Clone, Copy, PartialEq, Eq, Structural)]
pub enum CellWidth {
    Narrow,
    Wide,
    /// The second column of a wide character.
    Spacer,
}

#[derive(Debug, Clone, Copy, PartialEq, Eq, Structural)]
pub enum CursorShape {
    Block,
    Beam,
    Underline,
    Hidden,
}

/// How a cell's character is drawn.
#[derive(Debug, Clone, Copy, PartialEq, Eq, Structural)]
pub struct CellFlags {
    pub bold: bool,
    pub italic: bool,
    pub inverse: bool,
    /// Underlined by a straight, double, dotted or dashed line.
    pub underline: bool,
    /// Underlined by a wave.
    pub undercurl: bool,
}

impl CellFlags {
    /// No flag set.
    pub fn none() -> (flags: CellFlags)
        ensures
            flags == (CellFlags {
                bold: false,
                italic: false,
                inverse: false,
                underline: false,
                undercurl: false,
            }),
    {
        CellFlags { bold: false, italic: false, inverse: false, underline: false, undercurl: false }
    }
}

#[derive(Debug, Clone, Copy, PartialEq, Eq, Structural)]
pub struct TerminalStyle {
    pub fg: TerminalColor,
    pub bg: TerminalColor,
    pub flags: CellFlags,
}

impl Default for TerminalStyle {
    fn default() -> (style: Self)
        ensures
            style.fg == TerminalColor::Foreground,
            style.bg == TerminalColor::Background,
            !style.flags.bold && !style.flags.italic && !style.flags.inverse
                && !style.flags.underline && !style.flags.undercurl,
    {
        TerminalStyle {
            fg: TerminalColor::Foreground,
            bg: TerminalColor::Background,
            flags: CellFlags::none(),
        }
    }
}

/// One cell. An empty text is a blank.
#[derive(Debug)]
pub struct TerminalCell {
    pub text: String,
    pub width: CellWidth,
    pub style: TerminalStyle,
}

/// A link in a grid, from its first cell to its last, as rows and columns.
#[derive(Debug)]
pub struct HyperlinkMatch {
    pub start: (usize, usize),
    pub end: (usize, usize),
    pub url: String,
}

/// What a terminal shows. Lines and rows count from the top of the screen.
#[derive(Debug)]
pub struct TerminalModel {
    pub cols: usize,
    pub rows: usize,
    pub lines: Vec<Vec<TerminalCell>>,
    /// How far the view is scrolled into the history.
    pub display_offset: usize,
    pub cursor: Option<(usize, usize)>,
    pub cursor_shape: CursorShape,
    pub cursor_blinking: bool,
    /// The selected columns of each row, first and last.
    pub selection: Vec<Option<(usize, usize)>>,
    /// Whether every row may have changed since damage was cleared.
    pub fully_damaged: bool,
    /// Whether each row may have changed since damage was cleared.
    pub damaged: Vec<bool>,
}

impl TerminalModel {
    /// The cells that a row shows.
    pub open spec fn line(&self, row: int) -> Seq<TerminalCell> {
        if 0 <= row < self.lines@.len() {
            let cells = self.lines@[row]@;
            if cells.len() <= self.cols {
                cells
            } else {
                cells.take(self.cols as int)
            }
        } else {
            Seq::empty()
        }
    }

    pub open spec fn spec_cell(&self, row: int, col: int) -> Option<TerminalCell> {
        if 0 <= col < self.line(row).len() {
            Some(self.line(row)[col])
        } else {
            None
        }
    }

    /// The cell at a row and a column, where there is one.
    pub fn cell(&self, row: usize, col: usize) -> (cell: Option<&TerminalCell>)
        ensures
            match (cell, self.spec_cell(row as int, col as int)) {
                (Some(got), Some(want)) => *got == want,
                (None, None) => true,
                _ => false,
            },
    {
        if row < self.lines.len() && col < self.cols && col < self.lines[row].len() {
            Some(&self.lines[row][col])
        } else {
            None
        }
    }

    pub open spec fn selects(&self, row: int, col: int) -> bool {
        0 <= row < self.selection@.len() && (match self.selection@[row] {
            Some(span) => span.0 <= col <= span.1,
            None => false,
        })
    }

    pub fn is_selected(&self, row: usize, col: usize) -> (selected: bool)
        ensures
            selected == self.selects(row as int, col as int),
    {
        if row < self.selection.len() {
            match self.selection[row] {
                Some(span) => span.0 <= col && col <= span.1,
                None => false,
            }
        } else {
            false
        }
    }

    pub open spec fn row_is_damaged(&self, row: int) -> bool {
        0 <= row < self.damaged@.len() && self.damaged@[row]
    }

    pub fn row_damaged(&self, row: usize) -> (damaged: bool)
        ensures
            damaged == self.row_is_damaged(row as int),
    {
        row < self.damaged.len() && self.damaged[row]
    }

    /// Count every row as unchanged from here on.
    pub fn clear_damage(&mut self)
        ensures
            !final(self).fully_damaged,
            forall|row: int| !#[trigger] final(self).row_is_damaged(row),
            forall|row: int| #[trigger] final(self).line(row) == old(self).line(row),
            forall|row: int, col: int| #[trigger]
                final(self).selects(row, col) == old(self).selects(row, col),
            final(self).cols == old(self).cols,
            final(self).rows == old(self).rows,
            final(self).display_offset == old(self).display_offset,
            final(self).cursor == old(self).cursor,
            final(self).cursor_shape == old(self).cursor_shape,
            final(self).cursor_blinking == old(self).cursor_blinking,
    {
        self.fully_damaged = false;
        self.damaged = Vec::new();
    }
}

} // verus!
