//! Scroll state of a window onto a block of text that may be larger than
//! the window. The state is brought up to date whenever the text or the
//! window changes size, and moved by the user's actions in between.

use vstd::prelude::*;

verus! {

/// What the user can ask of the focused part of the screen.
#[derive(Clone, Copy, Debug, PartialEq, Eq, Structural)]
pub enum Action {
    Up,
    Down,
    Left,
    Right,
    ScrollUp,
    ScrollDown,
    ScrollLeft,
    ScrollRight,
    PageUp,
    PageDown,
    Home,
    End,
    Submit,
    Cancel,
}

/// What became of an input.
#[derive(Clone, Copy, Debug, PartialEq, Eq, Structural)]
pub enum Update {
    /// It was handled here.
    Consumed,
    /// It was not: whoever comes next may handle it.
    Propagate,
}

/// How far outside the text the scrollbars stand. With 0 a scrollbar takes
/// the outermost row or column of the text; a positive margin moves it out,
/// a negative one in.
#[derive(Clone, Copy, Debug, PartialEq, Eq, Structural)]
pub struct ScrollbarMargins {
    pub right: i32,
    pub bottom: i32,
}

/// A window onto a block of text, which scrolls in both directions.
#[derive(Clone, Copy, Debug, PartialEq, Eq, Structural)]
pub struct TextWindow {
    /// Columns scrolled past
    pub offset_x: usize,
    /// Lines scrolled past
    pub offset_y: usize,
    /// Width of the whole text
    pub text_width: usize,
    /// Height of the whole text
    pub text_height: usize,
    /// Width of the part that shows
    pub window_width: usize,
    /// Height of the part that shows
    pub window_height: usize,
}

impl Default for ScrollbarMargins {
    fn default() -> (margins: ScrollbarMargins)
        ensures
            margins == (ScrollbarMargins { right: 1, bottom: 1 }),
    {
        ScrollbarMargins { right: 1, bottom: 1 }
    }
}

impl Default for TextWindow {
    fn default() -> (window: TextWindow)
        ensures
            window == (TextWindow {
                offset_x: 0,
                offset_y: 0,
                text_width: 0,
                text_height: 0,
                window_width: 0,
                window_height: 0,
            }),
    {
        TextWindow {
            offset_x: 0,
            offset_y: 0,
            text_width: 0,
            text_height: 0,
            window_width: 0,
            window_height: 0,
        }
    }
}

/// The smaller of two numbers.
pub open spec fn min(a: int, b: int) -> int {
    if a <= b {
        a
    } else {
        b
    }
}

/// `a - b`, or 0 where that is negative.
pub open spec fn minus(a: int, b: int) -> int {
    if a >= b {
        a - b
    } else {
        0
    }
}

/// The number of terminal columns that a text takes, as `unicode-width`
/// counts them, with characters of ambiguous width taken as narrow.
pub uninterp spec fn display_width(text: Seq<char>) -> usize;

/// A width as a number of columns of the screen, which has no more than
/// 65535 of them.
pub open spec fn clipped(width: usize) -> u16 {
    if width > 0xffff {
        0xffffu16
    } else {
        width as u16
    }
}

/// A width as a number of columns of the screen.
pub fn clip_width(width: usize) -> (columns: u16)
    ensures
        columns == clipped(width),
{
    if width > 0xffff {
        0xffff
    } else {
        width as u16
    }
}

/// The width of each of the symbols of a line, for [`TextWindow::visible_cells`].
pub fn symbol_widths(symbols: &Vec<String>) -> (widths: Vec<u16>)
    ensures
        widths@.len() == symbols@.len(),
        forall|i: int|
            0 <= i < symbols@.len() ==> #[trigger] widths@[i] == clipped(
                display_width(symbols@[i]@),
            ),
{
    let mut widths: Vec<u16> = Vec::new();
    let mut i: usize = 0;
    while i < symbols.len()
        invariant
            i <= symbols@.len(),
            widths@.len() == i,
            forall|j: int|
                0 <= j < i ==> #[trigger] widths@[j] == clipped(display_width(symbols@[j]@)),
        decreases symbols@.len() - i,
    {
        widths.push(clip_width(width_of(symbols[i].as_str())));
        i += 1;
    }
    widths
}

/// `unicode_width::UnicodeWidthStr::width` on a string slice: the displayed
/// width of the text in columns. The contract names that number and claims
/// nothing more of it.
#[verifier::external_body]
fn width_of(text: &str) -> (width: usize)
    ensures
        width == display_width(text@),
{
    unicode_width::UnicodeWidthStr::width(text)
}

/// The larger of two numbers.
pub open spec fn max(a: int, b: int) -> int {
    if a >= b {
        a
    } else {
        b
    }
}

/// The greatest of the first `n` widths; 0 where there is none.
pub open spec fn widest(widths: Seq<usize>, n: int) -> int
    decreases n,
{
    if n <= 0 {
        0
    } else {
        max(widest(widths, n - 1), widths[n - 1] as int)
    }
}

/// Where the symbols `from..to` of a line come to stand, given the width of
/// each symbol of the line: each symbol with its position in the line and
/// its column in the window. The first stands at column `column`, each next
/// one behind the one before it, and none at or beyond column `limit`.
pub open spec fn placed(widths: Seq<u16>, from: int, to: int, column: int, limit: int) -> Seq<
    (int, int),
>
    decreases to - from,
{
    if from >= to || column >= limit {
        Seq::empty()
    } else {
        seq![(from, column)] + placed(widths, from + 1, to, column + widths[from], limit)
    }
}

/// The view of a list of placed symbols.
pub open spec fn cells_view(cells: Seq<(usize, u16)>) -> Seq<(int, int)> {
    cells.map_values(|cell: (usize, u16)| (cell.0 as int, cell.1 as int))
}

/// Number of decimal digits of `n`.
pub open spec fn digits(n: nat) -> nat
    decreases n,
{
    if n < 10 {
        1
    } else {
        1 + digits(n / 10)
    }
}

impl TextWindow {
    /// The last line that can be scrolled to: the first line of the last
    /// page of text.
    pub open spec fn last_line(&self) -> int {
        minus(self.text_height as int, self.window_height as int)
    }

    /// The last column that can be scrolled to: the left edge of the
    /// rightmost page of text.
    pub open spec fn last_column(&self) -> int {
        minus(self.text_width as int, self.window_width as int)
    }

    /// The window shows a part of the text that exists.
    pub open spec fn in_bounds(&self) -> bool {
        self.offset_x <= self.last_column() && self.offset_y <= self.last_line()
    }

    /// The same window, scrolled to the given column and line.
    pub open spec fn at(self, column: int, line: int) -> TextWindow {
        TextWindow { offset_x: column as usize, offset_y: line as usize, ..self }
    }

    /// The window after an action; `None` for an action that means nothing
    /// to it.
    pub open spec fn after(self, action: Action) -> Option<TextWindow> {
        let x = self.offset_x as int;
        let y = self.offset_y as int;
        let page = self.window_height as int;
        match action {
            Action::Up | Action::ScrollUp => Some(self.at(x, minus(y, 1))),
            Action::Down | Action::ScrollDown => Some(self.at(x, min(y + 1, self.last_line()))),
            Action::ScrollLeft => Some(self.at(minus(x, 1), y)),
            Action::ScrollRight => Some(self.at(min(x + 1, self.last_column()), y)),
            Action::PageUp => Some(self.at(x, minus(y, page))),
            Action::PageDown => Some(self.at(x, min(y + page, self.last_line()))),
            Action::Home => Some(self.at(x, 0)),
            Action::End => Some(self.at(x, self.last_line())),
            _ => None,
        }
    }

    /// The last line that can be scrolled to.
    pub fn max_scroll_line(&self) -> (line: usize)
        ensures
            line == self.last_line(),
    {
        self.text_height.saturating_sub(self.window_height)
    }

    /// The last column that can be scrolled to.
    pub fn max_scroll_column(&self) -> (column: usize)
        ensures
            column == self.last_column(),
    {
        self.text_width.saturating_sub(self.window_width)
    }

    /// Scroll up by `lines`, no further than the first line.
    pub fn scroll_up(&mut self, lines: usize)
        ensures
            *final(self) == old(self).at(
                old(self).offset_x as int,
                minus(old(self).offset_y as int, lines as int),
            ),
    {
        self.offset_y = self.offset_y.saturating_sub(lines);
    }

    /// Scroll down by `lines`, no further than the last page.
    pub fn scroll_down(&mut self, lines: usize)
        ensures
            *final(self) == old(self).at(
                old(self).offset_x as int,
                min(old(self).offset_y + lines, old(self).last_line()),
            ),
    {
        let limit = self.max_scroll_line();
        let target = self.offset_y.saturating_add(lines);
        self.offset_y = if target <= limit {
            target
        } else {
            limit
        };
    }

    /// Scroll to a line, which then stands as near to the top of the window
    /// as can be.
    pub fn scroll_to(&mut self, line: usize)
        ensures
            *final(self) == old(self).at(
                old(self).offset_x as int,
                min(line as int, old(self).last_line()),
            ),
    {
        let limit = self.max_scroll_line();
        self.offset_y = if line <= limit {
            line
        } else {
            limit
        };
    }

    /// Scroll left by `columns`, no further than the first column.
    pub fn scroll_left(&mut self, columns: usize)
        ensures
            *final(self) == old(self).at(
                minus(old(self).offset_x as int, columns as int),
                old(self).offset_y as int,
            ),
    {
        self.offset_x = self.offset_x.saturating_sub(columns);
    }

    /// Scroll right by `columns`, no further than the rightmost page.
    pub fn scroll_right(&mut self, columns: usize)
        ensures
            *final(self) == old(self).at(
                min(old(self).offset_x + columns, old(self).last_column()),
                old(self).offset_y as int,
            ),
    {
        let limit = self.max_scroll_column();
        let target = self.offset_x.saturating_add(columns);
        self.offset_x = if target <= limit {
            target
        } else {
            limit
        };
    }

    /// Bring the scroll state back into bounds. The state can leave them
    /// when the text shrinks or the window grows.
    pub fn clamp_scroll(&mut self)
        ensures
            *final(self) == old(self).at(
                min(old(self).offset_x as int, old(self).last_column()),
                min(old(self).offset_y as int, old(self).last_line()),
            ),
            final(self).in_bounds(),
    {
        let column = self.max_scroll_column();
        let line = self.max_scroll_line();
        if self.offset_x > column {
            self.offset_x = column;
        }
        if self.offset_y > line {
            self.offset_y = line;
        }
    }

    /// Take note of the size of the text and of the window, as they are
    /// known when the window is drawn, and bring the scroll state into
    /// bounds for them.
    pub fn resize(
        &mut self,
        text_width: usize,
        text_height: usize,
        window_width: usize,
        window_height: usize,
    )
        ensures
            final(self).text_width == text_width,
            final(self).text_height == text_height,
            final(self).window_width == window_width,
            final(self).window_height == window_height,
            final(self).offset_x == min(old(self).offset_x as int, final(self).last_column()),
            final(self).offset_y == min(old(self).offset_y as int, final(self).last_line()),
            final(self).in_bounds(),
    {
        self.text_width = text_width;
        self.text_height = text_height;
        self.window_width = window_width;
        self.window_height = window_height;
        self.clamp_scroll();
    }

    /// Handle an input. Moving and paging scroll the window; anything else,
    /// and an input that is no action, is left to others.
    pub fn update(&mut self, action: Option<Action>) -> (update: Update)
        ensures
            match action {
                Some(a) => match old(self).after(a) {
                    Some(window) => update == Update::Consumed && *final(self) == window,
                    None => update == Update::Propagate && *final(self) == *old(self),
                },
                None => update == Update::Propagate && *final(self) == *old(self),
            },
    {
        let action = match action {
            Some(action) => action,
            None => {
                return Update::Propagate;
            },
        };
        match action {
            Action::Up | Action::ScrollUp => self.scroll_up(1),
            Action::Down | Action::ScrollDown => self.scroll_down(1),
            Action::ScrollLeft => self.scroll_left(1),
            Action::ScrollRight => self.scroll_right(1),
            Action::PageUp => self.scroll_up(self.window_height),
            Action::PageDown => self.scroll_down(self.window_height),
            Action::Home => self.scroll_to(0),
            Action::End => self.scroll_to(usize::MAX),
            _ => {
                return Update::Propagate;
            },
        }
        Update::Consumed
    }

    /// Whether the text is taller than the window.
    pub fn has_vertical_scroll(&self) -> (scrolls: bool)
        ensures
            scrolls == (self.text_height > self.window_height),
    {
        self.text_height > self.window_height
    }

    /// Whether the text is wider than the window.
    pub fn has_horizontal_scroll(&self) -> (scrolls: bool)
        ensures
            scrolls == (self.text_width > self.window_width),
    {
        self.text_width > self.window_width
    }

    /// The lines that show, as the position of the first and the position
    /// after the last. Lines are counted from 0.
    pub fn visible_lines(&self) -> (lines: (usize, usize))
        ensures
            lines.0 == min(self.offset_y as int, self.text_height as int),
            lines.1 == min(self.offset_y + self.window_height, self.text_height as int),
    {
        let end = self.offset_y.saturating_add(self.window_height);
        (
            if self.offset_y <= self.text_height {
                self.offset_y
            } else {
                self.text_height
            },
            if end <= self.text_height {
                end
            } else {
                self.text_height
            },
        )
    }

    /// Width of a text, given the width of each of its lines: that of its
    /// widest line.
    pub fn width_of_text(line_widths: &Vec<usize>) -> (width: usize)
        ensures
            width == widest(line_widths@, line_widths@.len() as int),
    {
        let mut width: usize = 0;
        let mut i: usize = 0;
        while i < line_widths.len()
            invariant
                i <= line_widths@.len(),
                width == widest(line_widths@, i as int),
            decreases line_widths@.len() - i,
        {
            if line_widths[i] > width {
                width = line_widths[i];
            }
            i += 1;
        }
        width
    }

    /// What shows of one line, given the width of each of its symbols: the
    /// symbols from the horizontal scroll position on, as many as the window
    /// is wide, each with its position in the line and the column at which
    /// it is drawn, as long as that column lies within `area_width`.
    pub fn visible_cells(&self, widths: &Vec<u16>, area_width: u16) -> (cells: Vec<(usize, u16)>)
        ensures
            cells_view(cells@) == placed(
                widths@,
                min(self.offset_x as int, widths@.len() as int),
                min(self.offset_x + self.window_width, widths@.len() as int),
                0,
                area_width as int,
            ),
    {
        let len = widths.len();
        let start = if self.offset_x <= len {
            self.offset_x
        } else {
            len
        };
        let reach = self.offset_x.saturating_add(self.window_width);
        let end = if reach <= len {
            reach
        } else {
            len
        };
        let mut cells: Vec<(usize, u16)> = Vec::new();
        let mut i: usize = start;
        let mut column: u32 = 0;
        let limit: u32 = area_width as u32;
        while i < end && column < limit
            invariant
                start <= i <= end <= widths@.len(),
                limit == area_width,
                column <= limit + 0xffff,
                placed(widths@, start as int, end as int, 0, limit as int) == cells_view(cells@)
                    + placed(widths@, i as int, end as int, column as int, limit as int),
            decreases end - i,
        {
            let ghost before = cells_view(cells@);
            cells.push((i, column as u16));
            assert(cells_view(cells@) =~= before + seq![(i as int, column as int)]);
            column = column + widths[i] as u32;
            i += 1;
        }
        assert(placed(widths@, i as int, end as int, column as int, limit as int) =~= Seq::<
            (int, int),
        >::empty());
        cells
    }

    /// Width of the gutter that holds the line numbers: the number of
    /// digits of the last line's number.
    pub fn gutter_width(&self) -> (width: u16)
        ensures
            width == digits(self.text_height as nat),
    {
        let mut width: u16 = 1;
        let mut rest: usize = self.text_height;
        proof {
            lemma_digits_bound(self.text_height as nat);
        }
        while rest >= 10
            invariant
                1 <= width,
                width - 1 + digits(rest as nat) == digits(self.text_height as nat),
                digits(self.text_height as nat) <= 20,
            decreases rest,
        {
            rest = rest / 10;
            width = width + 1;
        }
        width
    }
}

/// No action scrolls a window out of bounds.
pub proof fn lemma_actions_keep_bounds(window: TextWindow, action: Action)
    requires
        window.in_bounds(),
    ensures
        window.after(action) matches Some(next) ==> next.in_bounds(),
{
}

/// A number that fits in 64 bits has no more than 20 digits.
proof fn lemma_digits_bound(n: nat)
    requires
        n <= 0xffff_ffff_ffff_ffff,
    ensures
        digits(n) <= 20,
{
    reveal_with_fuel(digits, 21);
}

} // verus!
